use vstd::prelude::*;
use vstd::string::*;

verus! {

/// Billionths in one whole unit: the fixed scale of a `Real`.
pub const SCALE: u64 = 1_000_000_000;

/// Number of fractional digits that `SCALE` provides.
pub const FRACTION_DIGITS: u32 = 9;

pub open spec fn digit_char(d: nat) -> char {
    if d == 0 {
        '0'
    } else if d == 1 {
        '1'
    } else if d == 2 {
        '2'
    } else if d == 3 {
        '3'
    } else if d == 4 {
        '4'
    } else if d == 5 {
        '5'
    } else if d == 6 {
        '6'
    } else if d == 7 {
        '7'
    } else if d == 8 {
        '8'
    } else {
        '9'
    }
}

/// Decimal digits of `n`, without leading zeros ("0" for zero).
pub open spec fn nat_text(n: nat) -> Seq<char>
    decreases n,
{
    if n < 10 {
        seq![digit_char(n)]
    } else {
        nat_text(n / 10) + seq![digit_char(n % 10)]
    }
}

/// The last `k` decimal digits of `f`, padded with leading zeros.
pub open spec fn padded_text(f: nat, k: nat) -> Seq<char>
    decreases k,
{
    if k == 0 {
        seq![]
    } else {
        padded_text(f / 10, (k - 1) as nat) + seq![digit_char(f % 10)]
    }
}

/// `s` without its trailing '0' characters.
pub open spec fn trim_zeros(s: Seq<char>) -> Seq<char>
    decreases s.len(),
{
    if s.len() > 0 && s.last() == '0' {
        trim_zeros(s.drop_last())
    } else {
        s
    }
}

/// A fixed-point amount of `units` billionths written in decimal: the whole
/// part, then a point and the fraction without trailing zeros if it is not zero.
pub open spec fn real_text(units: nat) -> Seq<char> {
    let whole = units / (SCALE as nat);
    let frac = units % (SCALE as nat);
    if frac == 0 {
        nat_text(whole)
    } else {
        nat_text(whole) + seq!['.'] + trim_zeros(padded_text(frac, FRACTION_DIGITS as nat))
    }
}

fn digit_str(d: u64) -> (r: &'static str)
    requires
        d < 10,
    ensures
        r@ == seq![digit_char(d as nat)],
{
    if d == 0 {
        proof { reveal_strlit("0"); }
        "0"
    } else if d == 1 {
        proof { reveal_strlit("1"); }
        "1"
    } else if d == 2 {
        proof { reveal_strlit("2"); }
        "2"
    } else if d == 3 {
        proof { reveal_strlit("3"); }
        "3"
    } else if d == 4 {
        proof { reveal_strlit("4"); }
        "4"
    } else if d == 5 {
        proof { reveal_strlit("5"); }
        "5"
    } else if d == 6 {
        proof { reveal_strlit("6"); }
        "6"
    } else if d == 7 {
        proof { reveal_strlit("7"); }
        "7"
    } else if d == 8 {
        proof { reveal_strlit("8"); }
        "8"
    } else {
        proof { reveal_strlit("9"); }
        "9"
    }
}

/// Appends the decimal digits of `n`.
pub fn push_nat(s: &mut String, n: u64)
    ensures
        final(s)@ == old(s)@ + nat_text(n as nat),
    decreases n,
{
    if n >= 10 {
        push_nat(s, n / 10);
    }
    s.append(digit_str(n % 10));
    assert(final(s)@ =~= old(s)@ + nat_text(n as nat));
}

fn push_padded(s: &mut String, f: u64, k: u32)
    ensures
        final(s)@ == old(s)@ + padded_text(f as nat, k as nat),
    decreases k,
{
    if k > 0 {
        push_padded(s, f / 10, k - 1);
        s.append(digit_str(f % 10));
    }
    assert(final(s)@ =~= old(s)@ + padded_text(f as nat, k as nat));
}

proof fn lemma_trim_step(f: nat, k: nat)
    requires
        k > 0,
        f % 10 == 0,
    ensures
        trim_zeros(padded_text(f, k)) == trim_zeros(padded_text(f / 10, (k - 1) as nat)),
{
    let p = padded_text(f / 10, (k - 1) as nat);
    assert((p + seq!['0']).drop_last() =~= p);
}

proof fn lemma_trim_stop(f: nat, k: nat)
    requires
        k == 0 || f % 10 != 0,
    ensures
        trim_zeros(padded_text(f, k)) == padded_text(f, k),
{
}

/// Appends `real_text(units)`.
pub fn push_real(s: &mut String, units: u64)
    ensures
        final(s)@ == old(s)@ + real_text(units as nat),
{
    push_nat(s, units / SCALE);
    let frac = units % SCALE;
    if frac != 0 {
        proof { reveal_strlit("."); }
        s.append(".");
        let mut f: u64 = frac;
        let mut w: u32 = FRACTION_DIGITS;
        while w > 0 && f % 10 == 0
            invariant
                trim_zeros(padded_text(frac as nat, FRACTION_DIGITS as nat))
                    == trim_zeros(padded_text(f as nat, w as nat)),
            decreases w,
        {
            proof { lemma_trim_step(f as nat, w as nat); }
            f = f / 10;
            w = w - 1;
        }
        proof { lemma_trim_stop(f as nat, w as nat); }
        push_padded(s, f, w);
    }
    assert(final(s)@ =~= old(s)@ + real_text(units as nat));
}

} // verus!
