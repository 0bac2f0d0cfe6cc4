use vstd::prelude::*;
use vstd::string::*;

verus! {

pub open spec fn is_ascii_letter(c: char) -> bool {
    ('a' <= c && c <= 'z') || ('A' <= c && c <= 'Z')
}

/// A recognised unit symbol: "%", the plain count "1", or one or more ASCII
/// letters ("s", "ms", "B", "KB", ...).
pub open spec fn valid_uom(s: Seq<char>) -> bool {
    s == seq!['%'] || s == seq!['1'] || (s.len() > 0 && forall|i: int|
        0 <= i < s.len() ==> is_ascii_letter(#[trigger] s[i]))
}

/// A unit of measurement for a metric.
#[derive(Debug)]
pub struct Uom {
    symbol: String,
}

#[derive(Clone, Copy, Debug, PartialEq, Eq, Structural)]
pub enum UomError {
    /// The string is not a recognised unit symbol.
    Unrecognized,
}

impl Uom {
    pub closed spec fn view(&self) -> Seq<char> {
        self.symbol@
    }

    pub open spec fn wf(&self) -> bool {
        valid_uom(self.view())
    }

    /// Reads a unit symbol; fails exactly when it is not recognised.
    pub fn parse(s: &str) -> (r: Result<Uom, UomError>)
        ensures
            r is Ok <==> valid_uom(s@),
            r matches Ok(u) ==> u.view() == s@,
            r matches Err(e) ==> e == UomError::Unrecognized,
    {
        let n = s.unicode_len();
        let mut ok: bool = n > 0;
        let mut i: usize = 0;
        while i < n
            invariant
                n == s@.len(),
                i <= n,
                ok <==> (n > 0 && forall|j: int| 0 <= j < i ==> is_ascii_letter(#[trigger] s@[j])),
            decreases n - i,
        {
            let c = s.get_char(i);
            if !(('a' <= c && c <= 'z') || ('A' <= c && c <= 'Z')) {
                ok = false;
            }
            i = i + 1;
        }
        if !ok && n == 1 {
            let c = s.get_char(0);
            if c == '%' || c == '1' {
                ok = true;
            }
            assert(c == '%' ==> s@ =~= seq!['%']);
            assert(c == '1' ==> s@ =~= seq!['1']);
        }
        if n != 1 {
            assert(s@ != seq!['%'] && s@ != seq!['1']) by {
                assert(seq!['%'].len() == 1);
            }
        }
        if ok {
            Ok(Uom { symbol: String::from_str(s) })
        } else {
            Err(UomError::Unrecognized)
        }
    }

    pub fn copied(&self) -> (r: Uom)
        ensures
            r == *self,
    {
        Uom { symbol: self.symbol.clone() }
    }

    pub fn symbol(&self) -> (r: &str)
        ensures
            r@ == self.view(),
    {
        self.symbol.as_str()
    }
}

} // verus!
