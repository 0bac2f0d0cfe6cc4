use vstd::prelude::*;
use crate::collection::{combined_text, details, metrics_of, summary_parts, worst_of};
use crate::levels::{breaches, severity_of, CheckResult, Direction, LevelsChecker};
use crate::measure::Measurable;
use crate::severity::Severity;

verus! {

/// `c` is at least as severe a bound as `w`: no lower under upper bounds,
/// no higher under lower ones.
pub open spec fn at_least_as_severe<T: Measurable>(d: Direction, c: T, w: T) -> bool {
    match d {
        Direction::Upper => c.amount() >= w.amount(),
        Direction::Lower => c.amount() <= w.amount(),
    }
}

/// A value that breaches the critical bound is CRIT, whether or not it also
/// breaches the warning bound.
pub proof fn lemma_critical_wins<T: Measurable>(d: Direction, v: T, w: T, c: T)
    requires
        at_least_as_severe(d, c, w),
        breaches(d, &v, &Some(c)),
    ensures
        severity_of(d, &v, &Some(w), &Some(c)) == Severity::Crit,
{
}

/// With only a warning bound, the severity is WARN exactly when the value
/// breaches it, and OK otherwise.
pub proof fn lemma_warning_only<T: Measurable>(d: Direction, v: T, w: T)
    ensures
        severity_of(d, &v, &Some(w), &None) == Severity::Warn <==> breaches(d, &v, &Some(w)),
        !breaches(d, &v, &Some(w)) ==> severity_of(d, &v, &Some(w), &None) == Severity::Okay,
{
}

/// A checker without bounds rates every value OK and attaches no metric.
pub proof fn lemma_no_levels<T: Measurable>(l: LevelsChecker<T>, v: T)
    requires
        l.warning is None,
        l.critical is None,
    ensures
        severity_of(l.direction, &v, &l.warning, &l.critical) == Severity::Okay,
        !l.has_levels(),
{
}

/// The overall severity is the worst of the results: at least each one's,
/// and equal to one of them (OK when there are none).
pub proof fn lemma_worst_is_max(rs: Seq<CheckResult>)
    ensures
        forall|i: int| 0 <= i < rs.len() ==> worst_of(rs).rank() >= (#[trigger] rs[i]).severity.rank(),
        rs.len() == 0 ==> worst_of(rs) == Severity::Okay,
        rs.len() > 0 ==> exists|i: int| 0 <= i < rs.len() && worst_of(rs) == (#[trigger] rs[i]).severity,
    decreases rs.len(),
{
    if rs.len() > 0 {
        let p = rs.drop_last();
        lemma_worst_is_max(p);
        assert forall|i: int| 0 <= i < rs.len() implies worst_of(rs).rank() >= (#[trigger] rs[i]).severity.rank() by {
            if i < p.len() {
                assert(rs[i] == p[i]);
            }
        }
        if worst_of(rs) == rs.last().severity {
            assert(worst_of(rs) == rs[rs.len() - 1].severity);
        } else {
            let k = choose|k: int| 0 <= k < p.len() && worst_of(p) == (#[trigger] p[k]).severity;
            assert(worst_of(rs) == rs[k].severity);
        }
    }
}

/// Adding results never lowers the overall severity: when every result of
/// `small` is also in `large`, the overall severity of `large` is at least
/// that of `small`.
pub proof fn lemma_monotonic(small: Seq<CheckResult>, large: Seq<CheckResult>)
    requires
        forall|i: int| 0 <= i < small.len() ==> large.contains(#[trigger] small[i]),
    ensures
        worst_of(large).rank() >= worst_of(small).rank(),
{
    lemma_worst_is_max(small);
    lemma_worst_is_max(large);
    if small.len() > 0 {
        let k = choose|k: int| 0 <= k < small.len() && worst_of(small) == (#[trigger] small[k]).severity;
        assert(large.contains(small[k]));
        let j = choose|j: int| 0 <= j < large.len() && large[j] == small[k];
        assert(worst_of(large).rank() >= large[j].severity.rank());
    }
}

/// Results appended after others never lower the overall severity.
pub proof fn lemma_append_monotonic(first: Seq<CheckResult>, extra: Seq<CheckResult>)
    ensures
        worst_of(first + extra).rank() >= worst_of(first).rank(),
{
    let all = first + extra;
    assert forall|i: int| 0 <= i < first.len() implies all.contains(#[trigger] first[i]) by {
        assert(all[i] == first[i]);
    }
    lemma_monotonic(first, all);
}

/// The empty collection is OK, with no text and no metric.
pub proof fn lemma_empty_identity()
    ensures
        worst_of(Seq::<CheckResult>::empty()) == Severity::Okay,
        combined_text(Seq::<CheckResult>::empty()) == Seq::<char>::empty(),
        metrics_of(Seq::<CheckResult>::empty()) == Seq::<crate::levels::Metric>::empty(),
{
    assert(combined_text(Seq::<CheckResult>::empty()) =~= Seq::<char>::empty());
}

/// Folding two runs of results one after the other keeps their order: the
/// summaries, the detail lines and the metrics of `a` come before those of `b`.
pub proof fn lemma_order_kept(a: Seq<CheckResult>, b: Seq<CheckResult>)
    ensures
        summary_parts(a + b) == summary_parts(a) + summary_parts(b),
        details(a + b) == details(a) + details(b),
        metrics_of(a + b) == metrics_of(a) + metrics_of(b),
    decreases b.len(),
{
    if b.len() == 0 {
        assert(a + b =~= a);
        assert(summary_parts(a) + summary_parts(b) =~= summary_parts(a));
        assert(details(a) + details(b) =~= details(a));
        assert(metrics_of(a) + metrics_of(b) =~= metrics_of(a));
    } else {
        let bp = b.drop_last();
        lemma_order_kept(a, bp);
        assert((a + b).drop_last() =~= a + bp);
        assert((a + b).last() == b.last());
        assert(summary_parts(a) + summary_parts(bp).push(b.last().output.text())
            =~= (summary_parts(a) + summary_parts(bp)).push(b.last().output.text()));
        assert(details(a) + (details(bp) + crate::collection::detail_of(b.last()))
            =~= details(a) + details(bp) + crate::collection::detail_of(b.last()));
        if let Some(m) = b.last().metric {
            assert(metrics_of(a) + metrics_of(bp).push(m) =~= (metrics_of(a) + metrics_of(bp)).push(m));
        }
    }
}

} // verus!
