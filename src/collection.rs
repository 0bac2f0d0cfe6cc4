use vstd::prelude::*;
use vstd::string::*;
use crate::levels::{CheckResult, Metric};
use crate::severity::Severity;

verus! {

/// The worst severity in `rs`; OK when it is empty.
pub open spec fn worst_of(rs: Seq<CheckResult>) -> Severity
    decreases rs.len(),
{
    if rs.len() == 0 {
        Severity::Okay
    } else {
        worst_of(rs.drop_last()).spec_worst(rs.last().severity)
    }
}

/// The texts of the results whose output is a summary, in order.
pub open spec fn summary_parts(rs: Seq<CheckResult>) -> Seq<Seq<char>>
    decreases rs.len(),
{
    if rs.len() == 0 {
        seq![]
    } else if rs.last().output.is_notice() {
        summary_parts(rs.drop_last())
    } else {
        summary_parts(rs.drop_last()).push(rs.last().output.text())
    }
}

/// `parts` separated by ", ".
pub open spec fn join(parts: Seq<Seq<char>>) -> Seq<char>
    decreases parts.len(),
{
    if parts.len() == 0 {
        seq![]
    } else if parts.len() == 1 {
        parts[0]
    } else {
        join(parts.drop_last()) + ", "@ + parts.last()
    }
}

/// The detail line that `r` adds: its notice, when it is not OK.
pub open spec fn detail_of(r: CheckResult) -> Seq<char> {
    if r.output.is_notice() && r.severity != Severity::Okay {
        "\n"@ + r.output.text()
    } else {
        seq![]
    }
}

/// Every detail line of `rs`, in order.
pub open spec fn details(rs: Seq<CheckResult>) -> Seq<char>
    decreases rs.len(),
{
    if rs.len() == 0 {
        seq![]
    } else {
        details(rs.drop_last()) + detail_of(rs.last())
    }
}

/// The headline of summaries, then the notices of the results that are not OK.
pub open spec fn combined_text(rs: Seq<CheckResult>) -> Seq<char> {
    join(summary_parts(rs)) + details(rs)
}

/// The metrics that are present in `rs`, in order.
pub open spec fn metrics_of(rs: Seq<CheckResult>) -> Seq<Metric>
    decreases rs.len(),
{
    if rs.len() == 0 {
        seq![]
    } else {
        match rs.last().metric {
            Some(m) => metrics_of(rs.drop_last()).push(m),
            None => metrics_of(rs.drop_last()),
        }
    }
}

/// Many check outcomes folded into one: the worst severity, one text and the
/// metrics in order.
#[derive(Debug)]
pub struct Collection {
    severity: Severity,
    text: String,
    metrics: Vec<Metric>,
}

impl Collection {
    pub closed spec fn severity_view(&self) -> Severity {
        self.severity
    }

    pub closed spec fn text_view(&self) -> Seq<char> {
        self.text@
    }

    pub closed spec fn metrics_view(&self) -> Seq<Metric> {
        self.metrics@
    }

    pub fn from(results: Vec<CheckResult>) -> (r: Collection)
        ensures
            r.severity_view() == worst_of(results@),
            r.text_view() == combined_text(results@),
            r.metrics_view() == metrics_of(results@),
    {
        let mut severity = Severity::Okay;
        let mut head = String::new();
        let mut any_summary = false;
        let mut tail = String::new();
        let mut metrics: Vec<Metric> = Vec::new();
        let n = results.len();
        let mut i: usize = 0;
        proof {
            reveal_strlit(", ");
            reveal_strlit("\n");
            assert(results@.take(0) =~= Seq::<CheckResult>::empty());
        }
        while i < n
            invariant
                n == results@.len(),
                i <= n,
                severity == worst_of(results@.take(i as int)),
                head@ == join(summary_parts(results@.take(i as int))),
                any_summary == (summary_parts(results@.take(i as int)).len() > 0),
                tail@ == details(results@.take(i as int)),
                metrics@ == metrics_of(results@.take(i as int)),
            decreases n - i,
        {
            let r = &results[i];
            let ghost pre = results@.take(i as int);
            let ghost cur = results@.take(i as int + 1);
            assert(cur.drop_last() =~= pre);
            assert(cur.last() == *r);
            severity = severity.worst(&r.severity);
            if !r.output.is_notice_exec() {
                let ghost parts = summary_parts(pre);
                assert(summary_parts(cur) == parts.push(r.output.text()));
                assert(parts.push(r.output.text()).drop_last() =~= parts);
                if any_summary {
                    head.append(", ");
                }
                head.append(r.output.as_str());
                any_summary = true;
                assert(head@ =~= join(summary_parts(cur)));
            }
            if r.output.is_notice_exec() && r.severity != Severity::Okay {
                tail.append("\n");
                tail.append(r.output.as_str());
                assert(tail@ =~= details(cur));
            } else {
                assert(tail@ =~= details(cur));
            }
            match &r.metric {
                Some(m) => metrics.push(m.copied()),
                None => {},
            }
            i = i + 1;
        }
        assert(results@.take(n as int) =~= results@);
        head.append(tail.as_str());
        Collection { severity, text: head, metrics }
    }

    pub fn overall_severity(&self) -> (r: Severity)
        ensures
            r == self.severity_view(),
    {
        self.severity
    }

    pub fn combined_text(&self) -> (r: &str)
        ensures
            r@ == self.text_view(),
    {
        self.text.as_str()
    }

    pub fn metrics(&self) -> (r: &Vec<Metric>)
        ensures
            r@ == self.metrics_view(),
    {
        &self.metrics
    }
}

} // verus!
