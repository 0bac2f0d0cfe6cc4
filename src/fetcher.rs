use vstd::prelude::*;
use vstd::string::*;
use crate::collection::{detail_of, details, join, metrics_of, summary_parts, worst_of, Collection};
use crate::levels::{alert_text, amount_of, real_amount, severity_of, CheckResult, LevelsChecker, LevelsCheckerArgs, Metric, OutputType};
use crate::measure::{Duration, Measurable};
use crate::severity::Severity;
use crate::text::{nat_text, push_nat};
use crate::uom::{is_ascii_letter, Uom};

verus! {

/// Levels for each dimension of a fetch; a dimension without levels yields
/// an OK placeholder.
#[derive(Debug)]
pub struct Config {
    pub response_time: Option<LevelsChecker<Duration>>,
}

impl Config {
    pub fn new(response_time: Option<LevelsChecker<Duration>>) -> (r: Config)
        ensures
            r.response_time == response_time,
    {
        Config { response_time }
    }
}

pub open spec fn response_label() -> Seq<char> {
    "overall_response_time"@
}

/// "Response time: <ms> ms".
pub open spec fn response_notice(millis: nat) -> Seq<char> {
    "Response time: "@ + nat_text(millis) + " ms"@
}

/// `cr` is the outcome of the response time `rt` against `levels`: its severity,
/// its notice text, and the metric attached when a bound is set.
pub open spec fn is_response_result(rt: Duration, levels: LevelsChecker<Duration>, cr: CheckResult) -> bool {
    let sev = severity_of(levels.direction, &rt, &levels.warning, &levels.critical);
    &&& cr.severity == sev
    &&& cr.output.is_notice()
    &&& cr.output.text() == if sev == Severity::Okay {
        response_notice(rt.nanos as nat / 1_000_000)
    } else {
        alert_text(response_label(), rt.amount(), levels.direction, amount_of(&levels.warning), amount_of(&levels.critical))
    }
    &&& (cr.metric is Some <==> levels.has_levels())
    &&& cr.metric matches Some(m) ==> {
        &&& m.label@ == response_label()
        &&& m.value.units == rt.nanos
        &&& m.uom.view() == "s"@
        &&& real_amount(m.warning) == amount_of(&levels.warning)
        &&& real_amount(m.critical) == amount_of(&levels.critical)
    }
}

pub fn check_response_time(response_time: Duration, levels: Option<LevelsChecker<Duration>>) -> (r: Option<CheckResult>)
    ensures
        r is Some <==> levels is Some,
        r matches Some(cr) ==> is_response_result(response_time, levels->Some_0, cr),
{
    match levels {
        None => None,
        Some(levels) => {
            proof {
                reveal_strlit("Response time: ");
                reveal_strlit(" ms");
                reveal_strlit("overall_response_time");
                reveal_strlit("s");
                assert(crate::uom::valid_uom("s"@)) by {
                    assert(is_ascii_letter("s"@[0]));
                }
            }
            let mut text = String::from_str("Response time: ");
            push_nat(&mut text, response_time.as_millis());
            text.append(" ms");
            let uom = match Uom::parse("s") {
                Ok(u) => u,
                Err(_) => {
                    // never taken: "s" is a recognised unit
                    return None;
                },
            };
            let args = LevelsCheckerArgs::new(String::from_str("overall_response_time"), uom);
            Some(levels.check(response_time, OutputType::Notice(text), args))
        },
    }
}

/// Severity of a response time under optional levels: OK without levels.
pub open spec fn response_severity(rt: Duration, levels: Option<LevelsChecker<Duration>>) -> Severity {
    match levels {
        Some(l) => severity_of(l.direction, &rt, &l.warning, &l.critical),
        None => Severity::Okay,
    }
}

/// The detail that a response time adds to the report: the alert line when
/// it is not OK, nothing otherwise.
pub open spec fn response_detail(rt: Duration, levels: Option<LevelsChecker<Duration>>) -> Seq<char> {
    match levels {
        Some(l) => if severity_of(l.direction, &rt, &l.warning, &l.critical) == Severity::Okay {
            seq![]
        } else {
            "\n"@ + alert_text(response_label(), rt.amount(), l.direction, amount_of(&l.warning), amount_of(&l.critical))
        },
        None => seq![],
    }
}

/// Checks a fetch: one outcome per dimension, in a fixed order, folded into a
/// `Collection`.
pub fn check(response_time: Duration, config: Config) -> (r: Collection)
    ensures
        r.severity_view() == response_severity(response_time, config.response_time),
        r.text_view() == response_detail(response_time, config.response_time),
        r.metrics_view().len() == (if config.response_time matches Some(l) && l.has_levels() { 1int } else { 0int }),
        r.metrics_view().len() == 1 ==> {
            let m = r.metrics_view()[0];
            let l = config.response_time->Some_0;
            &&& m.label@ == response_label()
            &&& m.value.units == response_time.nanos
            &&& m.uom.view() == "s"@
            &&& real_amount(m.warning) == amount_of(&l.warning)
            &&& real_amount(m.critical) == amount_of(&l.critical)
        },
{
    let ghost levels = config.response_time;
    let res = match check_response_time(response_time, config.response_time) {
        Some(cr) => cr,
        None => CheckResult::default(),
    };
    let results = vec![res];
    proof {
        reveal_strlit("\n");
        let rs = results@;
        assert(rs.drop_last() =~= Seq::<CheckResult>::empty());
        assert(rs.last() == res);
        assert(res.output.is_notice());
        assert(summary_parts(rs.drop_last()) == Seq::<Seq<char>>::empty());
        assert(summary_parts(rs) == Seq::<Seq<char>>::empty());
        assert(join(summary_parts(rs)) == Seq::<char>::empty());
        assert(details(rs.drop_last()) == Seq::<char>::empty());
        assert(details(rs) == detail_of(res));
        assert(details(rs) == response_detail(response_time, levels));
        assert(worst_of(rs.drop_last()) == Severity::Okay);
        assert(worst_of(rs) == res.severity);
        assert(metrics_of(rs.drop_last()) == Seq::<Metric>::empty());
        assert(metrics_of(rs) == match res.metric {
            Some(m) => seq![m],
            None => Seq::<Metric>::empty(),
        }) by {
            assert(Seq::<Metric>::empty().push(res.metric->Some_0) =~= seq![res.metric->Some_0]);
        }
    }
    Collection::from(results)
}

} // verus!
