use check_cert::collection::Collection;
use check_cert::fetcher::{check, check_response_time, Config};
use check_cert::levels::{CheckResult, LevelsChecker, LevelsCheckerArgs, OutputType};
use check_cert::measure::{Duration, Measurable, Real};
use check_cert::severity::Severity;
use check_cert::text::{push_nat, push_real};
use check_cert::uom::{Uom, UomError};

fn seconds_args(label: &str) -> LevelsCheckerArgs {
    LevelsCheckerArgs::new(label.to_string(), Uom::parse("s").unwrap())
}

fn bounds(warn_ms: Option<u64>, crit_ms: Option<u64>) -> LevelsChecker<Duration> {
    LevelsChecker::new(warn_ms.map(Duration::from_millis), crit_ms.map(Duration::from_millis))
}

fn result(severity: Severity, output: OutputType) -> CheckResult {
    CheckResult { severity, output, metric: None }
}

fn text_of(o: &OutputType) -> String {
    o.as_str().to_string()
}

#[test]
fn warn_between_bounds() {
    let l = bounds(Some(1000), Some(2000));
    let r = l.check(
        Duration::from_millis(1500),
        OutputType::Notice("fine".to_string()),
        seconds_args("rt"),
    );
    assert_eq!(r.severity, Severity::Warn);
    assert!(r.output.is_notice_exec());
    assert_eq!(text_of(&r.output), "rt: 1.5 (warn/crit at 1/2)");
    let m = r.metric.unwrap();
    assert_eq!(m.label, "rt");
    assert_eq!(m.value, Real::from_units(1_500_000_000));
    assert_eq!(m.uom.symbol(), "s");
    assert_eq!(m.warning, Some(Real::from_whole(1)));
    assert_eq!(m.critical, Some(Real::from_whole(2)));
}

#[test]
fn crit_above_both_bounds() {
    let l = bounds(Some(1000), Some(2000));
    let r = l.check(
        Duration::from_millis(2500),
        OutputType::Summary("fine".to_string()),
        seconds_args("rt"),
    );
    assert_eq!(r.severity, Severity::Crit);
    assert!(!r.output.is_notice_exec());
    assert_eq!(text_of(&r.output), "rt: 2.5 (warn/crit at 1/2)");
    assert!(r.metric.is_some());
}

#[test]
fn crit_only_bound() {
    let l = bounds(None, Some(2000));
    let r = l.check(Duration::from_millis(2000), OutputType::Notice(String::new()), seconds_args("rt"));
    assert_eq!(r.severity, Severity::Crit);
    assert_eq!(text_of(&r.output), "rt: 2 (crit at 2)");
    let m = r.metric.unwrap();
    assert_eq!(m.warning, None);
    assert_eq!(m.critical, Some(Real::from_whole(2)));
}

#[test]
fn ok_below_bounds_keeps_output_and_metric() {
    let l = bounds(Some(1000), Some(2000));
    let r = l.check(Duration::from_millis(300), OutputType::Notice("quick".to_string()), seconds_args("rt"));
    assert_eq!(r.severity, Severity::Okay);
    assert_eq!(text_of(&r.output), "quick");
    let m = r.metric.unwrap();
    assert_eq!(m.value, Real::from_units(300_000_000));
    assert_eq!(m.warning, Some(Real::from_whole(1)));
}

#[test]
fn warning_only_bound() {
    let l = bounds(Some(1000), None);
    let below = l.check(Duration::from_millis(999), OutputType::Notice("a".to_string()), seconds_args("rt"));
    assert_eq!(below.severity, Severity::Okay);
    let at = l.check(Duration::from_millis(1000), OutputType::Notice("a".to_string()), seconds_args("rt"));
    assert_eq!(at.severity, Severity::Warn);
    assert_eq!(text_of(&at.output), "rt: 1 (warn at 1)");
    let above = l.check(Duration::from_millis(5000), OutputType::Notice("a".to_string()), seconds_args("rt"));
    assert_eq!(above.severity, Severity::Warn);
}

#[test]
fn crit_wins_over_warning() {
    let l = bounds(Some(1000), Some(1000));
    let r = l.check(Duration::from_millis(1000), OutputType::Notice("a".to_string()), seconds_args("rt"));
    assert_eq!(r.severity, Severity::Crit);
}

#[test]
fn no_bounds_is_ok_without_metric() {
    let l = bounds(None, None);
    for ms in [0u64, 300, 1_000_000] {
        let r = l.check(
            Duration::from_millis(ms),
            OutputType::Notice("Response time: 300 ms".to_string()),
            seconds_args("rt"),
        );
        assert_eq!(r.severity, Severity::Okay);
        assert_eq!(text_of(&r.output), "Response time: 300 ms");
        assert!(r.metric.is_none());
    }
}

#[test]
fn collection_of_mixed_results() {
    let rs = vec![
        result(Severity::Okay, OutputType::Notice("first ok".to_string())),
        result(Severity::Warn, OutputType::Notice("second warn".to_string())),
        result(Severity::Crit, OutputType::Notice("third crit".to_string())),
        result(Severity::Okay, OutputType::Notice("fourth ok".to_string())),
    ];
    let c = Collection::from(rs);
    assert_eq!(c.overall_severity(), Severity::Crit);
    assert_eq!(c.combined_text(), "\nsecond warn\nthird crit");
    assert!(c.metrics().is_empty());
}

#[test]
fn collection_joins_summaries_then_notices() {
    let rs = vec![
        result(Severity::Okay, OutputType::Summary("head one".to_string())),
        result(Severity::Warn, OutputType::Notice("detail".to_string())),
        result(Severity::Warn, OutputType::Summary("head two".to_string())),
    ];
    let c = Collection::from(rs);
    assert_eq!(c.overall_severity(), Severity::Warn);
    assert_eq!(c.combined_text(), "head one, head two\ndetail");
}

#[test]
fn empty_collection_is_ok() {
    let c = Collection::from(vec![]);
    assert_eq!(c.overall_severity(), Severity::Okay);
    assert_eq!(c.combined_text(), "");
    assert!(c.metrics().is_empty());
}

#[test]
fn collection_keeps_metric_order() {
    let a = bounds(Some(1000), None).check(Duration::from_millis(10), OutputType::Notice(String::new()), seconds_args("a"));
    let b = bounds(None, None).check(Duration::from_millis(20), OutputType::Notice(String::new()), seconds_args("b"));
    let c = bounds(None, Some(5000)).check(Duration::from_millis(30), OutputType::Notice(String::new()), seconds_args("c"));
    let coll = Collection::from(vec![a, b, c]);
    let labels: Vec<&str> = coll.metrics().iter().map(|m| m.label.as_str()).collect();
    assert_eq!(labels, vec!["a", "c"]);
    assert_eq!(coll.overall_severity(), Severity::Okay);
}

#[test]
fn adding_results_never_lowers_severity() {
    let base = || vec![result(Severity::Warn, OutputType::Notice("w".to_string()))];
    let small = Collection::from(base());
    let mut more = base();
    more.push(result(Severity::Okay, OutputType::Notice("o".to_string())));
    let large = Collection::from(more);
    assert_eq!(small.overall_severity(), Severity::Warn);
    assert_eq!(large.overall_severity(), Severity::Warn);
    let mut most = base();
    most.push(result(Severity::Unknown, OutputType::Notice("u".to_string())));
    assert_eq!(Collection::from(most).overall_severity(), Severity::Unknown);
}

#[test]
fn severity_order_and_codes() {
    assert_eq!(Severity::Warn.worst(&Severity::Unknown), Severity::Unknown);
    assert_eq!(Severity::Unknown.worst(&Severity::Crit), Severity::Crit);
    assert_eq!(Severity::Crit.worst(&Severity::Okay), Severity::Crit);
    assert_eq!(Severity::Okay.exit_code(), 0);
    assert_eq!(Severity::Warn.exit_code(), 1);
    assert_eq!(Severity::Crit.exit_code(), 2);
    assert_eq!(Severity::Unknown.exit_code(), 3);
}

#[test]
fn unit_symbols() {
    for ok in ["s", "%", "1", "ms", "KB"] {
        assert_eq!(Uom::parse(ok).unwrap().symbol(), ok);
    }
    for bad in ["", "2", "s1", "m s", "%%", "s-"] {
        assert_eq!(Uom::parse(bad).unwrap_err(), UomError::Unrecognized);
    }
}

#[test]
fn decimal_rendering() {
    let cases: [(u64, &str); 6] = [
        (0, "0"),
        (300_000_000, "0.3"),
        (1_000_000_000, "1"),
        (1_000_000_001, "1.000000001"),
        (12_050_000_000, "12.05"),
        (u64::MAX, "18446744073.709551615"),
    ];
    for (units, want) in cases {
        let mut s = String::from(">");
        push_real(&mut s, units);
        assert_eq!(s, format!(">{}", want));
    }
    let mut n = String::new();
    push_nat(&mut n, 1020);
    assert_eq!(n, "1020");
}

#[test]
fn duration_reads_as_seconds() {
    let d = Duration::from_secs(3);
    assert_eq!(d.to_real(), Real::from_units(3_000_000_000));
    assert_eq!(Duration::from_nanos(2_500_000).as_millis(), 2);
}

#[test]
fn response_time_without_levels() {
    assert!(check_response_time(Duration::from_millis(300), None).is_none());
    let c = check(Duration::from_millis(300), Config::new(None));
    assert_eq!(c.overall_severity(), Severity::Okay);
    assert_eq!(c.combined_text(), "");
    assert!(c.metrics().is_empty());
}

#[test]
fn response_time_ok_notice() {
    let r = check_response_time(Duration::from_millis(300), Some(bounds(None, None))).unwrap();
    assert_eq!(r.severity, Severity::Okay);
    assert_eq!(text_of(&r.output), "Response time: 300 ms");
    assert!(r.metric.is_none());
}

#[test]
fn response_time_with_levels() {
    let c = check(Duration::from_millis(1500), Config::new(Some(bounds(Some(1000), Some(2000)))));
    assert_eq!(c.overall_severity(), Severity::Warn);
    assert_eq!(c.combined_text(), "\noverall_response_time: 1.5 (warn/crit at 1/2)");
    let m = &c.metrics()[0];
    assert_eq!(m.label, "overall_response_time");
    assert_eq!(m.uom.symbol(), "s");
    assert_eq!(m.value, Real::from_units(1_500_000_000));

    let fast = check(Duration::from_millis(20), Config::new(Some(bounds(Some(1000), Some(2000)))));
    assert_eq!(fast.overall_severity(), Severity::Okay);
    assert_eq!(fast.combined_text(), "");
    assert_eq!(fast.metrics().len(), 1);

    let slow = check(Duration::from_millis(2500), Config::new(Some(bounds(Some(1000), Some(2000)))));
    assert_eq!(slow.overall_severity(), Severity::Crit);
}

#[test]
fn lower_bounds_breach_below() {
    let l = LevelsChecker::new_lower(Some(Real::from_whole(30)), Some(Real::from_whole(7)));
    let args = || LevelsCheckerArgs::new("days".to_string(), Uom::parse("d").unwrap());
    let fine = l.check(Real::from_whole(30), OutputType::Summary("ok".to_string()), args());
    assert_eq!(fine.severity, Severity::Okay);
    assert_eq!(text_of(&fine.output), "ok");
    let soon = l.check(Real::from_whole(10), OutputType::Summary("ok".to_string()), args());
    assert_eq!(soon.severity, Severity::Warn);
    assert_eq!(text_of(&soon.output), "days: 10 (warn/crit below 30/7)");
    let due = l.check(Real::from_units(6_500_000_000), OutputType::Summary("ok".to_string()), args());
    assert_eq!(due.severity, Severity::Crit);
    assert_eq!(text_of(&due.output), "days: 6.5 (warn/crit below 30/7)");
}

#[test]
fn default_result_is_placeholder() {
    let r = CheckResult::default();
    assert_eq!(r.severity, Severity::Okay);
    assert!(r.output.is_notice_exec());
    assert_eq!(text_of(&r.output), "");
    assert!(r.metric.is_none());
}
