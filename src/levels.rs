use vstd::prelude::*;
use vstd::string::*;
use crate::measure::{Measurable, Real};
use crate::severity::Severity;
use crate::text::{push_real, real_text};
use crate::uom::Uom;

verus! {

/// Text of a check outcome, tagged with its role: a `Summary` is the headline,
/// a `Notice` is detail shown for outcomes that are not OK.
#[derive(Debug)]
pub enum OutputType {
    Notice(String),
    Summary(String),
}

impl OutputType {
    pub open spec fn text(&self) -> Seq<char> {
        match self {
            OutputType::Notice(s) => s@,
            OutputType::Summary(s) => s@,
        }
    }

    pub open spec fn is_notice(&self) -> bool {
        self is Notice
    }

    /// The same role with the text `s`.
    pub fn retagged(&self, s: String) -> (r: OutputType)
        ensures
            r.is_notice() == self.is_notice(),
            r.text() == s@,
    {
        match self {
            OutputType::Notice(_) => OutputType::Notice(s),
            OutputType::Summary(_) => OutputType::Summary(s),
        }
    }

    pub fn as_str(&self) -> (r: &str)
        ensures
            r@ == self.text(),
    {
        match self {
            OutputType::Notice(s) => s.as_str(),
            OutputType::Summary(s) => s.as_str(),
        }
    }

    pub fn is_notice_exec(&self) -> (r: bool)
        ensures
            r == self.is_notice(),
    {
        match self {
            OutputType::Notice(_) => true,
            OutputType::Summary(_) => false,
        }
    }
}

/// Performance data of one check: `label=value<uom>;warn;crit`.
#[derive(Debug)]
pub struct Metric {
    pub label: String,
    pub value: Real,
    pub uom: Uom,
    pub warning: Option<Real>,
    pub critical: Option<Real>,
}

impl Metric {
    pub fn copied(&self) -> (r: Metric)
        ensures
            r == *self,
    {
        Metric {
            label: self.label.clone(),
            value: self.value,
            uom: self.uom.copied(),
            warning: self.warning,
            critical: self.critical,
        }
    }
}

/// What a `LevelsChecker` needs besides the value: the metric's label and unit.
#[derive(Debug)]
pub struct LevelsCheckerArgs {
    pub label: String,
    pub uom: Uom,
}

impl LevelsCheckerArgs {
    pub fn new(label: String, uom: Uom) -> (r: LevelsCheckerArgs)
        ensures
            r.label == label,
            r.uom == uom,
    {
        LevelsCheckerArgs { label, uom }
    }
}

/// A typed outcome of one check.
#[derive(Debug)]
pub struct CheckResult {
    pub severity: Severity,
    pub output: OutputType,
    pub metric: Option<Metric>,
}

impl CheckResult {
    /// The outcome of a dimension that has no levels: OK, an empty notice and
    /// no metric.
    pub fn placeholder() -> (r: CheckResult)
        ensures
            r.severity == Severity::Okay,
            r.output.is_notice(),
            r.output.text() == Seq::<char>::empty(),
            r.metric is None,
    {
        CheckResult { severity: Severity::Okay, output: OutputType::Notice(String::new()), metric: None }
    }
}

impl Default for CheckResult {
    /// The placeholder outcome.
    fn default() -> (r: CheckResult)
        ensures
            r.severity == Severity::Okay,
            r.output.is_notice(),
            r.output.text() == Seq::<char>::empty(),
            r.metric is None,
    {
        CheckResult::placeholder()
    }
}

/// Which side of a bound is bad.
#[derive(Clone, Copy, Debug, PartialEq, Eq, Structural)]
pub enum Direction {
    /// A value at or above the bound breaches it (a response time, a load).
    Upper,
    /// A value below the bound breaches it (days left, free space).
    Lower,
}

/// `v` breaches the bound `b`: it is set and `v` lies on its bad side.
pub open spec fn breaches<T: Measurable>(d: Direction, v: &T, b: &Option<T>) -> bool {
    match b {
        Some(x) => match d {
            Direction::Upper => v.amount() >= x.amount(),
            Direction::Lower => v.amount() < x.amount(),
        },
        None => false,
    }
}

/// Critical first: a value that breaches both bounds is CRIT only.
pub open spec fn severity_of<T: Measurable>(d: Direction, v: &T, w: &Option<T>, c: &Option<T>) -> Severity {
    if breaches(d, v, c) {
        Severity::Crit
    } else if breaches(d, v, w) {
        Severity::Warn
    } else {
        Severity::Okay
    }
}

pub open spec fn amount_of<T: Measurable>(b: &Option<T>) -> Option<nat> {
    match b {
        Some(x) => Some(x.amount()),
        None => None,
    }
}

pub open spec fn real_amount(b: Option<Real>) -> Option<nat> {
    match b {
        Some(x) => Some(x.units as nat),
        None => None,
    }
}

/// " at " for upper bounds, " below " for lower ones.
pub open spec fn relation_text(d: Direction) -> Seq<char> {
    match d {
        Direction::Upper => " at "@,
        Direction::Lower => " below "@,
    }
}

/// The bounds part of an alert: "warn/crit at W/C", "warn at W" or "crit at C"
/// ("below" in place of "at" for lower bounds).
pub open spec fn bounds_text(d: Direction, w: Option<nat>, c: Option<nat>) -> Seq<char> {
    match (w, c) {
        (Some(a), Some(b)) => "warn/crit"@ + relation_text(d) + real_text(a) + seq!['/'] + real_text(b),
        (Some(a), None) => "warn"@ + relation_text(d) + real_text(a),
        (None, Some(b)) => "crit"@ + relation_text(d) + real_text(b),
        (None, None) => seq![],
    }
}

/// "<label>: <value> (<bounds>)".
pub open spec fn alert_text(label: Seq<char>, v: nat, d: Direction, w: Option<nat>, c: Option<nat>) -> Seq<char> {
    label + ": "@ + real_text(v) + " ("@ + bounds_text(d, w, c) + ")"@
}

fn opt_real<T: Measurable>(b: &Option<T>) -> (r: Option<Real>)
    ensures
        real_amount(r) == amount_of(b),
{
    match b {
        Some(x) => Some(x.to_real()),
        None => None,
    }
}

fn relation_str(d: Direction) -> (r: &'static str)
    ensures
        r@ == relation_text(d),
{
    match d {
        Direction::Upper => {
            proof { reveal_strlit(" at "); }
            " at "
        },
        Direction::Lower => {
            proof { reveal_strlit(" below "); }
            " below "
        },
    }
}

fn push_bounds(s: &mut String, d: Direction, w: Option<Real>, c: Option<Real>)
    ensures
        final(s)@ == old(s)@ + bounds_text(d, real_amount(w), real_amount(c)),
{
    proof {
        reveal_strlit("warn/crit");
        reveal_strlit("warn");
        reveal_strlit("crit");
        reveal_strlit("/");
    }
    match (w, c) {
        (Some(a), Some(b)) => {
            s.append("warn/crit");
            s.append(relation_str(d));
            push_real(s, a.units);
            s.append("/");
            push_real(s, b.units);
        },
        (Some(a), None) => {
            s.append("warn");
            s.append(relation_str(d));
            push_real(s, a.units);
        },
        (None, Some(b)) => {
            s.append("crit");
            s.append(relation_str(d));
            push_real(s, b.units);
        },
        (None, None) => {},
    }
    assert(final(s)@ =~= old(s)@ + bounds_text(d, real_amount(w), real_amount(c)));
}

fn breaches_exec(d: Direction, v: Real, b: Option<Real>) -> (r: bool)
    ensures
        r == match b {
            Some(x) => match d {
                Direction::Upper => v.units >= x.units,
                Direction::Lower => v.units < x.units,
            },
            None => false,
        },
{
    match b {
        Some(x) => match d {
            Direction::Upper => v.units >= x.units,
            Direction::Lower => v.units < x.units,
        },
        None => false,
    }
}

/// Optional warning and critical bounds, and the side of them that is bad.
#[derive(Debug)]
pub struct LevelsChecker<T> {
    pub direction: Direction,
    pub warning: Option<T>,
    pub critical: Option<T>,
}

impl<T: Measurable> LevelsChecker<T> {
    /// Upper bounds: a value at or above a bound breaches it.
    pub fn new(warning: Option<T>, critical: Option<T>) -> (r: LevelsChecker<T>)
        ensures
            r.direction == Direction::Upper,
            r.warning == warning,
            r.critical == critical,
    {
        LevelsChecker { direction: Direction::Upper, warning, critical }
    }

    /// Lower bounds: a value below a bound breaches it.
    pub fn new_lower(warning: Option<T>, critical: Option<T>) -> (r: LevelsChecker<T>)
        ensures
            r.direction == Direction::Lower,
            r.warning == warning,
            r.critical == critical,
    {
        LevelsChecker { direction: Direction::Lower, warning, critical }
    }

    pub open spec fn has_levels(&self) -> bool {
        self.warning is Some || self.critical is Some
    }

    /// Classifies `value`. When it is OK the result carries `output` unchanged;
    /// otherwise an alert text in the same role. The metric is present exactly
    /// when a bound is set, and carries both bounds whatever the severity.
    pub fn check(&self, value: T, output: OutputType, args: LevelsCheckerArgs) -> (r: CheckResult)
        ensures
            r.severity == severity_of(self.direction, &value, &self.warning, &self.critical),
            r.severity == Severity::Okay ==> r.output == output,
            r.severity != Severity::Okay ==> {
                &&& r.output.is_notice() == output.is_notice()
                &&& r.output.text() == alert_text(
                    args.label@,
                    value.amount(),
                    self.direction,
                    amount_of(&self.warning),
                    amount_of(&self.critical),
                )
            },
            r.metric is Some <==> self.has_levels(),
            r.metric matches Some(m) ==> {
                &&& m.label == args.label
                &&& m.value.units == value.amount()
                &&& m.uom == args.uom
                &&& real_amount(m.warning) == amount_of(&self.warning)
                &&& real_amount(m.critical) == amount_of(&self.critical)
            },
    {
        let v = value.to_real();
        let w = opt_real(&self.warning);
        let c = opt_real(&self.critical);
        let crit = breaches_exec(self.direction, v, c);
        let warn = breaches_exec(self.direction, v, w);
        let severity = if crit {
            Severity::Crit
        } else if warn {
            Severity::Warn
        } else {
            Severity::Okay
        };
        let out = if crit || warn {
            let mut s = args.label.clone();
            proof {
                reveal_strlit(": ");
                reveal_strlit(" (");
                reveal_strlit(")");
            }
            s.append(": ");
            push_real(&mut s, v.units);
            s.append(" (");
            push_bounds(&mut s, self.direction, w, c);
            s.append(")");
            assert(s@ =~= alert_text(args.label@, value.amount(), self.direction, amount_of(&self.warning), amount_of(&self.critical)));
            output.retagged(s)
        } else {
            output
        };
        let metric = if w.is_some() || c.is_some() {
            Some(Metric { label: args.label, value: v, uom: args.uom, warning: w, critical: c })
        } else {
            None
        };
        CheckResult { severity, output: out, metric }
    }
}

} // verus!
