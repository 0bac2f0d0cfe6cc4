use vstd::prelude::*;

verus! {

/// The status of one check outcome, as a monitoring system understands it.
#[derive(Clone, Copy, Debug, PartialEq, Eq, Structural)]
pub enum Severity {
    Okay,
    Warn,
    Crit,
    Unknown,
}

impl Severity {
    /// Position in the worst-case order: OK < WARN < UNKNOWN < CRIT.
    pub open spec fn rank(self) -> nat {
        match self {
            Severity::Okay => 0,
            Severity::Warn => 1,
            Severity::Unknown => 2,
            Severity::Crit => 3,
        }
    }

    /// The process exit code a monitoring system expects for this status.
    pub open spec fn code(self) -> nat {
        match self {
            Severity::Okay => 0,
            Severity::Warn => 1,
            Severity::Crit => 2,
            Severity::Unknown => 3,
        }
    }

    pub open spec fn spec_worst(self, other: Severity) -> Severity {
        if other.rank() > self.rank() {
            other
        } else {
            self
        }
    }

    pub fn exit_code(&self) -> (r: u8)
        ensures
            r as nat == self.code(),
    {
        match self {
            Severity::Okay => 0,
            Severity::Warn => 1,
            Severity::Crit => 2,
            Severity::Unknown => 3,
        }
    }

    pub fn rank_of(&self) -> (r: u8)
        ensures
            r as nat == self.rank(),
    {
        match self {
            Severity::Okay => 0,
            Severity::Warn => 1,
            Severity::Unknown => 2,
            Severity::Crit => 3,
        }
    }

    /// The more severe of the two; on equal rank, `self`.
    pub fn worst(&self, other: &Severity) -> (r: Severity)
        ensures
            r == self.spec_worst(*other),
    {
        if other.rank_of() > self.rank_of() {
            *other
        } else {
            *self
        }
    }
}

} // verus!
