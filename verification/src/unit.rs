//! The unit of the requested validity and its label on the wire.

use vstd::prelude::*;
use vstd::string::*;

verus! {

/// Unit of time in which the validity of the requested token is counted.
#[derive(Clone, Copy, Debug, PartialEq, Eq, Structural)]
pub enum TimeUnit {
    Seconds,
    Minutes,
    Hours,
    Days,
}

impl TimeUnit {
    /// The label that stands for the unit in a request: its name in upper
    /// case.
    pub open spec fn label(self) -> Seq<char> {
        match self {
            TimeUnit::Seconds => "SECONDS"@,
            TimeUnit::Minutes => "MINUTES"@,
            TimeUnit::Hours => "HOURS"@,
            TimeUnit::Days => "DAYS"@,
        }
    }

    /// The label of the unit as owned text.
    pub fn wire_label(&self) -> (text: String)
        ensures
            text@ == self.label(),
    {
        match self {
            TimeUnit::Seconds => "SECONDS".to_owned(),
            TimeUnit::Minutes => "MINUTES".to_owned(),
            TimeUnit::Hours => "HOURS".to_owned(),
            TimeUnit::Days => "DAYS".to_owned(),
        }
    }

    /// Two units with the same label are the same unit: a label names its
    /// unit.
    pub proof fn label_names_unit(a: TimeUnit, b: TimeUnit)
        requires
            a.label() == b.label(),
        ensures
            a == b,
    {
        reveal_strlit("SECONDS");
        reveal_strlit("MINUTES");
        reveal_strlit("HOURS");
        reveal_strlit("DAYS");
        assert("SECONDS"@.len() == 7 && "SECONDS"@[0] == 'S');
        assert("MINUTES"@.len() == 7 && "MINUTES"@[0] == 'M');
        assert("HOURS"@.len() == 5);
        assert("DAYS"@.len() == 4);
    }
}

impl Default for TimeUnit {
    /// Hours, the unit of a request that names none.
    fn default() -> (unit: TimeUnit)
        ensures
            unit == TimeUnit::Hours,
    {
        TimeUnit::Hours
    }
}

} // verus!
