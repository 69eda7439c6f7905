//! The closed set of suites the harness can run.

use vstd::prelude::*;

verus! {

/// A named category of test cases with its own manifest and log namespace.
#[derive(Clone, Copy, Debug, PartialEq, Eq, Structural)]
pub enum Suite {
    CiTest,
    StressTest,
    DailyTest,
}

impl Suite {
    /// The directory that holds the suite's manifest and names its logs.
    pub open spec fn dir_name_text(self) -> Seq<char> {
        match self {
            Suite::CiTest => "ci"@,
            Suite::StressTest => "stress"@,
            Suite::DailyTest => "daily"@,
        }
    }

    /// The label shown to people when the manifest gives none.
    pub open spec fn display_name_text(self) -> Seq<char> {
        match self {
            Suite::CiTest => "CI Test"@,
            Suite::StressTest => "Stress Test"@,
            Suite::DailyTest => "Daily Test"@,
        }
    }

    /// The directory that holds the suite's manifest and names its logs.
    pub fn dir_name(&self) -> (name: &'static str)
        ensures
            name@ == self.dir_name_text(),
    {
        match self {
            Suite::CiTest => "ci",
            Suite::StressTest => "stress",
            Suite::DailyTest => "daily",
        }
    }

    /// The label shown to people when the manifest gives none.
    pub fn display_name(&self) -> (name: &'static str)
        ensures
            name@ == self.display_name_text(),
    {
        match self {
            Suite::CiTest => "CI Test",
            Suite::StressTest => "Stress Test",
            Suite::DailyTest => "Daily Test",
        }
    }
}

} // verus!
