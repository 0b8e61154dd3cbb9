//! Results of Unity test runs, as NUnit reports them.

use crate::cli::ShowResults;
use vstd::prelude::*;

verus! {

/// The result of a test or a test run.
#[derive(Copy, Clone, Debug, PartialEq, Eq, Structural)]
pub enum TestResult {
    Passed,
    Failed,
    Inconclusive,
    Skipped,
    /// The result could not be parsed.
    Invalid,
}

/// The result that a result attribute of an NUnit report names.
pub open spec fn result_named(s: Seq<char>) -> TestResult {
    if s == "Passed"@ {
        TestResult::Passed
    } else if s == "Failed"@ || s == "Failed(Child)"@ {
        TestResult::Failed
    } else if s == "Inconclusive"@ {
        TestResult::Inconclusive
    } else if s == "Skipped"@ {
        TestResult::Skipped
    } else {
        TestResult::Invalid
    }
}

/// The name of a result.
pub open spec fn result_name(r: TestResult) -> Seq<char> {
    match r {
        TestResult::Passed => "Passed"@,
        TestResult::Failed => "Failed"@,
        TestResult::Inconclusive => "Inconclusive"@,
        TestResult::Skipped => "Skipped"@,
        TestResult::Invalid => "Invalid"@,
    }
}

impl TestResult {
    /// The result that a result attribute of an NUnit report names; a
    /// failure of a child test is a failure.
    pub fn from(s: &str) -> (r: Self)
        ensures
            r == result_named(s@),
    {
        let t = s.to_string();
        if t == "Passed".to_string() {
            Self::Passed
        } else if t == "Failed".to_string() || t == "Failed(Child)".to_string() {
            Self::Failed
        } else if t == "Inconclusive".to_string() {
            Self::Inconclusive
        } else if t == "Skipped".to_string() {
            Self::Skipped
        } else {
            Self::Invalid
        }
    }

    /// The name of the result.
    pub fn as_ref(&self) -> (r: &'static str)
        ensures
            r@ == result_name(*self),
    {
        match self {
            Self::Passed => "Passed",
            Self::Failed => "Failed",
            Self::Inconclusive => "Inconclusive",
            Self::Skipped => "Skipped",
            Self::Invalid => "Invalid",
        }
    }
}

/// Whether a test case with the given result is listed after a run: all of
/// them, those that did not pass, or none.
pub fn is_listed(show: ShowResults, result: TestResult) -> (r: bool)
    ensures
        r == match show {
            ShowResults::All => true,
            ShowResults::Errors => result != TestResult::Passed,
            ShowResults::NoResults => false,
        },
{
    match show {
        ShowResults::All => true,
        ShowResults::Errors => !matches!(result, TestResult::Passed),
        ShowResults::NoResults => false,
    }
}

/// Reading back the name of a result gives the result.
pub proof fn law_result_name_roundtrip(r: TestResult)
    ensures
        result_named(result_name(r)) == r,
{
    reveal_strlit("Passed");
    reveal_strlit("Failed");
    reveal_strlit("Failed(Child)");
    reveal_strlit("Inconclusive");
    reveal_strlit("Skipped");
    reveal_strlit("Invalid");
    let n = result_name(r);
    if !(r is Passed) {
        assert(n[0] != "Passed"@[0] || n.len() != "Passed"@.len());
    }
    if !(r is Failed) {
        assert(n[0] != "Failed"@[0] || n.len() != "Failed"@.len());
        assert(n.len() != "Failed(Child)"@.len());
    }
    if !(r is Inconclusive) {
        assert(n[0] != "Inconclusive"@[0] || n.len() != "Inconclusive"@.len());
    }
    if !(r is Skipped) {
        assert(n[0] != "Skipped"@[0]);
    }
}

} // verus!
