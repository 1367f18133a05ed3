use vstd::prelude::*;
use vstd::string::*;

use crate::model::{is_manual, is_required, Test, TestOperationState, TestOptionalState, TestState};
use crate::probe::TestResult;

verus! {

/// How strongly a report line is emphasised.
#[derive(Debug, Clone, Copy, PartialEq, Eq, Structural)]
pub enum Emphasis {
    /// The check passed.
    Positive,
    /// A warning.
    Notice,
    /// Worth a look, but it does not fail the run.
    Advisory,
    /// A failure that fails the run.
    Blocking,
    /// The check did not run.
    Informational,
}

/// One line of the report, with the reason line under it if any.
#[derive(Debug)]
pub struct Report {
    pub state: TestState,
    pub text: &'static str,
    pub reason: Option<String>,
    pub emphasis: Emphasis,
}

pub open spec fn label_of(s: TestState) -> Seq<char> {
    match s {
        TestState::Pass => "OK"@,
        TestState::Fail => "FAIL"@,
        TestState::Warning => "WARNING"@,
        TestState::Indeterminate => "TBD"@,
        TestState::Skipped => "SKIP"@,
    }
}

/// The word shown between the brackets of a report line.
pub fn state_label(s: TestState) -> (r: &'static str)
    ensures
        r@ == label_of(s),
{
    match s {
        TestState::Pass => "OK",
        TestState::Fail => "FAIL",
        TestState::Warning => "WARNING",
        TestState::Indeterminate => "TBD",
        TestState::Skipped => "SKIP",
    }
}

/// The emphasis of an outcome of node `t`.
pub open spec fn emphasis_of(t: Test, s: TestState) -> Emphasis {
    match s {
        TestState::Pass => Emphasis::Positive,
        TestState::Warning => Emphasis::Notice,
        TestState::Skipped => Emphasis::Informational,
        TestState::Fail => if is_required(t) && !is_manual(t) {
            Emphasis::Blocking
        } else {
            Emphasis::Advisory
        },
        TestState::Indeterminate => Emphasis::Advisory,
    }
}

/// The instruction shown for a check left to the operator.
pub open spec fn manual_note() -> Seq<char> {
    "Unable to check in program. Please check manually."@
}

/// The reason line shown for an outcome of node `t` with reason `reason`.
pub open spec fn shown_reason(t: Test, s: TestState, reason: Seq<char>) -> Option<Seq<char>> {
    if s == TestState::Pass || s == TestState::Skipped {
        None
    } else if is_manual(t) && s != TestState::Warning {
        Some(manual_note())
    } else if reason.len() == 0 {
        None
    } else {
        Some(reason)
    }
}

pub open spec fn reason_view(r: Option<String>) -> Option<Seq<char>> {
    match r {
        Some(s) => Some(s@),
        None => None,
    }
}

/// The report line for the outcome of node `test`.
pub fn report_result(test: &Test, result: TestResult) -> (r: Report)
    ensures
        r.state == result.state,
        r.text == test.action,
        r.emphasis == emphasis_of(*test, result.state),
        reason_view(r.reason) == shown_reason(*test, result.state, result.reason@),
{
    let state = result.state;
    let manual = match test.operation {
        TestOperationState::Manual => true,
        TestOperationState::Program => false,
    };
    let required = match test.optional_state {
        TestOptionalState::Required => true,
        TestOptionalState::Optional => false,
    };
    let emphasis = match state {
        TestState::Pass => Emphasis::Positive,
        TestState::Warning => Emphasis::Notice,
        TestState::Skipped => Emphasis::Informational,
        TestState::Fail => if required && !manual {
            Emphasis::Blocking
        } else {
            Emphasis::Advisory
        },
        TestState::Indeterminate => Emphasis::Advisory,
    };
    let reason = if state == TestState::Pass || state == TestState::Skipped {
        None
    } else if manual && state != TestState::Warning {
        Some(String::from_str("Unable to check in program. Please check manually."))
    } else if result.reason.unicode_len() == 0 {
        None
    } else {
        Some(result.reason)
    };
    Report { state, text: test.action, reason, emphasis }
}

/// The report line for node `test` when it is skipped: its name alone.
pub fn report_skip_result(test: &Test) -> (r: Report)
    ensures
        r.state == TestState::Skipped,
        r.text == test.name,
        r.reason is None,
        r.emphasis == Emphasis::Informational,
{
    Report { state: TestState::Skipped, text: test.name, reason: None, emphasis: Emphasis::Informational }
}

/// The registration server named by bit 27 of MSR 0xCE: "SBX" when it is
/// set, "LIV" otherwise.
pub fn registration_server(v: u64) -> (r: &'static str)
    ensures
        r@ == (if crate::probe::bit_set(v, 27) {
            "SBX"@
        } else {
            "LIV"@
        }),
{
    if crate::probe::msr_bit(v, 27) {
        "SBX"
    } else {
        "LIV"
    }
}

} // verus!
