//! Run outcomes and how they are reported.
//!
//! A single invocation ends in one of three ways: the blurred image was
//! saved, decoding the input failed, or writing the output failed. The
//! functions here fix, once, which line the tool prints for each outcome
//! and which exit status it hands back, so that a failed write can never
//! be reported with the success line.

use vstd::prelude::*;

verus! {

/// How one run of the tool ended. The `detail` fields carry the rendered
/// error text of the failed operation; `sigma` and `output` carry the
/// sigma text and the output path of a successful save.
pub enum RunOutcome {
    Saved { sigma: String, output: String },
    DecodeFailed { detail: String },
    WriteFailed { detail: String },
}

/// The line the tool prints for an outcome.
pub open spec fn spec_report(o: RunOutcome) -> Seq<char> {
    match o {
        RunOutcome::Saved { sigma, output } => "Saved blurred ("@ + sigma@ + ") image to "@
            + output@,
        RunOutcome::DecodeFailed { detail } => "something went wrong reading the file "@
            + detail@,
        RunOutcome::WriteFailed { detail } => "Error: "@ + detail@,
    }
}

/// The process exit status for an outcome: zero exactly on success,
/// one for a decode failure and for a write failure.
pub open spec fn spec_exit_status(o: RunOutcome) -> int {
    match o {
        RunOutcome::Saved { .. } => 0,
        RunOutcome::DecodeFailed { .. } => 1,
        RunOutcome::WriteFailed { .. } => 1,
    }
}

/// Builds the report line for an outcome.
pub fn report_line(o: &RunOutcome) -> (r: String)
    ensures
        r@ == spec_report(*o),
{
    let mut line = String::new();
    match o {
        RunOutcome::Saved { sigma, output } => {
            line.append("Saved blurred (");
            line.append(sigma.as_str());
            line.append(") image to ");
            line.append(output.as_str());
        },
        RunOutcome::DecodeFailed { detail } => {
            line.append("something went wrong reading the file ");
            line.append(detail.as_str());
        },
        RunOutcome::WriteFailed { detail } => {
            line.append("Error: ");
            line.append(detail.as_str());
        },
    }
    line
}

/// The exit status for an outcome; it is zero if and only if the run
/// saved its output.
pub fn exit_status(o: &RunOutcome) -> (r: i32)
    ensures
        r == spec_exit_status(*o),
        r == 0 <==> o matches RunOutcome::Saved { .. },
{
    match o {
        RunOutcome::Saved { .. } => 0,
        RunOutcome::DecodeFailed { .. } => 1,
        RunOutcome::WriteFailed { .. } => 1,
    }
}

/// A failed run is never reported with the success line: whatever error
/// text a failure carries, its report differs from the report of every
/// successful save.
pub proof fn lemma_failure_report_is_not_success_claim(failed: RunOutcome, saved: RunOutcome)
    requires
        !(failed matches RunOutcome::Saved { .. }),
        saved matches RunOutcome::Saved { .. },
    ensures
        spec_report(failed) != spec_report(saved),
{
    reveal_strlit("Saved blurred (");
    reveal_strlit("something went wrong reading the file ");
    reveal_strlit("Error: ");
    assert(spec_report(saved)[0] == 'S');
    assert(spec_report(failed)[0] != 'S');
}

} // verus!
