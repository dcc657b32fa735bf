//! Decisions of the admin command-line tool.
use vstd::prelude::*;

verus! {

/// What the tool does with a requested admin action.
#[derive(Clone, Copy, Debug, PartialEq, Eq, Structural)]
pub enum ReportOutcome {
    /// Describe the action without sending anything.
    DryRun,
    /// Refuse: building and signing the transaction is not supported.
    SubmitNotImplemented,
}

/// A submission is refused (it is not supported); otherwise the action is a dry run.
pub fn report_outcome(submit: bool) -> (r: ReportOutcome)
    ensures
        r == if submit { ReportOutcome::SubmitNotImplemented } else { ReportOutcome::DryRun },
{
    if submit {
        ReportOutcome::SubmitNotImplemented
    } else {
        ReportOutcome::DryRun
    }
}

} // verus!
