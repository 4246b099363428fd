//! Quarantine of a file: it stays where it is, out of reach of every user.

use vstd::prelude::*;
use super::{Action, Effect, EffectView, Feedback, Report, Step, StepView};

verus! {

/// The permission bits of a quarantined file: no access for owner, group
/// or others.
pub const NO_ACCESS: u32 = 0o000;

/// The action `quarantine_file`: the target is looked for, and where it is
/// there its permission bits are cleared. A file that is not there is left
/// alone.
#[derive(Debug, Clone, Copy, PartialEq, Eq, Structural)]
pub struct QuarantineFile;

impl Action for QuarantineFile {
    open spec fn label(&self) -> Seq<char> {
        "quarantine_file"@
    }

    open spec fn next_step(&self, target: Seq<char>, feedback: Feedback) -> StepView {
        match feedback {
            Feedback::Start => StepView::Perform(EffectView::ProbeFile { path: target }),
            Feedback::FileProbed(true) => StepView::Perform(
                EffectView::SetPermissions { path: target, mode: NO_ACCESS },
            ),
            Feedback::FileProbed(false) => StepView::Finish(Report::FileNotFound),
            Feedback::PermissionsSet(true) => StepView::Finish(Report::Quarantined),
            Feedback::PermissionsSet(false) => StepView::Finish(Report::PermissionsUnchanged),
            _ => StepView::Finish(Report::Unexpected),
        }
    }

    fn name(&self) -> (name: &'static str) {
        "quarantine_file"
    }

    fn execute(&self, target: &str, feedback: Feedback) -> (step: Step) {
        match feedback {
            Feedback::Start => Step::Perform(Effect::ProbeFile { path: target.to_owned() }),
            Feedback::FileProbed(true) => Step::Perform(
                Effect::SetPermissions { path: target.to_owned(), mode: NO_ACCESS },
            ),
            Feedback::FileProbed(false) => Step::Finish(Report::FileNotFound),
            Feedback::PermissionsSet(true) => Step::Finish(Report::Quarantined),
            Feedback::PermissionsSet(false) => Step::Finish(Report::PermissionsUnchanged),
            _ => Step::Finish(Report::Unexpected),
        }
    }
}

} // verus!
