//! Termination of a process by its name.

use vstd::prelude::*;
use super::{Action, Effect, EffectView, Feedback, Report, Step, StepView};

verus! {

/// The action `kill_process`: one request to terminate the processes that
/// go by the target's name.
#[derive(Debug, Clone, Copy, PartialEq, Eq, Structural)]
pub struct KillProcess;

impl Action for KillProcess {
    open spec fn label(&self) -> Seq<char> {
        "kill_process"@
    }

    open spec fn next_step(&self, target: Seq<char>, feedback: Feedback) -> StepView {
        match feedback {
            Feedback::Start => StepView::Perform(EffectView::TerminateProcess { name: target }),
            Feedback::ProcessExit(true) => StepView::Finish(Report::Terminated),
            Feedback::ProcessExit(false) => StepView::Finish(Report::NotTerminated),
            _ => StepView::Finish(Report::Unexpected),
        }
    }

    fn name(&self) -> (name: &'static str) {
        "kill_process"
    }

    fn execute(&self, target: &str, feedback: Feedback) -> (step: Step) {
        match feedback {
            Feedback::Start => Step::Perform(Effect::TerminateProcess { name: target.to_owned() }),
            Feedback::ProcessExit(true) => Step::Finish(Report::Terminated),
            Feedback::ProcessExit(false) => Step::Finish(Report::NotTerminated),
            _ => Step::Finish(Report::Unexpected),
        }
    }
}

} // verus!
