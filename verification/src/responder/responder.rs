//! Polling for commands, and their dispatch through the registry.

use vstd::prelude::*;
use vstd::string::StringExecFns;
use super::actions::kill_process::KillProcess;
use super::actions::quarantine_file::QuarantineFile;
use super::actions::{
    lemma_builtin_labels_differ, Action, ActionRegistry, BuiltinAction, EffectView, Feedback, Step,
    StepView,
};
use super::Command;
use crate::config::Settings;

verus! {

/// Seconds between two polls for commands.
pub const POLL_INTERVAL_SECS: u64 = 30;

/// The address that the commands for an agent are fetched from.
pub open spec fn commands_address(server_url: Seq<char>, agent_id: Seq<char>) -> Seq<char> {
    server_url + "/commands/"@ + agent_id
}

/// The commands to run after a poll: those that the collector sent, in its
/// order; none where the poll failed or its answer could not be read.
pub open spec fn batch_of(response: Option<Vec<Command>>) -> Seq<Command> {
    match response {
        Some(commands) => commands@,
        None => Seq::empty(),
    }
}

/// The step that a command leads to: the step of the action that goes by
/// the command's action name, run against the command's target. A name that
/// the registry does not hold leads to no step at all.
pub open spec fn dispatch(
    registry: Map<Seq<char>, BuiltinAction>,
    action: Seq<char>,
    target: Seq<char>,
    feedback: Feedback,
) -> Option<StepView> {
    if registry.contains_key(action) {
        Some(registry[action].next_step(target, feedback))
    } else {
        None
    }
}

/// The built-in actions by name: what `get_action_registry` holds.
pub open spec fn builtin_actions() -> Map<Seq<char>, BuiltinAction> {
    map![
        "kill_process"@ => BuiltinAction::KillProcess(KillProcess),
        "quarantine_file"@ => BuiltinAction::QuarantineFile(QuarantineFile),
    ]
}

/// An optional step as plain values.
pub open spec fn step_view(step: Option<Step>) -> Option<StepView> {
    match step {
        Some(step) => Some(step@),
        None => None,
    }
}

/// The address that the commands for this agent are fetched from.
pub fn commands_url(settings: &Settings) -> (url: String)
    ensures
        url@ == commands_address(settings.server.url@, settings.agent_id@),
{
    let mut url = settings.server.url.clone();
    url.append("/commands/");
    url.append(settings.agent_id.as_str());
    url
}

/// The commands to run after one poll, in the order in which they are run.
///
/// `response` is the list of commands that the poll brought, or `None`
/// where the request failed or its answer was not such a list: then there is
/// nothing to run until the next poll.
pub fn check_for_commands(response: Option<Vec<Command>>) -> (batch: Vec<Command>)
    ensures
        batch@ == batch_of(response),
{
    match response {
        Some(commands) => commands,
        None => Vec::new(),
    }
}

/// Takes a command one step further.
///
/// The command's action name is looked up in the registry. Where it is not
/// there, the result is `None`: the command is dropped, and no action is
/// run. Otherwise the result is the next step of that action against the
/// command's target; `feedback` is `Feedback::Start` for a command that has
/// not been run yet, and after that what the last effect came to.
pub fn execute_command(cmd: &Command, registry: &ActionRegistry, feedback: Feedback) -> (step:
    Option<Step>)
    ensures
        step_view(step) == dispatch(registry@, cmd.action@, cmd.target@, feedback),
{
    match registry.get(cmd.action.as_str()) {
        Some(action) => Some(action.execute(cmd.target.as_str(), feedback)),
        None => None,
    }
}

/// A command whose action name is not registered runs no action, whatever
/// the feedback: no effect is asked for.
pub proof fn lemma_unknown_action_runs_nothing(
    registry: Map<Seq<char>, BuiltinAction>,
    action: Seq<char>,
    target: Seq<char>,
    feedback: Feedback,
)
    requires
        !registry.contains_key(action),
    ensures
        dispatch(registry, action, target, feedback) is None,
{
}

/// A command runs the action that it names and no other: with the built-in
/// actions, `kill_process` asks for a termination of the target and never
/// for anything on a file, and `quarantine_file` never asks for a
/// termination. Any other name runs nothing.
pub proof fn lemma_dispatch_by_name(action: Seq<char>, target: Seq<char>, feedback: Feedback)
    ensures
        dispatch(builtin_actions(), "kill_process"@, target, Feedback::Start) == Some(
            StepView::Perform(EffectView::TerminateProcess { name: target }),
        ),
        dispatch(builtin_actions(), "kill_process"@, target, feedback) matches Some(
            StepView::Perform(effect),
        ) ==> effect is TerminateProcess,
        dispatch(builtin_actions(), "quarantine_file"@, target, Feedback::Start) == Some(
            StepView::Perform(EffectView::ProbeFile { path: target }),
        ),
        dispatch(builtin_actions(), "quarantine_file"@, target, feedback) matches Some(
            StepView::Perform(effect),
        ) ==> !(effect is TerminateProcess),
        action != "kill_process"@ && action != "quarantine_file"@ ==> dispatch(
            builtin_actions(),
            action,
            target,
            feedback,
        ) is None,
{
    lemma_builtin_labels_differ();
}

} // verus!
