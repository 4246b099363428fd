//! The response actions, and the registry that finds one by its name.
//!
//! An action does not touch the system itself. It is run step by step: each
//! call of `execute` answers with the next effect to perform on the system,
//! or with the report that ends the run, given what the last effect came to.

pub mod kill_process;
pub mod quarantine_file;

use vstd::prelude::*;
use crate::processor::text::same_text;
use kill_process::KillProcess;
use quarantine_file::QuarantineFile;

verus! {

/// Something to do on the system.
#[derive(Debug, Clone, PartialEq, Eq)]
pub enum Effect {
    /// Ask the platform to terminate the processes of this name.
    TerminateProcess { name: String },
    /// Find out whether a file is there.
    ProbeFile { path: String },
    /// Set a file's permission bits.
    SetPermissions { path: String, mode: u32 },
}

/// An `Effect` as plain values.
pub ghost enum EffectView {
    TerminateProcess { name: Seq<char> },
    ProbeFile { path: Seq<char> },
    SetPermissions { path: Seq<char>, mode: u32 },
}

impl View for Effect {
    type V = EffectView;

    open spec fn view(&self) -> EffectView {
        match self {
            Effect::TerminateProcess { name } => EffectView::TerminateProcess { name: name@ },
            Effect::ProbeFile { path } => EffectView::ProbeFile { path: path@ },
            Effect::SetPermissions { path, mode } => EffectView::SetPermissions {
                path: path@,
                mode: *mode,
            },
        }
    }
}

/// What the last effect of a run came to.
#[derive(Debug, Clone, Copy, PartialEq, Eq, Structural)]
pub enum Feedback {
    /// Nothing yet: the run starts.
    Start,
    /// The termination request was made, and succeeded or not.
    ProcessExit(bool),
    /// The file was looked for, and is there or not.
    FileProbed(bool),
    /// The permission bits were set, or could not be.
    PermissionsSet(bool),
}

/// How a run ended. It is reported locally, and to nobody else.
#[derive(Debug, Clone, Copy, PartialEq, Eq, Structural)]
pub enum Report {
    /// The process was terminated.
    Terminated,
    /// The process was not found, or could not be terminated.
    NotTerminated,
    /// The file is out of reach of every user.
    Quarantined,
    /// The file is there, but its permission bits could not be set.
    PermissionsUnchanged,
    /// There is no such file; nothing was done.
    FileNotFound,
    /// The feedback does not belong to this action; nothing was done.
    Unexpected,
}

/// The next step of a run.
#[derive(Debug, Clone, PartialEq, Eq)]
pub enum Step {
    /// Perform this effect, and come back with what it came to.
    Perform(Effect),
    /// The run is over.
    Finish(Report),
}

/// A `Step` as plain values.
pub ghost enum StepView {
    Perform(EffectView),
    Finish(Report),
}

impl View for Step {
    type V = StepView;

    open spec fn view(&self) -> StepView {
        match self {
            Step::Perform(effect) => StepView::Perform(effect@),
            Step::Finish(report) => StepView::Finish(*report),
        }
    }
}

/// A response action: a name, and a run against a target.
pub trait Action {
    /// The name that commands call the action by.
    spec fn label(&self) -> Seq<char>;

    /// The step that follows `feedback` in a run against `target`.
    spec fn next_step(&self, target: Seq<char>, feedback: Feedback) -> StepView;

    /// The name that commands call the action by.
    fn name(&self) -> (name: &'static str)
        ensures
            name@ == self.label(),
    ;

    /// The step that follows `feedback` in a run against `target`. A run
    /// starts with `Feedback::Start`.
    fn execute(&self, target: &str, feedback: Feedback) -> (step: Step)
        ensures
            step@ == self.next_step(target@, feedback),
    ;
}

/// The actions that the agent is built with.
#[derive(Debug, Clone, Copy)]
pub enum BuiltinAction {
    KillProcess(KillProcess),
    QuarantineFile(QuarantineFile),
}

impl Action for BuiltinAction {
    open spec fn label(&self) -> Seq<char> {
        match self {
            BuiltinAction::KillProcess(action) => action.label(),
            BuiltinAction::QuarantineFile(action) => action.label(),
        }
    }

    open spec fn next_step(&self, target: Seq<char>, feedback: Feedback) -> StepView {
        match self {
            BuiltinAction::KillProcess(action) => action.next_step(target, feedback),
            BuiltinAction::QuarantineFile(action) => action.next_step(target, feedback),
        }
    }

    fn name(&self) -> (name: &'static str) {
        match self {
            BuiltinAction::KillProcess(action) => action.name(),
            BuiltinAction::QuarantineFile(action) => action.name(),
        }
    }

    fn execute(&self, target: &str, feedback: Feedback) -> (step: Step) {
        match self {
            BuiltinAction::KillProcess(action) => action.execute(target, feedback),
            BuiltinAction::QuarantineFile(action) => action.execute(target, feedback),
        }
    }
}

/// No two actions of `actions` go by the same name.
pub open spec fn distinct_labels(actions: Seq<BuiltinAction>) -> bool {
    forall|i: int, j: int|
        0 <= i < j < actions.len() ==> (#[trigger] actions[i]).label() != (
        #[trigger] actions[j]).label()
}

/// Some action of `actions` goes by `name`.
pub open spec fn has_label(actions: Seq<BuiltinAction>, name: Seq<char>) -> bool {
    exists|i: int| 0 <= i < actions.len() && (#[trigger] actions[i]).label() == name
}

/// The map from names to actions that a sequence of actions stands for.
pub open spec fn by_label(actions: Seq<BuiltinAction>) -> Map<Seq<char>, BuiltinAction> {
    Map::new(
        |name: Seq<char>| has_label(actions, name),
        |name: Seq<char>|
            actions[choose|i: int| 0 <= i < actions.len() && (#[trigger] actions[i]).label() == name],
    )
}

/// The registry of actions: a map from names to actions that is built once
/// and never changes. Each action stands under its own name.
#[derive(Debug)]
pub struct ActionRegistry {
    actions: Vec<BuiltinAction>,
}

impl View for ActionRegistry {
    type V = Map<Seq<char>, BuiltinAction>;

    closed spec fn view(&self) -> Map<Seq<char>, BuiltinAction> {
        by_label(self.actions@)
    }
}

impl ActionRegistry {
    #[verifier::type_invariant]
    spec fn labels_are_distinct(&self) -> bool {
        distinct_labels(self.actions@)
    }

    /// The action that goes by `name`, if there is one.
    pub fn get(&self, name: &str) -> (found: Option<&BuiltinAction>)
        ensures
            match found {
                Some(action) => self@.contains_key(name@) && self@[name@] == *action
                    && action.label() == name@,
                None => !self@.contains_key(name@),
            },
    {
        proof {
            use_type_invariant(self);
        }
        let mut i: usize = 0;
        while i < self.actions.len()
            invariant
                i <= self.actions@.len(),
                distinct_labels(self.actions@),
                forall|j: int| 0 <= j < i ==> (#[trigger] self.actions@[j]).label() != name@,
            decreases self.actions@.len() - i,
        {
            if same_text(self.actions[i].name(), name) {
                proof {
                    assert(has_label(self.actions@, name@));
                    let at = choose|j: int|
                        0 <= j < self.actions@.len() && (#[trigger] self.actions@[j]).label()
                            == name@;
                    if at < i {
                        assert(self.actions@[at].label() != self.actions@[i as int].label());
                    } else if i < at {
                        assert(self.actions@[i as int].label() != self.actions@[at].label());
                    }
                }
                return Some(&self.actions[i]);
            }
            i += 1;
        }
        None
    }

    /// Every action stands under its own name.
    pub proof fn lemma_labels(&self, name: Seq<char>)
        requires
            self@.contains_key(name),
        ensures
            self@[name].label() == name,
    {
    }
}

/// Whether `feedback` is an answer to `effect`: it tells what that kind of
/// effect came to.
pub open spec fn answers(feedback: Feedback, effect: EffectView) -> bool {
    match effect {
        EffectView::TerminateProcess { .. } => feedback is ProcessExit,
        EffectView::ProbeFile { .. } => feedback is FileProbed,
        EffectView::SetPermissions { .. } => feedback is PermissionsSet,
    }
}

/// Every run of a built-in action ends after two effects at most. A run
/// starts with an effect. Whatever comes back then ends the run, or leads to
/// one more effect, and the answer to that one ends the run.
pub proof fn lemma_runs_end(
    action: BuiltinAction,
    target: Seq<char>,
    first: Feedback,
    second: Feedback,
)
    requires
        !(first is Start),
    ensures
        action.next_step(target, Feedback::Start) is Perform,
        action.next_step(target, first) matches StepView::Perform(more) ==> (answers(second, more)
            ==> action.next_step(target, second) is Finish),
{
}

/// The names of the built-in actions differ.
pub proof fn lemma_builtin_labels_differ()
    ensures
        "kill_process"@ != "quarantine_file"@,
{
    reveal_strlit("kill_process");
    reveal_strlit("quarantine_file");
    assert("kill_process"@.len() == 12);
    assert("quarantine_file"@.len() == 15);
}

/// The registry of the built-in actions: `kill_process` and
/// `quarantine_file`, each under its name, and nothing else.
pub fn get_action_registry() -> (registry: ActionRegistry)
    ensures
        registry@ == map![
            "kill_process"@ => BuiltinAction::KillProcess(KillProcess),
            "quarantine_file"@ => BuiltinAction::QuarantineFile(QuarantineFile),
        ],
        registry@.dom() == set!["kill_process"@, "quarantine_file"@],
        registry@["kill_process"@] == BuiltinAction::KillProcess(KillProcess),
        registry@["quarantine_file"@] == BuiltinAction::QuarantineFile(QuarantineFile),
{
    let mut actions: Vec<BuiltinAction> = Vec::new();
    actions.push(BuiltinAction::KillProcess(KillProcess));
    actions.push(BuiltinAction::QuarantineFile(QuarantineFile));
    proof {
        lemma_builtin_labels_differ();
        assert(actions@[0].label() == "kill_process"@);
        assert(actions@[1].label() == "quarantine_file"@);
    }
    let registry = ActionRegistry { actions };
    proof {
        assert(has_label(registry.actions@, "kill_process"@));
        assert(has_label(registry.actions@, "quarantine_file"@));
        assert(registry@ =~= map![
            "kill_process"@ => BuiltinAction::KillProcess(KillProcess),
            "quarantine_file"@ => BuiltinAction::QuarantineFile(QuarantineFile),
        ]);
        assert(registry@.dom() =~= set!["kill_process"@, "quarantine_file"@]);
    }
    registry
}

} // verus!
