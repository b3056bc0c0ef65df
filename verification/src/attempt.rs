use crate::call::{CallOutcome, CallOutcomeView, CallRequest, CallRequestView};
use crate::gate::{decide, gate_decision, resolver_call, resolver_request, Gate};
use crate::invoker::{target_call, target_request};
use crate::task::{DataKey, TaskConfig, TaskConfigView};
use vstd::prelude::*;

verus! {

/// Why an attempt was given up.
#[derive(Clone, Copy, Debug, PartialEq, Eq, Structural)]
pub enum ExecuteError {
    /// No task is registered under the identifier.
    TaskNotFound,
    /// The call to the target did not return.
    InvocationFailed,
    /// An event arrived that does not answer the action last handed out.
    UnexpectedEvent,
}

impl ExecuteError {
    /// The error in words.
    pub open spec fn text(self) -> Seq<char> {
        match self {
            ExecuteError::TaskNotFound => "Task not found"@,
            ExecuteError::InvocationFailed => "Target invocation failed"@,
            ExecuteError::UnexpectedEvent => "Unexpected event"@,
        }
    }

    /// The error in words, for whoever has to report it.
    pub fn message(&self) -> (text: &'static str)
        ensures
            text@ == self.text(),
    {
        match self {
            ExecuteError::TaskNotFound => "Task not found",
            ExecuteError::InvocationFailed => "Target invocation failed",
            ExecuteError::UnexpectedEvent => "Unexpected event",
        }
    }
}

/// Where an attempt stands.
///
/// `Loaded`: the record is read and the resolver has yet to answer.
/// `Gated`: the attempt may proceed and the target has yet to be called.
/// `Invoked`: the target returned and the clock has yet to be read.
/// `Committed`, `Skipped` and `Aborted` are final.
#[derive(Clone, Copy, Debug, PartialEq, Eq, Structural)]
pub enum Phase {
    Loaded,
    Gated,
    Invoked,
    Committed,
    Skipped,
    Aborted(ExecuteError),
}

impl Phase {
    /// Whether the attempt is over.
    pub open spec fn is_final(self) -> bool {
        self is Committed || self is Skipped || self is Aborted
    }

    /// How many events an attempt in this phase can still take before it is
    /// over.
    pub open spec fn steps_left(self) -> nat {
        match self {
            Phase::Loaded => 3,
            Phase::Gated => 2,
            Phase::Invoked => 1,
            _ => 0,
        }
    }
}

/// What the surroundings report back to an attempt.
#[derive(Debug, PartialEq, Eq)]
pub enum Event {
    /// How the call to the resolver ended.
    ResolverReplied(CallOutcome),
    /// The call to the target returned; what it returned is of no interest.
    TargetReturned,
    /// The call to the target did not return.
    TargetFailed,
    /// The current time.
    ClockRead(u64),
}

/// The mathematical content of an [`Event`].
pub enum EventView {
    ResolverReplied(CallOutcomeView),
    TargetReturned,
    TargetFailed,
    ClockRead(u64),
}

impl View for Event {
    type V = EventView;

    open spec fn view(&self) -> EventView {
        match self {
            Event::ResolverReplied(reply) => EventView::ResolverReplied(reply@),
            Event::TargetReturned => EventView::TargetReturned,
            Event::TargetFailed => EventView::TargetFailed,
            Event::ClockRead(now) => EventView::ClockRead(*now),
        }
    }
}

/// What an attempt asks of its surroundings next.
#[derive(Debug, PartialEq, Eq)]
pub enum Action {
    /// Make this call without letting its failure spread, and report how it
    /// ended with `Event::ResolverReplied`.
    AskResolver(CallRequest),
    /// Make this call and report `Event::TargetReturned` or
    /// `Event::TargetFailed`.
    InvokeTarget(CallRequest),
    /// Read the clock and report `Event::ClockRead`.
    ReadClock,
    /// Write this record under this key. The attempt is over.
    Persist(DataKey, TaskConfig),
    /// Nothing is left to do: the attempt is over. One that ends with this
    /// action has written nothing.
    Finish,
    /// Give the whole attempt up and undo whatever was done for it.
    Abort(ExecuteError),
}

/// The mathematical content of an [`Action`].
pub enum ActionView {
    AskResolver(CallRequestView),
    InvokeTarget(CallRequestView),
    ReadClock,
    Persist(DataKey, TaskConfigView),
    Finish,
    Abort(ExecuteError),
}

impl View for Action {
    type V = ActionView;

    open spec fn view(&self) -> ActionView {
        match self {
            Action::AskResolver(request) => ActionView::AskResolver(request@),
            Action::InvokeTarget(request) => ActionView::InvokeTarget(request@),
            Action::ReadClock => ActionView::ReadClock,
            Action::Persist(key, task) => ActionView::Persist(*key, task@),
            Action::Finish => ActionView::Finish,
            Action::Abort(error) => ActionView::Abort(*error),
        }
    }
}

/// One run of a task from the loaded record to its end.
///
/// An attempt only decides. Whoever drives it performs each [`Action`] and
/// hands the matching [`Event`] to [`Attempt::step`], until the action is
/// `Persist`, `Finish` or `Abort`.
#[derive(Debug, PartialEq, Eq)]
pub struct Attempt {
    task_id: u64,
    task: TaskConfig,
    phase: Phase,
}

/// The mathematical content of an [`Attempt`].
pub struct AttemptView {
    pub task_id: u64,
    pub task: TaskConfigView,
    pub phase: Phase,
}

impl AttemptView {
    /// The same attempt in another phase.
    pub open spec fn moved_to(self, phase: Phase) -> AttemptView {
        AttemptView { phase, ..self }
    }
}

impl View for Attempt {
    type V = AttemptView;

    /// The task, the record as the attempt holds it, and the phase.
    closed spec fn view(&self) -> AttemptView {
        AttemptView { task_id: self.task_id, task: self.task@, phase: self.phase }
    }
}

/// How an attempt on the loaded record `task` begins. With a resolver the
/// first thing is to ask it; without one the attempt proceeds to the target
/// at once.
pub open spec fn first_step(task_id: u64, task: TaskConfigView) -> (AttemptView, ActionView) {
    match task.resolver {
        Some(resolver) => (
            AttemptView { task_id, task, phase: Phase::Loaded },
            ActionView::AskResolver(resolver_request(resolver, task.args)),
        ),
        None => (
            AttemptView { task_id, task, phase: Phase::Gated },
            ActionView::InvokeTarget(target_request(task)),
        ),
    }
}

/// The action that an attempt hands out once it is over.
pub open spec fn closing_action(phase: Phase) -> ActionView {
    match phase {
        Phase::Aborted(error) => ActionView::Abort(error),
        _ => ActionView::Finish,
    }
}

/// The transition rule: the next state and the next action for an attempt
/// that receives `event`.
///
/// An attempt that is over stays as it is. One that is under way and gets
/// an event that does not answer its last action is aborted.
pub open spec fn next_step(attempt: AttemptView, event: EventView) -> (AttemptView, ActionView) {
    match (attempt.phase, event) {
        (Phase::Loaded, EventView::ResolverReplied(reply)) => {
            match gate_decision(attempt.task.resolver is Some, reply) {
                Gate::Proceed => (
                    attempt.moved_to(Phase::Gated),
                    ActionView::InvokeTarget(target_request(attempt.task)),
                ),
                Gate::Skip => (attempt.moved_to(Phase::Skipped), ActionView::Finish),
            }
        },
        (Phase::Gated, EventView::TargetReturned) => (
            attempt.moved_to(Phase::Invoked),
            ActionView::ReadClock,
        ),
        (Phase::Gated, EventView::TargetFailed) => (
            attempt.moved_to(Phase::Aborted(ExecuteError::InvocationFailed)),
            ActionView::Abort(ExecuteError::InvocationFailed),
        ),
        (Phase::Invoked, EventView::ClockRead(now)) => (
            AttemptView {
                task_id: attempt.task_id,
                task: attempt.task.with_last_run(now),
                phase: Phase::Committed,
            },
            ActionView::Persist(DataKey::Task(attempt.task_id), attempt.task.with_last_run(now)),
        ),
        _ => if attempt.phase.is_final() {
            (attempt, closing_action(attempt.phase))
        } else {
            (
                attempt.moved_to(Phase::Aborted(ExecuteError::UnexpectedEvent)),
                ActionView::Abort(ExecuteError::UnexpectedEvent),
            )
        },
    }
}

impl Attempt {
    /// Starts an attempt on task `task_id` from what the store holds under
    /// it. Without a record there is no attempt.
    pub fn load(task_id: u64, record: Option<TaskConfig>) -> (started: Result<
        (Attempt, Action),
        ExecuteError,
    >)
        ensures
            record is None ==> started == Err::<(Attempt, Action), ExecuteError>(
                ExecuteError::TaskNotFound,
            ),
            record matches Some(task) ==> started matches Ok(pair) && (pair.0@, pair.1@)
                == first_step(task_id, task@),
    {
        match record {
            None => Err(ExecuteError::TaskNotFound),
            Some(task) => {
                let (phase, action) = match &task.resolver {
                    Some(resolver) => (
                        Phase::Loaded,
                        Action::AskResolver(resolver_call(resolver, &task.args)),
                    ),
                    None => (Phase::Gated, Action::InvokeTarget(target_call(&task))),
                };
                Ok((Attempt { task_id, task, phase }, action))
            },
        }
    }

    /// Takes `event` and says what to do next.
    pub fn step(self, event: Event) -> (next: (Attempt, Action))
        ensures
            (next.0@, next.1@) == next_step(self@, event@),
    {
        let Attempt { task_id, task, phase } = self;
        match (phase, event) {
            (Phase::Loaded, Event::ResolverReplied(reply)) => {
                match decide(task.resolver.is_some(), &reply) {
                    Gate::Proceed => {
                        let action = Action::InvokeTarget(target_call(&task));
                        (Attempt { task_id, task, phase: Phase::Gated }, action)
                    },
                    Gate::Skip => (Attempt { task_id, task, phase: Phase::Skipped }, Action::Finish),
                }
            },
            (Phase::Gated, Event::TargetReturned) => (
                Attempt { task_id, task, phase: Phase::Invoked },
                Action::ReadClock,
            ),
            (Phase::Gated, Event::TargetFailed) => (
                Attempt { task_id, task, phase: Phase::Aborted(ExecuteError::InvocationFailed) },
                Action::Abort(ExecuteError::InvocationFailed),
            ),
            (Phase::Invoked, Event::ClockRead(now)) => {
                let marked = task.mark_run(now);
                let action = Action::Persist(DataKey::Task(task_id), marked.clone());
                (Attempt { task_id, task: marked, phase: Phase::Committed }, action)
            },
            (Phase::Committed, _) => (Attempt { task_id, task, phase }, Action::Finish),
            (Phase::Skipped, _) => (Attempt { task_id, task, phase }, Action::Finish),
            (Phase::Aborted(error), _) => (Attempt { task_id, task, phase }, Action::Abort(error)),
            _ => (
                Attempt { task_id, task, phase: Phase::Aborted(ExecuteError::UnexpectedEvent) },
                Action::Abort(ExecuteError::UnexpectedEvent),
            ),
        }
    }

    /// The task that the attempt is about.
    pub fn task_id(&self) -> (id: u64)
        ensures
            id == self@.task_id,
    {
        self.task_id
    }

    /// The record as the attempt holds it.
    pub fn task(&self) -> (task: &TaskConfig)
        ensures
            task@ == self@.task,
    {
        &self.task
    }

    /// Where the attempt stands.
    pub fn phase(&self) -> (phase: Phase)
        ensures
            phase == self@.phase,
    {
        self.phase
    }
}

} // verus!
