use crate::attempt::{Action, ActionView, Attempt, AttemptView, Event, ExecuteError, Phase};
use crate::call::CallRequestView;
use crate::environment::{Environment, EnvironmentView};
use crate::gate::{gate_decision, resolver_request, Gate};
use crate::invoker::target_request;
use crate::store::TaskStore;
use crate::task::{DataKey, TaskConfig, TaskConfigView};
use crate::value::Value;
use vstd::prelude::*;

verus! {

/// What a resolver offers: one condition check, which gets a task's whole
/// argument list as its single argument.
pub trait ResolverInterface {
    /// Whether a run with these arguments is due.
    fn check_condition(&self, args: Vec<Value>) -> bool;
}

/// How an attempt that was not given up ended.
#[derive(Clone, Copy, Debug, PartialEq, Eq, Structural)]
pub enum Outcome {
    /// The target was called and returned, and the run is recorded.
    Executed,
    /// The resolver gate was closed: the target was not called and nothing
    /// was written.
    Skipped,
}

/// The store after `config` is registered under `task_id`: the record takes
/// the place of any earlier one, and no other record is touched.
pub open spec fn registered(
    store: Map<u64, TaskConfigView>,
    task_id: u64,
    config: TaskConfigView,
) -> Map<u64, TaskConfigView> {
    store.insert(task_id, config)
}

/// What a lookup of `task_id` finds.
pub open spec fn lookup(store: Map<u64, TaskConfigView>, task_id: u64) -> Option<TaskConfigView> {
    if store.contains_key(task_id) {
        Some(store[task_id])
    } else {
        None
    }
}

/// Whether an attempt on the record `task` gets past the resolver gate in
/// `env`.
pub open spec fn proceeds(task: TaskConfigView, env: EnvironmentView) -> bool {
    gate_decision(task.resolver is Some, env.resolver_reply) == Gate::Proceed
}

/// What an attempt on task `task_id` comes to in `env`.
pub open spec fn execute_result(
    store: Map<u64, TaskConfigView>,
    task_id: u64,
    env: EnvironmentView,
) -> Result<Outcome, ExecuteError> {
    if !store.contains_key(task_id) {
        Err(ExecuteError::TaskNotFound)
    } else if !proceeds(store[task_id], env) {
        Ok(Outcome::Skipped)
    } else if !env.target_succeeds {
        Err(ExecuteError::InvocationFailed)
    } else {
        Ok(Outcome::Executed)
    }
}

/// The store after an attempt on task `task_id` in `env`: a run that was
/// executed is recorded in the task's `last_run`, and nothing else is ever
/// written.
pub open spec fn execute_store(
    store: Map<u64, TaskConfigView>,
    task_id: u64,
    env: EnvironmentView,
) -> Map<u64, TaskConfigView> {
    if execute_result(store, task_id, env) == Ok::<Outcome, ExecuteError>(Outcome::Executed) {
        store.insert(task_id, store[task_id].with_last_run(env.now))
    } else {
        store
    }
}

/// The calls that an attempt on task `task_id` has made in `env`, in order:
/// the resolver's condition check where the task has a resolver, then the
/// call to the target where the attempt got past the resolver gate.
pub open spec fn execute_calls(
    store: Map<u64, TaskConfigView>,
    task_id: u64,
    env: EnvironmentView,
) -> Seq<CallRequestView> {
    if !store.contains_key(task_id) {
        Seq::empty()
    } else {
        let task = store[task_id];
        let asked = match task.resolver {
            Some(resolver) => seq![resolver_request(resolver, task.args)],
            None => Seq::empty(),
        };
        if proceeds(task, env) {
            asked.push(target_request(task))
        } else {
            asked
        }
    }
}

/// The engine's entry points, each on the store that it is handed.
pub struct SoroTaskContract;

impl SoroTaskContract {
    /// Registers `config` under `task_id`, in place of any earlier record.
    pub fn register(store: &mut TaskStore, task_id: u64, config: TaskConfig)
        ensures
            final(store)@ == registered(old(store)@, task_id, config@),
    {
        store.put(DataKey::Task(task_id), config);
    }

    /// The record registered under `task_id`, if there is one.
    pub fn get_task(store: &TaskStore, task_id: u64) -> (found: Option<TaskConfig>)
        ensures
            match found {
                Some(task) => lookup(store@, task_id) == Some(task@),
                None => lookup(store@, task_id) is None,
            },
    {
        match store.get(&DataKey::Task(task_id)) {
            Some(task) => Some(task.clone()),
            None => None,
        }
    }

    /// Reserved. Does nothing.
    pub fn monitor(store: &mut TaskStore)
        ensures
            *final(store) == *old(store),
    {
    }

    /// Runs one attempt on task `task_id` to its end, with `env` standing
    /// for the surroundings: an [`Attempt`] is loaded from the store and
    /// driven step by step, and `env` records each call that it asks for and
    /// answers from its script. The record is written only at the very end,
    /// and only for a run that was executed.
    pub fn execute(store: &mut TaskStore, task_id: u64, env: &mut Environment) -> (result: Result<
        Outcome,
        ExecuteError,
    >)
        ensures
            result == execute_result(old(store)@, task_id, old(env)@),
            final(store)@ == execute_store(old(store)@, task_id, old(env)@),
            result != Ok::<Outcome, ExecuteError>(Outcome::Executed) ==> *final(store) == *old(
                store,
            ),
            final(env)@ == old(env)@.after_calls(execute_calls(old(store)@, task_id, old(env)@)),
    {
        let record = Self::get_task(store, task_id);
        let (mut attempt, mut action) = match Attempt::load(task_id, record) {
            Ok(started) => started,
            Err(error) => {
                return Err(error);
            },
        };
        loop
            invariant
                *store == *old(store),
                store@.contains_key(task_id),
                on_course(attempt@, action@, store@[task_id], task_id, old(env)@, env@),
            ensures
                *store == *old(store),
                store@.contains_key(task_id),
                on_course(attempt@, action@, store@[task_id], task_id, old(env)@, env@),
                attempt@.phase.is_final(),
            decreases attempt@.phase.steps_left(),
        {
            let event = match action {
                Action::AskResolver(request) => {
                    env.record(request);
                    Event::ResolverReplied(env.resolver_reply.clone())
                },
                Action::InvokeTarget(request) => {
                    env.record(request);
                    if env.target_succeeds {
                        Event::TargetReturned
                    } else {
                        Event::TargetFailed
                    }
                },
                Action::ReadClock => Event::ClockRead(env.now),
                _ => {
                    break ;
                },
            };
            let (next_attempt, next_action) = attempt.step(event);
            attempt = next_attempt;
            action = next_action;
            assert(env@.calls =~= old(env)@.calls + calls_so_far(
                attempt@.phase,
                store@[task_id],
            ));
        }
        match action {
            Action::Persist(key, task) => {
                store.put(key, task);
                Ok(Outcome::Executed)
            },
            Action::Abort(error) => Err(error),
            _ => Ok(Outcome::Skipped),
        }
    }
}

/// The calls that an attempt on the record `task` has asked for by the time
/// it is in `phase`.
spec fn calls_so_far(phase: Phase, task: TaskConfigView) -> Seq<CallRequestView> {
    let asked = match task.resolver {
        Some(resolver) => seq![resolver_request(resolver, task.args)],
        None => Seq::empty(),
    };
    match phase {
        Phase::Loaded => Seq::empty(),
        Phase::Gated | Phase::Skipped => asked,
        _ => asked.push(target_request(task)),
    }
}

/// What holds of an attempt on the record `task`, of the action that it
/// handed out last and of the calls on record, as long as each action is
/// answered from the script `script`.
spec fn on_course(
    attempt: AttemptView,
    action: ActionView,
    task: TaskConfigView,
    task_id: u64,
    script: EnvironmentView,
    env: EnvironmentView,
) -> bool {
    &&& attempt.task_id == task_id
    &&& env.resolver_reply == script.resolver_reply
    &&& env.target_succeeds == script.target_succeeds
    &&& env.now == script.now
    &&& env.calls == script.calls + calls_so_far(attempt.phase, task)
    &&& match attempt.phase {
        Phase::Loaded => {
            &&& attempt.task == task
            &&& task.resolver is Some
            &&& action == ActionView::AskResolver(resolver_request(task.resolver->0, task.args))
        },
        Phase::Gated => {
            &&& attempt.task == task
            &&& proceeds(task, script)
            &&& action == ActionView::InvokeTarget(target_request(task))
        },
        Phase::Invoked => {
            &&& attempt.task == task
            &&& proceeds(task, script)
            &&& script.target_succeeds
            &&& action is ReadClock
        },
        Phase::Committed => {
            &&& proceeds(task, script)
            &&& script.target_succeeds
            &&& action == ActionView::Persist(DataKey::Task(task_id), task.with_last_run(script.now))
        },
        Phase::Skipped => {
            &&& !proceeds(task, script)
            &&& action is Finish
        },
        Phase::Aborted(error) => {
            &&& proceeds(task, script)
            &&& !script.target_succeeds
            &&& error == ExecuteError::InvocationFailed
            &&& action == ActionView::Abort(error)
        },
    }
}

} // verus!
