use crate::attempt::{first_step, next_step, ActionView, AttemptView, EventView, ExecuteError, Phase};
use crate::call::CallOutcomeView;
use crate::call::CallRequestView;
use crate::contract::{
    execute_calls, execute_result, execute_store, lookup, proceeds, registered, Outcome,
};
use crate::environment::EnvironmentView;
use crate::gate::{gate_decision, resolver_request, Gate};
use crate::invoker::target_request;
use crate::task::{DataKey, TaskConfigView};
use crate::value::ValueView;
use vstd::prelude::*;

verus! {

/// A lookup finds exactly the record that was registered last under the
/// identifier: an earlier record leaves no trace in it, and the records of
/// other identifiers stay as they were.
pub proof fn lemma_lookup_finds_last_registered(
    store: Map<u64, TaskConfigView>,
    task_id: u64,
    earlier: TaskConfigView,
    config: TaskConfigView,
    other: u64,
)
    ensures
        lookup(registered(store, task_id, config), task_id) == Some(config),
        registered(registered(store, task_id, earlier), task_id, config) == registered(
            store,
            task_id,
            config,
        ),
        other != task_id ==> lookup(registered(store, task_id, config), other) == lookup(
            store,
            other,
        ),
{
}

/// An attempt on an identifier without a record fails: the store stays as
/// it was and no call is made.
pub proof fn lemma_unregistered_task_fails(
    store: Map<u64, TaskConfigView>,
    task_id: u64,
    env: EnvironmentView,
)
    requires
        !store.contains_key(task_id),
    ensures
        execute_result(store, task_id, env) == Err::<Outcome, ExecuteError>(
            ExecuteError::TaskNotFound,
        ),
        execute_store(store, task_id, env) == store,
        execute_calls(store, task_id, env) == Seq::<CallRequestView>::empty(),
{
}

/// Without a resolver every attempt goes to the target: the first action is
/// the call to the target with the stored arguments, that call is the only
/// one made, and the attempt ends executed or failed, never skipped.
pub proof fn lemma_no_resolver_reaches_target(
    store: Map<u64, TaskConfigView>,
    task_id: u64,
    env: EnvironmentView,
)
    requires
        store.contains_key(task_id),
        store[task_id].resolver is None,
    ensures
        first_step(task_id, store[task_id]).1 == ActionView::InvokeTarget(
            target_request(store[task_id]),
        ),
        execute_calls(store, task_id, env) == seq![target_request(store[task_id])],
        execute_result(store, task_id, env) == if env.target_succeeds {
            Ok::<Outcome, ExecuteError>(Outcome::Executed)
        } else {
            Err::<Outcome, ExecuteError>(ExecuteError::InvocationFailed)
        },
{
}

/// With a resolver the attempt first asks it, handing over the whole
/// argument list as one argument. On the reply `true` the next action is
/// the call to the target, and the attempt ends executed or failed. On any
/// other reply, and on a call that failed, the attempt is over: it is
/// skipped, the target is not called, and the store stays as it was.
pub proof fn lemma_resolver_decides(
    store: Map<u64, TaskConfigView>,
    task_id: u64,
    env: EnvironmentView,
)
    requires
        store.contains_key(task_id),
        store[task_id].resolver is Some,
    ensures
        ({
            let task = store[task_id];
            let (loaded, asked) = first_step(task_id, task);
            let (gated, told) = next_step(loaded, EventView::ResolverReplied(env.resolver_reply));
            let question = resolver_request(task.resolver->0, task.args);
            &&& loaded.phase == Phase::Loaded
            &&& asked == ActionView::AskResolver(question)
            &&& question.args == seq![ValueView::List(task.args)]
            &&& if env.resolver_reply == CallOutcomeView::Returned(ValueView::Bool(true)) {
                &&& gated.phase == Phase::Gated
                &&& told == ActionView::InvokeTarget(target_request(task))
                &&& execute_calls(store, task_id, env) == seq![question, target_request(task)]
                &&& execute_result(store, task_id, env) == if env.target_succeeds {
                    Ok::<Outcome, ExecuteError>(Outcome::Executed)
                } else {
                    Err::<Outcome, ExecuteError>(ExecuteError::InvocationFailed)
                }
            } else {
                &&& gated.phase == Phase::Skipped
                &&& told == ActionView::Finish
                &&& execute_result(store, task_id, env) == Ok::<Outcome, ExecuteError>(
                    Outcome::Skipped,
                )
                &&& execute_calls(store, task_id, env) == seq![question]
                &&& execute_store(store, task_id, env) == store
            }
        }),
{
}

/// When the call to the target fails, the store stays as it was: the
/// task's record is the same as before, `last_run` included.
pub proof fn lemma_failed_invocation_writes_nothing(
    store: Map<u64, TaskConfigView>,
    task_id: u64,
    env: EnvironmentView,
)
    requires
        execute_result(store, task_id, env) == Err::<Outcome, ExecuteError>(
            ExecuteError::InvocationFailed,
        ),
    ensures
        execute_store(store, task_id, env) == store,
{
}

/// When the call to the target returns, the task's `last_run` is the time
/// that the clock showed, every other field of its record is as before, and
/// so is every other record.
pub proof fn lemma_executed_run_is_recorded(
    store: Map<u64, TaskConfigView>,
    task_id: u64,
    env: EnvironmentView,
)
    requires
        execute_result(store, task_id, env) == Ok::<Outcome, ExecuteError>(Outcome::Executed),
    ensures
        ({
            let before = store[task_id];
            let after = execute_store(store, task_id, env)[task_id];
            &&& store.contains_key(task_id)
            &&& execute_store(store, task_id, env).contains_key(task_id)
            &&& after.last_run == env.now
            &&& after.creator == before.creator
            &&& after.target == before.target
            &&& after.function == before.function
            &&& after.args == before.args
            &&& after.resolver == before.resolver
            &&& after.interval == before.interval
            &&& after.gas_balance == before.gas_balance
            &&& execute_store(store, task_id, env).remove(task_id) == store.remove(task_id)
        }),
{
}

/// Two attempts in a row that both find the resolver gate closed leave the
/// store as it was: each is skipped and writes nothing.
pub proof fn lemma_closed_gate_twice_is_no_op(
    store: Map<u64, TaskConfigView>,
    task_id: u64,
    first: EnvironmentView,
    second: EnvironmentView,
)
    requires
        store.contains_key(task_id),
        !proceeds(store[task_id], first),
        !proceeds(store[task_id], second),
    ensures
        execute_result(store, task_id, first) == Ok::<Outcome, ExecuteError>(Outcome::Skipped),
        execute_store(store, task_id, first) == store,
        execute_result(execute_store(store, task_id, first), task_id, second) == Ok::<
            Outcome,
            ExecuteError,
        >(Outcome::Skipped),
        execute_store(execute_store(store, task_id, first), task_id, second) == store,
{
}

/// An attempt neither adds a record nor removes one, and it leaves the
/// records of all other tasks as they were.
pub proof fn lemma_attempt_keeps_the_records(
    store: Map<u64, TaskConfigView>,
    task_id: u64,
    env: EnvironmentView,
    other: u64,
)
    ensures
        execute_store(store, task_id, env).dom() == store.dom(),
        other != task_id ==> lookup(execute_store(store, task_id, env), other) == lookup(
            store,
            other,
        ),
{
}

/// An attempt changes `last_run` only by recording an executed run, so
/// under a clock that is not behind the record `last_run` never goes back.
pub proof fn lemma_last_run_never_goes_back(
    store: Map<u64, TaskConfigView>,
    task_id: u64,
    env: EnvironmentView,
)
    requires
        store.contains_key(task_id),
        store[task_id].last_run <= env.now,
    ensures
        execute_store(store, task_id, env).contains_key(task_id),
        store[task_id].last_run <= execute_store(store, task_id, env)[task_id].last_run,
        execute_store(store, task_id, env)[task_id].last_run != store[task_id].last_run
            ==> execute_result(store, task_id, env) == Ok::<Outcome, ExecuteError>(
            Outcome::Executed,
        ),
{
}

/// An attempt that is under way is closer to its end after every event,
/// whatever the event: no attempt takes more than three.
pub proof fn lemma_every_event_brings_the_end_closer(attempt: AttemptView, event: EventView)
    requires
        !attempt.phase.is_final(),
    ensures
        next_step(attempt, event).0.phase.steps_left() < attempt.phase.steps_left() <= 3,
        next_step(attempt, event).0.task_id == attempt.task_id,
{
}

/// The call to the target is handed out only past the resolver gate: at
/// the start, for a task without resolver, or in answer to the resolver's
/// reply, where the rule of the resolver gate says to proceed. Either way it
/// is the task's own call, with the stored arguments as they are.
pub proof fn lemma_target_call_follows_open_gate(
    task_id: u64,
    task: TaskConfigView,
    attempt: AttemptView,
    event: EventView,
)
    ensures
        first_step(task_id, task).1 is InvokeTarget ==> {
            &&& task.resolver is None
            &&& first_step(task_id, task).1 == ActionView::InvokeTarget(target_request(task))
        },
        next_step(attempt, event).1 is InvokeTarget ==> {
            &&& attempt.phase == Phase::Loaded
            &&& event is ResolverReplied
            &&& gate_decision(attempt.task.resolver is Some, event->ResolverReplied_0)
                == Gate::Proceed
            &&& next_step(attempt, event).1 == ActionView::InvokeTarget(
                target_request(attempt.task),
            )
        },
{
}

/// A write is handed out only in answer to the clock, by an attempt whose
/// call to the target has returned; and an attempt gets there only from
/// `Gated`, on the report that the target returned. The record to write is
/// the one the attempt holds, with `last_run` set to the time read.
pub proof fn lemma_write_follows_invocation(attempt: AttemptView, event: EventView)
    ensures
        next_step(attempt, event).1 is Persist ==> {
            &&& attempt.phase == Phase::Invoked
            &&& event is ClockRead
            &&& next_step(attempt, event).1 == ActionView::Persist(
                DataKey::Task(attempt.task_id),
                attempt.task.with_last_run(event->ClockRead_0),
            )
        },
        next_step(attempt, event).0.phase == Phase::Invoked && attempt.phase != Phase::Invoked ==> {
            &&& attempt.phase == Phase::Gated
            &&& event == EventView::TargetReturned
        },
        !(next_step(attempt, event).1 is Persist) ==> next_step(attempt, event).0.task
            == attempt.task,
{
}

} // verus!
