use sorotask::attempt::{Action, Attempt, Event, ExecuteError, Phase};
use sorotask::call::{CallOutcome, CallRequest};
use sorotask::task::{DataKey, TaskConfig};
use sorotask::value::Value;

fn record(resolver: Option<&str>) -> TaskConfig {
    TaskConfig {
        creator: String::from("C"),
        target: String::from("T"),
        function: String::from("f"),
        args: vec![Value::Int(3), Value::Text(String::from("x"))],
        resolver: resolver.map(String::from),
        interval: 60,
        last_run: 9,
        gas_balance: 1000,
    }
}

fn to_target() -> Action {
    Action::InvokeTarget(CallRequest {
        contract: String::from("T"),
        function: String::from("f"),
        args: vec![Value::Int(3), Value::Text(String::from("x"))],
    })
}

fn to_resolver() -> Action {
    Action::AskResolver(CallRequest {
        contract: String::from("R"),
        function: String::from("check_condition"),
        args: vec![Value::List(vec![Value::Int(3), Value::Text(String::from("x"))])],
    })
}

fn loaded() -> Attempt {
    Attempt::load(7, Some(record(Some("R")))).unwrap().0
}

fn gated() -> Attempt {
    Attempt::load(7, Some(record(None))).unwrap().0
}

fn invoked() -> Attempt {
    gated().step(Event::TargetReturned).0
}

fn every_event() -> Vec<Event> {
    vec![
        Event::ResolverReplied(CallOutcome::Returned(Value::Bool(true))),
        Event::ResolverReplied(CallOutcome::Failed),
        Event::TargetReturned,
        Event::TargetFailed,
        Event::ClockRead(100),
    ]
}

#[test]
fn load_without_a_record_is_task_not_found() {
    assert_eq!(Attempt::load(7, None), Err(ExecuteError::TaskNotFound));
}

#[test]
fn load_with_resolver_asks_the_resolver_first() {
    let (attempt, action) = Attempt::load(7, Some(record(Some("R")))).unwrap();
    assert_eq!(attempt.phase(), Phase::Loaded);
    assert_eq!(attempt.task_id(), 7);
    assert_eq!(attempt.task(), &record(Some("R")));
    assert_eq!(action, to_resolver());
}

#[test]
fn load_without_resolver_goes_to_the_target_at_once() {
    let (attempt, action) = Attempt::load(7, Some(record(None))).unwrap();
    assert_eq!(attempt.phase(), Phase::Gated);
    assert_eq!(attempt.task(), &record(None));
    assert_eq!(action, to_target());
}

#[test]
fn resolver_call_has_one_argument_even_for_an_empty_list() {
    let mut config = record(Some("R"));
    config.args = vec![];
    let (_, action) = Attempt::load(7, Some(config)).unwrap();
    assert_eq!(
        action,
        Action::AskResolver(CallRequest {
            contract: String::from("R"),
            function: String::from("check_condition"),
            args: vec![Value::List(vec![])],
        })
    );
}

#[test]
fn reply_true_opens_the_way_to_the_target() {
    let (attempt, action) =
        loaded().step(Event::ResolverReplied(CallOutcome::Returned(Value::Bool(true))));
    assert_eq!(attempt.phase(), Phase::Gated);
    assert_eq!(action, to_target());
}

#[test]
fn reply_false_ends_the_attempt_as_skipped() {
    let (attempt, action) =
        loaded().step(Event::ResolverReplied(CallOutcome::Returned(Value::Bool(false))));
    assert_eq!(attempt.phase(), Phase::Skipped);
    assert_eq!(action, Action::Finish);
    assert_eq!(attempt.task(), &record(Some("R")));
}

#[test]
fn failed_resolver_call_ends_the_attempt_as_skipped() {
    let (attempt, action) = loaded().step(Event::ResolverReplied(CallOutcome::Failed));
    assert_eq!(attempt.phase(), Phase::Skipped);
    assert_eq!(action, Action::Finish);
}

#[test]
fn reply_that_is_no_boolean_ends_the_attempt_as_skipped() {
    for reply in [Value::Int(1), Value::Text(String::from("true")), Value::Opaque(1)] {
        let (attempt, action) = loaded().step(Event::ResolverReplied(CallOutcome::Returned(reply)));
        assert_eq!(attempt.phase(), Phase::Skipped);
        assert_eq!(action, Action::Finish);
    }
}

#[test]
fn returned_target_call_asks_for_the_clock() {
    let (attempt, action) = gated().step(Event::TargetReturned);
    assert_eq!(attempt.phase(), Phase::Invoked);
    assert_eq!(action, Action::ReadClock);
    assert_eq!(attempt.task().last_run, 9);
}

#[test]
fn failed_target_call_aborts() {
    let (attempt, action) = gated().step(Event::TargetFailed);
    assert_eq!(attempt.phase(), Phase::Aborted(ExecuteError::InvocationFailed));
    assert_eq!(action, Action::Abort(ExecuteError::InvocationFailed));
    assert_eq!(attempt.task(), &record(None));
}

#[test]
fn clock_reading_commits_the_run() {
    let (attempt, action) = invoked().step(Event::ClockRead(1234));
    let mut expected = record(None);
    expected.last_run = 1234;
    assert_eq!(attempt.phase(), Phase::Committed);
    assert_eq!(attempt.task(), &expected);
    assert_eq!(action, Action::Persist(DataKey::Task(7), expected));
}

#[test]
fn clock_reading_of_zero_is_recorded_as_it_is() {
    let (_, action) = invoked().step(Event::ClockRead(0));
    let mut expected = record(None);
    expected.last_run = 0;
    assert_eq!(action, Action::Persist(DataKey::Task(7), expected));
}

#[test]
fn event_that_answers_nothing_aborts_a_loaded_attempt() {
    for event in [Event::TargetReturned, Event::TargetFailed, Event::ClockRead(100)] {
        let (attempt, action) = loaded().step(event);
        assert_eq!(attempt.phase(), Phase::Aborted(ExecuteError::UnexpectedEvent));
        assert_eq!(action, Action::Abort(ExecuteError::UnexpectedEvent));
    }
}

#[test]
fn event_that_answers_nothing_aborts_a_gated_attempt() {
    for event in [
        Event::ResolverReplied(CallOutcome::Returned(Value::Bool(true))),
        Event::ClockRead(100),
    ] {
        let (attempt, action) = gated().step(event);
        assert_eq!(attempt.phase(), Phase::Aborted(ExecuteError::UnexpectedEvent));
        assert_eq!(action, Action::Abort(ExecuteError::UnexpectedEvent));
    }
}

#[test]
fn event_that_answers_nothing_aborts_an_invoked_attempt() {
    for event in [
        Event::ResolverReplied(CallOutcome::Returned(Value::Bool(true))),
        Event::TargetReturned,
        Event::TargetFailed,
    ] {
        let (attempt, action) = invoked().step(event);
        assert_eq!(attempt.phase(), Phase::Aborted(ExecuteError::UnexpectedEvent));
        assert_eq!(action, Action::Abort(ExecuteError::UnexpectedEvent));
        assert_eq!(attempt.task().last_run, 9);
    }
}

#[test]
fn committed_attempt_stays_committed() {
    for event in every_event() {
        let committed = invoked().step(Event::ClockRead(1234)).0;
        let (attempt, action) = committed.step(event);
        assert_eq!(attempt.phase(), Phase::Committed);
        assert_eq!(attempt.task().last_run, 1234);
        assert_eq!(action, Action::Finish);
    }
}

#[test]
fn skipped_attempt_stays_skipped() {
    for event in every_event() {
        let skipped = loaded().step(Event::ResolverReplied(CallOutcome::Failed)).0;
        let (attempt, action) = skipped.step(event);
        assert_eq!(attempt.phase(), Phase::Skipped);
        assert_eq!(action, Action::Finish);
    }
}

#[test]
fn aborted_attempt_stays_aborted() {
    for event in every_event() {
        let aborted = gated().step(Event::TargetFailed).0;
        let (attempt, action) = aborted.step(event);
        assert_eq!(attempt.phase(), Phase::Aborted(ExecuteError::InvocationFailed));
        assert_eq!(action, Action::Abort(ExecuteError::InvocationFailed));
    }
}

#[test]
fn error_messages() {
    assert_eq!(ExecuteError::TaskNotFound.message(), "Task not found");
    assert_eq!(ExecuteError::InvocationFailed.message(), "Target invocation failed");
    assert_eq!(ExecuteError::UnexpectedEvent.message(), "Unexpected event");
}
