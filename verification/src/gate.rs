use crate::call::{CallOutcome, CallOutcomeView, CallRequest, CallRequestView};
use crate::value::{clone_values, lemma_list_view, Value, ValueView};
use vstd::prelude::*;

verus! {

/// The operation that a resolver offers.
pub const CHECK_CONDITION: &'static str = "check_condition";

/// The decision on one attempt: go on to the target, or leave it be.
#[derive(Clone, Copy, Debug, PartialEq, Eq, Structural)]
pub enum Gate {
    Proceed,
    Skip,
}

/// The rule of the resolver gate. Without a resolver the attempt proceeds, whatever
/// `reply` holds. With one it proceeds only on a reply that is the boolean
/// `true`; `false`, any other value and a failed call all skip the run.
pub open spec fn gate_decision(resolver_present: bool, reply: CallOutcomeView) -> Gate {
    if !resolver_present || reply == CallOutcomeView::Returned(ValueView::Bool(true)) {
        Gate::Proceed
    } else {
        Gate::Skip
    }
}

/// Applies the rule to whether a resolver is set and how the call to it
/// ended.
pub fn decide(resolver_present: bool, reply: &CallOutcome) -> (gate: Gate)
    ensures
        gate == gate_decision(resolver_present, reply@),
{
    if !resolver_present {
        return Gate::Proceed;
    }
    match reply {
        CallOutcome::Returned(Value::Bool(true)) => Gate::Proceed,
        _ => Gate::Skip,
    }
}

/// The call by which a resolver is consulted: its one argument is the
/// task's whole argument list.
pub open spec fn resolver_request(resolver: Seq<char>, args: Seq<ValueView>) -> CallRequestView {
    CallRequestView {
        contract: resolver,
        function: CHECK_CONDITION@,
        args: seq![ValueView::List(args)],
    }
}

/// Builds the call by which `resolver` is consulted about `args`.
pub fn resolver_call(resolver: &String, args: &Vec<Value>) -> (request: CallRequest)
    ensures
        request@ == resolver_request(resolver@, crate::value::views(args@)),
{
    let packed = clone_values(args);
    proof {
        lemma_list_view(packed);
    }
    let mut call_args: Vec<Value> = Vec::new();
    call_args.push(Value::List(packed));
    let request = CallRequest {
        contract: resolver.clone(),
        function: CHECK_CONDITION.to_owned(),
        args: call_args,
    };
    assert(request@.args =~= seq![ValueView::List(crate::value::views(args@))]);
    request
}

} // verus!
