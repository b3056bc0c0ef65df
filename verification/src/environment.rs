use crate::call::{CallOutcome, CallOutcomeView, CallRequest, CallRequestView};
use vstd::prelude::*;

verus! {

/// A scripted stand-in for the surroundings of one attempt.
///
/// It answers from its script: how the call to the resolver ends, whether
/// the call to the target returns, and what the clock shows. In `calls` it
/// keeps every call that it was asked to make, in order.
#[derive(Debug, PartialEq, Eq)]
pub struct Environment {
    pub resolver_reply: CallOutcome,
    pub target_succeeds: bool,
    pub now: u64,
    pub calls: Vec<CallRequest>,
}

/// The mathematical content of an [`Environment`].
pub struct EnvironmentView {
    pub resolver_reply: CallOutcomeView,
    pub target_succeeds: bool,
    pub now: u64,
    pub calls: Seq<CallRequestView>,
}

impl EnvironmentView {
    /// The same script with `made` added to the calls on record.
    pub open spec fn after_calls(self, made: Seq<CallRequestView>) -> EnvironmentView {
        EnvironmentView { calls: self.calls + made, ..self }
    }
}

impl View for Environment {
    type V = EnvironmentView;

    open spec fn view(&self) -> EnvironmentView {
        EnvironmentView {
            resolver_reply: self.resolver_reply@,
            target_succeeds: self.target_succeeds,
            now: self.now,
            calls: self.calls@.map_values(|request: CallRequest| request@),
        }
    }
}

impl Environment {
    /// A script with no call on record yet.
    pub fn new(resolver_reply: CallOutcome, target_succeeds: bool, now: u64) -> (env: Environment)
        ensures
            env@ == (EnvironmentView {
                resolver_reply: resolver_reply@,
                target_succeeds,
                now,
                calls: Seq::<CallRequestView>::empty(),
            }),
    {
        let env = Environment { resolver_reply, target_succeeds, now, calls: Vec::new() };
        assert(env@.calls =~= Seq::<CallRequestView>::empty());
        env
    }

    /// Puts `request` on record.
    pub fn record(&mut self, request: CallRequest)
        ensures
            final(self)@ == old(self)@.after_calls(seq![request@]),
    {
        self.calls.push(request);
        assert(self@.calls =~= old(self)@.calls + seq![request@]);
    }
}

} // verus!
