use crate::value::{clone_values, views, Value, ValueView};
use vstd::prelude::*;

verus! {

/// A call that the engine wants made: a named operation on a contract, with
/// its arguments in order.
#[derive(Debug, PartialEq, Eq)]
pub struct CallRequest {
    pub contract: String,
    pub function: String,
    pub args: Vec<Value>,
}

/// The mathematical content of a [`CallRequest`].
pub struct CallRequestView {
    pub contract: Seq<char>,
    pub function: Seq<char>,
    pub args: Seq<ValueView>,
}

impl View for CallRequest {
    type V = CallRequestView;

    open spec fn view(&self) -> CallRequestView {
        CallRequestView {
            contract: self.contract@,
            function: self.function@,
            args: views(self.args@),
        }
    }
}

impl Clone for CallRequest {
    fn clone(&self) -> (copy: CallRequest)
        ensures
            copy@ == self@,
    {
        CallRequest {
            contract: self.contract.clone(),
            function: self.function.clone(),
            args: clone_values(&self.args),
        }
    }
}

/// How a best-effort call ended: with a value, or not at all. `Failed`
/// stands for every way of not returning: no such contract, no such
/// operation, an error raised, a trap.
#[derive(Debug, PartialEq, Eq)]
pub enum CallOutcome {
    Returned(Value),
    Failed,
}

/// The mathematical content of a [`CallOutcome`].
pub enum CallOutcomeView {
    Returned(ValueView),
    Failed,
}

impl View for CallOutcome {
    type V = CallOutcomeView;

    open spec fn view(&self) -> CallOutcomeView {
        match self {
            CallOutcome::Returned(value) => CallOutcomeView::Returned(value@),
            CallOutcome::Failed => CallOutcomeView::Failed,
        }
    }
}

impl Clone for CallOutcome {
    fn clone(&self) -> (copy: CallOutcome)
        ensures
            copy@ == self@,
    {
        match self {
            CallOutcome::Returned(value) => CallOutcome::Returned(value.clone()),
            CallOutcome::Failed => CallOutcome::Failed,
        }
    }
}

} // verus!
