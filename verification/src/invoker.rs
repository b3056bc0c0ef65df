use crate::call::{CallRequest, CallRequestView};
use crate::task::{TaskConfig, TaskConfigView};
use crate::value::clone_values;
use vstd::prelude::*;

verus! {

/// The call that runs a task: its function on its target, with the stored
/// arguments as they are.
pub open spec fn target_request(task: TaskConfigView) -> CallRequestView {
    CallRequestView { contract: task.target, function: task.function, args: task.args }
}

/// Builds the call that runs `task`.
pub fn target_call(task: &TaskConfig) -> (request: CallRequest)
    ensures
        request@ == target_request(task@),
{
    CallRequest {
        contract: task.target.clone(),
        function: task.function.clone(),
        args: clone_values(&task.args),
    }
}

} // verus!
