use crate::task::{DataKey, TaskConfig, TaskConfigView};
use std::collections::HashMap;
use vstd::prelude::*;

verus! {

/// The task store: at most one record per task identifier.
#[derive(Debug, PartialEq, Eq)]
pub struct TaskStore {
    records: HashMap<u64, TaskConfig>,
}

impl View for TaskStore {
    type V = Map<u64, TaskConfigView>;

    /// The records by task identifier.
    closed spec fn view(&self) -> Map<u64, TaskConfigView> {
        self.records@.map_values(|task: TaskConfig| task@)
    }
}

impl Clone for TaskStore {
    fn clone(&self) -> (copy: TaskStore)
        ensures
            copy@ == self@,
    {
        TaskStore { records: self.records.clone() }
    }
}

impl TaskStore {
    /// A store without records.
    pub fn new() -> (store: TaskStore)
        ensures
            store@ == Map::<u64, TaskConfigView>::empty(),
    {
        TaskStore { records: HashMap::new() }
    }

    /// The record kept under `key`, if there is one.
    pub fn get(&self, key: &DataKey) -> (found: Option<&TaskConfig>)
        ensures
            match found {
                Some(task) => self@.contains_key(key.id()) && task@ == self@[key.id()],
                None => !self@.contains_key(key.id()),
            },
    {
        let id = key.task_id();
        self.records.get(&id)
    }

    /// Writes `task` under `key`, in place of whatever was there.
    pub fn put(&mut self, key: DataKey, task: TaskConfig)
        ensures
            final(self)@ == old(self)@.insert(key.id(), task@),
    {
        let id = key.task_id();
        self.records.insert(id, task);
    }
}

} // verus!
