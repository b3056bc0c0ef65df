use crate::value::{clone_values, views, Value, ValueView};
use vstd::prelude::*;

verus! {

/// A recurring task as it is registered and kept.
///
/// `creator`, `interval` and `gas_balance` are carried along and never
/// consulted. `last_run` is the time of the latest successful run, 0 before
/// the first one.
#[derive(Debug, PartialEq, Eq)]
pub struct TaskConfig {
    pub creator: String,
    pub target: String,
    pub function: String,
    pub args: Vec<Value>,
    pub resolver: Option<String>,
    pub interval: u64,
    pub last_run: u64,
    pub gas_balance: i128,
}

/// The mathematical content of a [`TaskConfig`].
pub struct TaskConfigView {
    pub creator: Seq<char>,
    pub target: Seq<char>,
    pub function: Seq<char>,
    pub args: Seq<ValueView>,
    pub resolver: Option<Seq<char>>,
    pub interval: u64,
    pub last_run: u64,
    pub gas_balance: i128,
}

impl TaskConfigView {
    /// The same record with `last_run` set to `at`.
    pub open spec fn with_last_run(self, at: u64) -> TaskConfigView {
        TaskConfigView { last_run: at, ..self }
    }
}

impl View for TaskConfig {
    type V = TaskConfigView;

    open spec fn view(&self) -> TaskConfigView {
        TaskConfigView {
            creator: self.creator@,
            target: self.target@,
            function: self.function@,
            args: views(self.args@),
            resolver: match self.resolver {
                Some(r) => Some(r@),
                None => None,
            },
            interval: self.interval,
            last_run: self.last_run,
            gas_balance: self.gas_balance,
        }
    }
}

impl Clone for TaskConfig {
    fn clone(&self) -> (copy: TaskConfig)
        ensures
            copy@ == self@,
    {
        TaskConfig {
            creator: self.creator.clone(),
            target: self.target.clone(),
            function: self.function.clone(),
            args: clone_values(&self.args),
            resolver: match &self.resolver {
                Some(r) => Some(r.clone()),
                None => None,
            },
            interval: self.interval,
            last_run: self.last_run,
            gas_balance: self.gas_balance,
        }
    }
}

impl TaskConfig {
    /// Records a successful run at time `at`; nothing else changes.
    pub fn mark_run(self, at: u64) -> (marked: TaskConfig)
        ensures
            marked@ == self@.with_last_run(at),
    {
        let mut marked = self;
        marked.last_run = at;
        marked
    }
}

/// The key under which a task record is kept.
#[derive(Clone, Copy, Debug, PartialEq, Eq)]
pub enum DataKey {
    Task(u64),
}

impl DataKey {
    /// The task identifier that the key stands for.
    pub open spec fn id(self) -> u64 {
        match self {
            DataKey::Task(id) => id,
        }
    }

    /// The task identifier that the key stands for.
    pub fn task_id(&self) -> (id: u64)
        ensures
            id == self.id(),
    {
        match self {
            DataKey::Task(id) => *id,
        }
    }
}

} // verus!
