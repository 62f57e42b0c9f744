//! One record of the task list.

use vstd::prelude::*;
use crate::timestamp::Timestamp;

verus! {

/// A to-do item.
#[derive(Clone, Debug, PartialEq, Eq)]
pub struct Task {
    /// Identifies the task among those of the list.
    pub id: u32,
    /// What is to be done. Free text.
    pub description: String,
    /// When the task was added.
    pub created_at: Timestamp,
    /// When the task was marked complete, if it was.
    pub completed_at: Option<Timestamp>,
    /// When the task is due, if a due date was given.
    pub due_date: Option<Timestamp>,
}

/// What a task holds, as mathematical values.
pub struct TaskView {
    pub id: u32,
    pub description: Seq<char>,
    pub created_at: Timestamp,
    pub completed_at: Option<Timestamp>,
    pub due_date: Option<Timestamp>,
}

impl View for Task {
    type V = TaskView;

    open spec fn view(&self) -> TaskView {
        TaskView {
            id: self.id,
            description: self.description@,
            created_at: self.created_at,
            completed_at: self.completed_at,
            due_date: self.due_date,
        }
    }
}

impl TaskView {
    /// The task has not been marked complete.
    pub open spec fn pending(self) -> bool {
        self.completed_at is None
    }

    /// Every timestamp of the task can be written down.
    pub open spec fn well_formed(self) -> bool {
        &&& self.created_at.well_formed()
        &&& (self.completed_at matches Some(t) ==> t.well_formed())
        &&& (self.due_date matches Some(t) ==> t.well_formed())
    }
}

/// The views of a sequence of tasks, in order.
pub open spec fn views(tasks: Seq<Task>) -> Seq<TaskView> {
    tasks.map_values(|t: Task| t@)
}

/// Every task of the list is well-formed.
pub open spec fn all_well_formed(tasks: Seq<TaskView>) -> bool {
    forall|i: int| 0 <= i < tasks.len() ==> (#[trigger] tasks[i]).well_formed()
}

/// Decides `all_well_formed`.
pub fn are_well_formed(tasks: &Vec<Task>) -> (ok: bool)
    ensures
        ok == all_well_formed(views(tasks@)),
{
    let n = tasks.len();
    let mut i: usize = 0;
    while i < n
        invariant
            n == tasks.len(),
            0 <= i <= n,
            forall|j: int| 0 <= j < i ==> (#[trigger] views(tasks@)[j]).well_formed(),
        decreases n - i,
    {
        if !tasks[i].is_well_formed() {
            assert(!views(tasks@)[i as int].well_formed());
            return false;
        }
        i += 1;
    }
    true
}

impl Task {
    /// Decides `pending`.
    pub fn is_pending(&self) -> (r: bool)
        ensures
            r == self@.pending(),
    {
        self.completed_at.is_none()
    }

    /// Decides `well_formed`.
    pub fn is_well_formed(&self) -> (r: bool)
        ensures
            r == self@.well_formed(),
    {
        if !self.created_at.is_well_formed() {
            return false;
        }
        let completed_ok = match &self.completed_at {
            Some(t) => t.is_well_formed(),
            None => true,
        };
        let due_ok = match &self.due_date {
            Some(t) => t.is_well_formed(),
            None => true,
        };
        completed_ok && due_ok
    }

    /// A copy of the task.
    pub fn duplicate(&self) -> (r: Task)
        ensures
            r == *self,
    {
        Task {
            id: self.id,
            description: self.description.clone(),
            created_at: self.created_at,
            completed_at: self.completed_at,
            due_date: self.due_date,
        }
    }
}

} // verus!
