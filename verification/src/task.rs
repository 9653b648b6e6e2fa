//! A task: what is to be done, and how urgent it is.

use crate::priority::Priority;
use vstd::prelude::*;

verus! {

/// One entry of the list. Nothing changes a task once it is made.
#[derive(Clone, Debug, PartialEq, Eq)]
pub struct Task {
    pub description: String,
    pub priority: Priority,
}

/// A task as a mathematical value: its text as a sequence of characters.
pub ghost struct TaskView {
    pub description: Seq<char>,
    pub priority: Priority,
}

impl View for Task {
    type V = TaskView;

    open spec fn view(&self) -> TaskView {
        TaskView { description: self.description@, priority: self.priority }
    }
}

/// The list `tasks` as a sequence of mathematical values.
pub open spec fn tasks_view(tasks: Seq<Task>) -> Seq<TaskView> {
    tasks.map_values(|task: Task| task@)
}

} // verus!
