//! The two shapes of a reply that carries one task.

use vstd::prelude::*;

use crate::proto::tasks_service::{Error, ErrorView, Task, TaskView};

verus! {

/// What a task reply holds: the task, or the service's own error.
#[derive(Debug, Clone, PartialEq, Eq)]
pub enum Response {
    Task(Task),
    Error(Error),
}

/// The mathematical value of a [`Response`].
pub enum ResponseView {
    Task(TaskView),
    Error(ErrorView),
}

impl View for Response {
    type V = ResponseView;

    open spec fn view(&self) -> ResponseView {
        match *self {
            Response::Task(task) => ResponseView::Task(task@),
            Response::Error(error) => ResponseView::Error(error@),
        }
    }
}

} // verus!
