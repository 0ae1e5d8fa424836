//! The two shapes of a reply that carries a page of tasks.

use vstd::prelude::*;

use crate::proto::tasks_service::{Error, ErrorView, TaskPage, TaskView};

verus! {

/// What a page reply holds: the page, or the service's own error.
#[derive(Debug, Clone, PartialEq, Eq)]
pub enum Response {
    TaskPage(TaskPage),
    Error(Error),
}

/// The mathematical value of a [`Response`]: a page is the sequence of its
/// tasks, in the order in which the service sent them.
pub enum ResponseView {
    TaskPage(Seq<TaskView>),
    Error(ErrorView),
}

impl View for Response {
    type V = ResponseView;

    open spec fn view(&self) -> ResponseView {
        match *self {
            Response::TaskPage(page) => ResponseView::TaskPage(page@),
            Response::Error(error) => ResponseView::Error(error@),
        }
    }
}

} // verus!
