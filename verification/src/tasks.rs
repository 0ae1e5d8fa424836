//! The proxy handlers: one task operation in, one call of the task service
//! out, and the reply turned into a response.
//!
//! Each operation has two halves with the remote call between them. The
//! first half, named after the operation, builds the call from the
//! authorised identity and the request body. The second half, shared by the
//! operations with the same kind of reply, maps what came back. The caller
//! holds the connection: it takes exclusive access, sends the call, waits
//! for the single reply and releases the access.

use vstd::prelude::*;

use crate::common::{AppClaims, AppError, Fault, Handled};
use crate::proto::tasks_service as ts;
use crate::proto::tasks_service::timestamp_text;
use crate::proto::tasks_service::TaskStatus;

verus! {

/// Body of `createTask`.
#[derive(Debug, Clone, PartialEq, Eq)]
pub struct CreateTaskRequest {
    pub title: String,
    pub description: String,
}

/// The mathematical value of a [`CreateTaskRequest`].
pub struct CreateTaskRequestView {
    pub title: Seq<char>,
    pub description: Seq<char>,
}

impl View for CreateTaskRequest {
    type V = CreateTaskRequestView;

    open spec fn view(&self) -> CreateTaskRequestView {
        CreateTaskRequestView { title: self.title@, description: self.description@ }
    }
}

/// Body of `getTask`. Its value is the task's id.
#[derive(Debug, Clone, PartialEq, Eq)]
pub struct GetTaskRequest {
    pub task_id: String,
}

impl View for GetTaskRequest {
    type V = Seq<char>;

    open spec fn view(&self) -> Seq<char> {
        self.task_id@
    }
}

/// Body of `updateTask`.
#[derive(Debug, Clone, PartialEq, Eq)]
pub struct UpdateTaskRequest {
    pub task_id: String,
    pub new_title: Option<String>,
    pub new_description: Option<String>,
}

/// The mathematical value of a [`UpdateTaskRequest`].
pub struct UpdateTaskRequestView {
    pub task_id: Seq<char>,
    pub new_title: Option<Seq<char>>,
    pub new_description: Option<Seq<char>>,
}

impl View for UpdateTaskRequest {
    type V = UpdateTaskRequestView;

    open spec fn view(&self) -> UpdateTaskRequestView {
        UpdateTaskRequestView {
            task_id: self.task_id@,
            new_title: self.new_title.deep_view(),
            new_description: self.new_description.deep_view(),
        }
    }
}

/// Body of `deleteTask`. Its value is the task's id.
#[derive(Debug, Clone, PartialEq, Eq)]
pub struct DeleteTaskRequest {
    pub task_id: String,
}

impl View for DeleteTaskRequest {
    type V = Seq<char>;

    open spec fn view(&self) -> Seq<char> {
        self.task_id@
    }
}

/// Body of `getTaskPage`.
#[derive(Debug, Clone, Copy, PartialEq, Eq, Structural)]
pub struct GetTaskPageRequest {
    pub start_id: i32,
    pub page_size: i32,
}

/// A task as the gateway answers it: the status by name, the creation time as text.
#[derive(Debug, Clone, PartialEq, Eq)]
pub struct Task {
    pub id: String,
    pub created_at: String,
    pub title: String,
    pub description: String,
    pub status: String,
}

/// The mathematical value of a [`Task`].
pub struct TaskView {
    pub id: Seq<char>,
    pub created_at: Seq<char>,
    pub title: Seq<char>,
    pub description: Seq<char>,
    pub status: Seq<char>,
}

impl View for Task {
    type V = TaskView;

    open spec fn view(&self) -> TaskView {
        TaskView {
            id: self.id@,
            created_at: self.created_at@,
            title: self.title@,
            description: self.description@,
            status: self.status@,
        }
    }
}

/// A page of tasks as the gateway answers it. Its value is the sequence of
/// its tasks.
#[derive(Debug, Clone, PartialEq, Eq)]
pub struct TaskPage {
    pub tasks: Vec<Task>,
}

impl View for TaskPage {
    type V = Seq<TaskView>;

    open spec fn view(&self) -> Seq<TaskView> {
        self.tasks@.map_values(|task: Task| task@)
    }
}

/// The answer for one task of the service: id, title and description as
/// they came, the status by its name, the creation time as text. A task
/// without creation time, or with a status number that names no status,
/// has no answer.
pub open spec fn translated(task: ts::TaskView) -> Option<TaskView> {
    match (task.created_at, TaskStatus::of_number(task.status)) {
        (Some(created_at), Some(status)) => Some(
            TaskView {
                id: task.id,
                created_at: timestamp_text(created_at.seconds, created_at.nanos),
                title: task.title,
                description: task.description,
                status: status.name(),
            },
        ),
        _ => None,
    }
}

/// The answers for a page: each task translated, in the same order. One
/// task without an answer leaves the whole page without one.
pub open spec fn translated_page(tasks: Seq<ts::TaskView>) -> Option<Seq<TaskView>> {
    if forall|i: int| 0 <= i < tasks.len() ==> (#[trigger] translated(tasks[i])) is Some {
        Some(tasks.map_values(|task: ts::TaskView| translated(task).unwrap()))
    } else {
        None
    }
}

/// Whether `answers` hold the answer for each task that was sent, one for
/// one and in the same order.
pub open spec fn in_order(sent: Seq<ts::TaskView>, answers: Seq<TaskView>) -> bool {
    &&& answers.len() == sent.len()
    &&& forall|i: int| 0 <= i < sent.len() ==> translated(#[trigger] sent[i]) == Some(answers[i])
}

/// What the gateway answers to the reply for one task. `None` stands for a
/// call that brought no reply: connection lost or service unreachable.
pub open spec fn task_answer(reply: Option<Option<ts::task_response::ResponseView>>) -> Handled<
    TaskView,
> {
    match reply {
        None => Handled::Rejected(AppError::IncorrectRequest),
        Some(None) => Handled::Faulted(Fault::MalformedReply),
        Some(Some(ts::task_response::ResponseView::Error(_))) => Handled::Rejected(
            AppError::IncorrectRequest,
        ),
        Some(Some(ts::task_response::ResponseView::Task(task))) => match translated(task) {
            Some(answer) => Handled::Done(answer),
            None => Handled::Faulted(Fault::MalformedReply),
        },
    }
}

/// What the gateway answers to the reply for a page.
pub open spec fn task_page_answer(
    reply: Option<Option<ts::task_page_response::ResponseView>>,
) -> Handled<Seq<TaskView>> {
    match reply {
        None => Handled::Rejected(AppError::IncorrectRequest),
        Some(None) => Handled::Faulted(Fault::MalformedReply),
        Some(Some(ts::task_page_response::ResponseView::Error(_))) => Handled::Rejected(
            AppError::IncorrectRequest,
        ),
        Some(Some(ts::task_page_response::ResponseView::TaskPage(tasks))) => match translated_page(
            tasks,
        ) {
            Some(answers) => Handled::Done(answers),
            None => Handled::Faulted(Fault::MalformedReply),
        },
    }
}

/// The call that creates a task owned by the authorised user.
pub fn create_task_handler(claims: AppClaims, req: CreateTaskRequest) -> (call:
    ts::CreateTaskRequest)
    ensures
        call@ == (ts::CreateTaskRequestView {
            user_id: claims@,
            title: req@.title,
            description: req@.description,
        }),
{
    ts::CreateTaskRequest {
        user_id: claims.username,
        title: req.title,
        description: req.description,
    }
}

/// The call that fetches one task of the authorised user.
pub fn get_task_handler(claims: AppClaims, req: GetTaskRequest) -> (call: ts::GetTaskRequest)
    ensures
        call@ == (ts::GetTaskRequestView { user_id: claims@, task_id: req@ }),
{
    ts::GetTaskRequest { user_id: claims.username, task_id: req.task_id }
}

/// The call that changes one task of the authorised user. A field that the
/// request leaves out is left out of the call.
pub fn update_task_handler(claims: AppClaims, req: UpdateTaskRequest) -> (call:
    ts::UpdateTaskRequest)
    ensures
        call@ == (ts::UpdateTaskRequestView {
            user_id: claims@,
            task_id: req@.task_id,
            new_title: req@.new_title,
            new_description: req@.new_description,
        }),
{
    ts::UpdateTaskRequest {
        user_id: claims.username,
        task_id: req.task_id,
        new_title: req.new_title,
        new_description: req.new_description,
    }
}

/// The call that deletes one task of the authorised user.
pub fn delete_task_handler(claims: AppClaims, req: DeleteTaskRequest) -> (call:
    ts::DeleteTaskRequest)
    ensures
        call@ == (ts::DeleteTaskRequestView { user_id: claims@, task_id: req@ }),
{
    ts::DeleteTaskRequest { user_id: claims.username, task_id: req.task_id }
}

/// The call that fetches a page of the authorised user's tasks.
pub fn get_task_page_handler(claims: AppClaims, req: GetTaskPageRequest) -> (call:
    ts::GetTaskPageRequest)
    ensures
        call@ == (ts::GetTaskPageRequestView {
            user_id: claims@,
            start_id: req.start_id,
            page_size: req.page_size,
        }),
{
    ts::GetTaskPageRequest {
        user_id: claims.username,
        start_id: req.start_id,
        page_size: req.page_size,
    }
}

/// Puts an answer together from the fields of a service task, its status
/// and the text of its creation time.
pub fn assemble_task(task: &ts::Task, created_at: String, status: TaskStatus) -> (answer: Task)
    ensures
        answer@ == (TaskView {
            id: task@.id,
            created_at: created_at@,
            title: task@.title,
            description: task@.description,
            status: status.name(),
        }),
{
    let name = status.as_str_name();
    Task {
        id: task.id.clone(),
        created_at,
        title: task.title.clone(),
        description: task.description.clone(),
        status: name.to_owned(),
    }
}

/// Translates one task of the service, where it has an answer.
pub fn translate_task(task: &ts::Task) -> (answer: Option<Task>)
    ensures
        answer is Some <==> task.created_at is Some && 0 <= task.status <= 5,
        match answer {
            Some(answer) => translated(task@) == Some(answer@),
            None => translated(task@) is None,
        },
{
    match (task.created_at, TaskStatus::from_i32(task.status)) {
        (Some(created_at), Some(status)) => Some(
            assemble_task(task, created_at.to_string(), status),
        ),
        _ => None,
    }
}

/// Maps the reply to `createTask`, `getTask`, `updateTask` or `deleteTask`.
///
/// `None` is a call that failed in transport. A task in the reply is
/// translated; an error in the reply, like a failed call, is answered with
/// `IncorrectRequest`, whatever the service said. A reply without content,
/// or with a task that cannot be translated, is a fault.
pub fn task_response(reply: Option<ts::TaskResponse>) -> (out: Handled<Task>)
    ensures
        out@ == task_answer(
            match reply {
                Some(reply) => Some(reply@),
                None => None,
            },
        ),
        reply is None ==> out == Handled::<Task>::Rejected(AppError::IncorrectRequest),
{
    match reply {
        None => Handled::Rejected(AppError::IncorrectRequest),
        Some(reply) => match reply.response {
            None => Handled::Faulted(Fault::MalformedReply),
            Some(ts::task_response::Response::Error(_)) => Handled::Rejected(
                AppError::IncorrectRequest,
            ),
            Some(ts::task_response::Response::Task(task)) => match translate_task(&task) {
                Some(answer) => Handled::Done(answer),
                None => Handled::Faulted(Fault::MalformedReply),
            },
        },
    }
}

/// Translates the tasks of a page one by one, keeping their order.
pub fn translate_page(tasks: &Vec<ts::Task>) -> (answers: Option<Vec<Task>>)
    ensures
        match answers {
            Some(answers) => {
                &&& answers@.len() == tasks@.len()
                &&& forall|i: int|
                    0 <= i < tasks@.len() ==> translated(#[trigger] tasks@[i]@) == Some(
                        answers@[i]@,
                    )
            },
            None => exists|i: int|
                0 <= i < tasks@.len() && translated(#[trigger] tasks@[i]@) is None,
        },
{
    let mut answers: Vec<Task> = Vec::new();
    let mut index: usize = 0;
    while index < tasks.len()
        invariant
            index <= tasks@.len(),
            answers@.len() == index,
            forall|i: int|
                0 <= i < index ==> translated(#[trigger] tasks@[i]@) == Some(answers@[i]@),
        decreases tasks@.len() - index,
    {
        match translate_task(&tasks[index]) {
            Some(answer) => {
                answers.push(answer);
            },
            None => {
                return None;
            },
        }
        index = index + 1;
    }
    Some(answers)
}

/// Maps the reply to `getTaskPage`.
///
/// As [`task_response`], with a page in place of a task: the answer holds
/// one translated task for each task of the reply, in the service's order.
pub fn task_page_response(reply: Option<ts::TaskPageResponse>) -> (out: Handled<TaskPage>)
    ensures
        out@ == task_page_answer(
            match reply {
                Some(reply) => Some(reply@),
                None => None,
            },
        ),
        reply is None ==> out == Handled::<TaskPage>::Rejected(AppError::IncorrectRequest),
        out matches Handled::Done(page) ==> reply matches Some(reply) && reply@ matches Some(
            ts::task_page_response::ResponseView::TaskPage(sent),
        ) && in_order(sent, page@),
{
    match reply {
        None => Handled::Rejected(AppError::IncorrectRequest),
        Some(reply) => match reply.response {
            None => Handled::Faulted(Fault::MalformedReply),
            Some(ts::task_page_response::Response::Error(_)) => Handled::Rejected(
                AppError::IncorrectRequest,
            ),
            Some(ts::task_page_response::Response::TaskPage(sent)) => {
                let answers = translate_page(&sent.tasks);
                match answers {
                    Some(tasks) => {
                        let page = TaskPage { tasks };
                        proof {
                            assert forall|i: int| 0 <= i < sent@.len() implies translated(
                                #[trigger] sent@[i],
                            ) == Some(page@[i]) by {
                                assert(translated(sent.tasks@[i]@) == Some(page.tasks@[i]@));
                            }
                            assert(page@ =~= sent@.map_values(
                                |task: ts::TaskView| translated(task).unwrap(),
                            ));
                        }
                        Handled::Done(page)
                    },
                    None => {
                        proof {
                            let i = choose|i: int|
                                0 <= i < sent.tasks@.len() && translated(
                                    #[trigger] sent.tasks@[i]@,
                                ) is None;
                            assert(translated(sent@[i]) is None);
                        }
                        Handled::Faulted(Fault::MalformedReply)
                    },
                }
            },
        },
    }
}

} // verus!
