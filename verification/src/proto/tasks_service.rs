//! The request and reply messages of the task service, as plain values.
//!
//! The gateway is a pure client of the service: it builds the requests,
//! reads the replies and never keeps a task.

use vstd::prelude::*;

pub mod task_page_response;
pub mod task_response;

verus! {

/// Asks the service to create a task owned by `user_id`.
#[derive(Debug, Clone, PartialEq, Eq)]
pub struct CreateTaskRequest {
    pub user_id: String,
    pub title: String,
    pub description: String,
}

/// The mathematical value of a [`CreateTaskRequest`].
pub struct CreateTaskRequestView {
    pub user_id: Seq<char>,
    pub title: Seq<char>,
    pub description: Seq<char>,
}

impl View for CreateTaskRequest {
    type V = CreateTaskRequestView;

    open spec fn view(&self) -> CreateTaskRequestView {
        CreateTaskRequestView {
            user_id: self.user_id@,
            title: self.title@,
            description: self.description@,
        }
    }
}

/// Asks the service for one task of `user_id`.
#[derive(Debug, Clone, PartialEq, Eq)]
pub struct GetTaskRequest {
    pub user_id: String,
    pub task_id: String,
}

/// The mathematical value of a [`GetTaskRequest`].
pub struct GetTaskRequestView {
    pub user_id: Seq<char>,
    pub task_id: Seq<char>,
}

impl View for GetTaskRequest {
    type V = GetTaskRequestView;

    open spec fn view(&self) -> GetTaskRequestView {
        GetTaskRequestView { user_id: self.user_id@, task_id: self.task_id@ }
    }
}

/// Asks the service to change the title, the description or both of one task.
#[derive(Debug, Clone, PartialEq, Eq)]
pub struct UpdateTaskRequest {
    pub user_id: String,
    pub task_id: String,
    pub new_title: Option<String>,
    pub new_description: Option<String>,
}

/// The mathematical value of a [`UpdateTaskRequest`].
pub struct UpdateTaskRequestView {
    pub user_id: Seq<char>,
    pub task_id: Seq<char>,
    pub new_title: Option<Seq<char>>,
    pub new_description: Option<Seq<char>>,
}

impl View for UpdateTaskRequest {
    type V = UpdateTaskRequestView;

    open spec fn view(&self) -> UpdateTaskRequestView {
        UpdateTaskRequestView {
            user_id: self.user_id@,
            task_id: self.task_id@,
            new_title: self.new_title.deep_view(),
            new_description: self.new_description.deep_view(),
        }
    }
}

/// Asks the service to delete one task of `user_id`.
#[derive(Debug, Clone, PartialEq, Eq)]
pub struct DeleteTaskRequest {
    pub user_id: String,
    pub task_id: String,
}

/// The mathematical value of a [`DeleteTaskRequest`].
pub struct DeleteTaskRequestView {
    pub user_id: Seq<char>,
    pub task_id: Seq<char>,
}

impl View for DeleteTaskRequest {
    type V = DeleteTaskRequestView;

    open spec fn view(&self) -> DeleteTaskRequestView {
        DeleteTaskRequestView { user_id: self.user_id@, task_id: self.task_id@ }
    }
}

/// Asks the service for at most `page_size` tasks of `user_id`, from `start_id` on.
#[derive(Debug, Clone, PartialEq, Eq)]
pub struct GetTaskPageRequest {
    pub user_id: String,
    pub start_id: i32,
    pub page_size: i32,
}

/// The mathematical value of a [`GetTaskPageRequest`].
pub struct GetTaskPageRequestView {
    pub user_id: Seq<char>,
    pub start_id: i32,
    pub page_size: i32,
}

impl View for GetTaskPageRequest {
    type V = GetTaskPageRequestView;

    open spec fn view(&self) -> GetTaskPageRequestView {
        GetTaskPageRequestView {
            user_id: self.user_id@,
            start_id: self.start_id,
            page_size: self.page_size,
        }
    }
}

/// A reply to a request about one task. A reply without `response` is malformed.
#[derive(Debug, Clone, PartialEq, Eq)]
pub struct TaskResponse {
    pub response: Option<task_response::Response>,
}

impl View for TaskResponse {
    type V = Option<task_response::ResponseView>;

    open spec fn view(&self) -> Option<task_response::ResponseView> {
        match self.response {
            Some(response) => Some(response@),
            None => None,
        }
    }
}

/// A reply to a request for a page. A reply without `response` is malformed.
#[derive(Debug, Clone, PartialEq, Eq)]
pub struct TaskPageResponse {
    pub response: Option<task_page_response::Response>,
}

impl View for TaskPageResponse {
    type V = Option<task_page_response::ResponseView>;

    open spec fn view(&self) -> Option<task_page_response::ResponseView> {
        match self.response {
            Some(response) => Some(response@),
            None => None,
        }
    }
}

/// A point in time as the service sends it: seconds since the Unix epoch
/// and nanoseconds within the second.
#[derive(Debug, Clone, Copy, PartialEq, Eq, Structural)]
pub struct Timestamp {
    pub seconds: i64,
    pub nanos: i32,
}

/// The text of a timestamp: its date and time of day in UTC, written in
/// the RFC 3339 form, with a fraction of 3, 6 or 9 digits where `nanos` is
/// not zero.
pub uninterp spec fn timestamp_text(seconds: i64, nanos: i32) -> Seq<char>;

/// Calls `prost_types::Timestamp`'s `Display` through `to_string`. The
/// claim: the text depends on the two numbers alone. Every pair of numbers
/// is formatted; none is refused.
#[verifier::external_body]
fn format_timestamp(seconds: i64, nanos: i32) -> (text: String)
    ensures
        text@ == timestamp_text(seconds, nanos),
{
    prost_types::Timestamp { seconds, nanos }.to_string()
}

impl Timestamp {
    /// The timestamp as text.
    pub fn to_string(&self) -> (text: String)
        ensures
            text@ == timestamp_text(self.seconds, self.nanos),
    {
        format_timestamp(self.seconds, self.nanos)
    }
}

/// A task as the service sends it.
#[derive(Debug, Clone, PartialEq, Eq)]
pub struct Task {
    pub id: String,
    pub created_at: Option<Timestamp>,
    pub title: String,
    pub description: String,
    /// The number of a [`TaskStatus`].
    pub status: i32,
}

/// The mathematical value of a [`Task`].
pub struct TaskView {
    pub id: Seq<char>,
    pub created_at: Option<Timestamp>,
    pub title: Seq<char>,
    pub description: Seq<char>,
    pub status: i32,
}

impl View for Task {
    type V = TaskView;

    open spec fn view(&self) -> TaskView {
        TaskView {
            id: self.id@,
            created_at: self.created_at,
            title: self.title@,
            description: self.description@,
            status: self.status,
        }
    }
}

/// The service's own account of a failure. The gateway never forwards it.
#[derive(Debug, Clone, PartialEq, Eq)]
pub struct Error {
    pub code: i32,
    pub message: String,
}

/// The mathematical value of a [`Error`].
pub struct ErrorView {
    pub code: i32,
    pub message: Seq<char>,
}

impl View for Error {
    type V = ErrorView;

    open spec fn view(&self) -> ErrorView {
        ErrorView { code: self.code, message: self.message@ }
    }
}

/// A page of tasks, in the service's order.
#[derive(Debug, Clone, PartialEq, Eq)]
pub struct TaskPage {
    pub tasks: Vec<Task>,
}

impl View for TaskPage {
    type V = Seq<TaskView>;

    open spec fn view(&self) -> Seq<TaskView> {
        self.tasks@.map_values(|task: Task| task@)
    }
}

/// The states of a task.
#[derive(Debug, Clone, Copy, PartialEq, Eq, Structural, Hash)]
pub enum TaskStatus {
    Open,
    InProgress,
    PendingReview,
    Testing,
    Completed,
    Cancelled,
}

impl TaskStatus {
    /// The number under which the service sends this status.
    pub open spec fn number(self) -> i32 {
        match self {
            TaskStatus::Open => 0,
            TaskStatus::InProgress => 1,
            TaskStatus::PendingReview => 2,
            TaskStatus::Testing => 3,
            TaskStatus::Completed => 4,
            TaskStatus::Cancelled => 5,
        }
    }

    /// The canonical name of this status.
    pub open spec fn name(self) -> Seq<char> {
        match self {
            TaskStatus::Open => "Open"@,
            TaskStatus::InProgress => "InProgress"@,
            TaskStatus::PendingReview => "PendingReview"@,
            TaskStatus::Testing => "Testing"@,
            TaskStatus::Completed => "Completed"@,
            TaskStatus::Cancelled => "Cancelled"@,
        }
    }

    /// The status with the given number, if there is one.
    pub open spec fn of_number(value: i32) -> Option<TaskStatus> {
        if value == 0 {
            Some(TaskStatus::Open)
        } else if value == 1 {
            Some(TaskStatus::InProgress)
        } else if value == 2 {
            Some(TaskStatus::PendingReview)
        } else if value == 3 {
            Some(TaskStatus::Testing)
        } else if value == 4 {
            Some(TaskStatus::Completed)
        } else if value == 5 {
            Some(TaskStatus::Cancelled)
        } else {
            None
        }
    }

    /// The status with the given name, if there is one.
    pub open spec fn of_name(value: Seq<char>) -> Option<TaskStatus> {
        if value == "Open"@ {
            Some(TaskStatus::Open)
        } else if value == "InProgress"@ {
            Some(TaskStatus::InProgress)
        } else if value == "PendingReview"@ {
            Some(TaskStatus::PendingReview)
        } else if value == "Testing"@ {
            Some(TaskStatus::Testing)
        } else if value == "Completed"@ {
            Some(TaskStatus::Completed)
        } else if value == "Cancelled"@ {
            Some(TaskStatus::Cancelled)
        } else {
            None
        }
    }

    /// The number of this status on the wire.
    pub fn as_i32(&self) -> (value: i32)
        ensures
            value == self.number(),
            TaskStatus::of_number(value) == Some(*self),
    {
        match self {
            TaskStatus::Open => 0,
            TaskStatus::InProgress => 1,
            TaskStatus::PendingReview => 2,
            TaskStatus::Testing => 3,
            TaskStatus::Completed => 4,
            TaskStatus::Cancelled => 5,
        }
    }

    /// Reads a status number. Numbers outside `0..=5` name no status.
    pub fn from_i32(value: i32) -> (status: Option<TaskStatus>)
        ensures
            status == TaskStatus::of_number(value),
            status is Some <==> 0 <= value <= 5,
            status matches Some(s) ==> s.number() == value,
    {
        match value {
            0 => Some(TaskStatus::Open),
            1 => Some(TaskStatus::InProgress),
            2 => Some(TaskStatus::PendingReview),
            3 => Some(TaskStatus::Testing),
            4 => Some(TaskStatus::Completed),
            5 => Some(TaskStatus::Cancelled),
            _ => None,
        }
    }

    /// The canonical name of the status, as the task service's schema spells it.
    pub fn as_str_name(&self) -> (name: &'static str)
        ensures
            name@ == self.name(),
    {
        match self {
            TaskStatus::Open => "Open",
            TaskStatus::InProgress => "InProgress",
            TaskStatus::PendingReview => "PendingReview",
            TaskStatus::Testing => "Testing",
            TaskStatus::Completed => "Completed",
            TaskStatus::Cancelled => "Cancelled",
        }
    }

    /// Reads a canonical name. Any other text names no status.
    pub fn from_str_name(value: &str) -> (status: Option<TaskStatus>)
        ensures
            status == TaskStatus::of_name(value@),
    {
        let text = value.to_owned();
        if text == "Open".to_owned() {
            Some(TaskStatus::Open)
        } else if text == "InProgress".to_owned() {
            Some(TaskStatus::InProgress)
        } else if text == "PendingReview".to_owned() {
            Some(TaskStatus::PendingReview)
        } else if text == "Testing".to_owned() {
            Some(TaskStatus::Testing)
        } else if text == "Completed".to_owned() {
            Some(TaskStatus::Completed)
        } else if text == "Cancelled".to_owned() {
            Some(TaskStatus::Cancelled)
        } else {
            None
        }
    }
}

} // verus!
