//! The task entity, its externally-facing DTO, and the request shapes the
//! transport decodes. Identifiers and timestamps are carried as opaque
//! strings: generating them is the caller's concern.

use vstd::prelude::*;
use crate::json::opt_view;

verus! {

/// Spec-level image of a task: every field as a plain value.
pub struct TaskView {
    pub id: Seq<char>,
    pub title: Seq<char>,
    pub description: Option<Seq<char>>,
    pub completed: bool,
    pub created_at: Seq<char>,
    pub updated_at: Seq<char>,
}

/// A task row as storage holds it.
#[derive(Debug)]
pub struct Task {
    pub id: String,
    pub title: String,
    pub description: Option<String>,
    pub completed: bool,
    pub created_at: String,
    pub updated_at: String,
}

impl View for Task {
    type V = TaskView;

    open spec fn view(&self) -> TaskView {
        TaskView {
            id: self.id@,
            title: self.title@,
            description: opt_view(self.description),
            completed: self.completed,
            created_at: self.created_at@,
            updated_at: self.updated_at@,
        }
    }
}

impl DeepView for Task {
    type V = TaskView;

    open spec fn deep_view(&self) -> TaskView {
        self.view()
    }
}

/// The externally-facing projection of a task, returned by the service.
/// The projection is total and lossless: it carries every entity field.
#[derive(Debug)]
pub struct TaskResponse {
    pub id: String,
    pub title: String,
    pub description: Option<String>,
    pub completed: bool,
    pub created_at: String,
    pub updated_at: String,
}

impl View for TaskResponse {
    type V = TaskView;

    open spec fn view(&self) -> TaskView {
        TaskView {
            id: self.id@,
            title: self.title@,
            description: opt_view(self.description),
            completed: self.completed,
            created_at: self.created_at@,
            updated_at: self.updated_at@,
        }
    }
}

impl DeepView for TaskResponse {
    type V = TaskView;

    open spec fn deep_view(&self) -> TaskView {
        self.view()
    }
}

/// Copies an optional string, field for field.
pub fn clone_opt_string(o: &Option<String>) -> (r: Option<String>)
    ensures
        opt_view(r) == opt_view(*o),
{
    match o {
        Some(s) => Some(s.clone()),
        None => None,
    }
}

impl Task {
    /// A field-for-field copy of the row.
    pub fn duplicate(&self) -> (r: Task)
        ensures
            r@ == self@,
    {
        Task {
            id: self.id.clone(),
            title: self.title.clone(),
            description: clone_opt_string(&self.description),
            completed: self.completed,
            created_at: self.created_at.clone(),
            updated_at: self.updated_at.clone(),
        }
    }
}

impl TaskResponse {
    /// Projects a task entity onto the DTO; every field carries over.
    pub fn from_task(task: Task) -> (r: TaskResponse)
        ensures
            r@ == task@,
    {
        TaskResponse {
            id: task.id,
            title: task.title,
            description: task.description,
            completed: task.completed,
            created_at: task.created_at,
            updated_at: task.updated_at,
        }
    }
}

/// Fields of a task yet to be persisted; the store supplies id and
/// timestamps.
#[derive(Debug)]
pub struct NewTask {
    pub title: String,
    pub description: Option<String>,
    pub completed: bool,
}

/// A partial change set: only fields that are present are modified.
#[derive(Debug)]
pub struct UpdateTask {
    pub title: Option<String>,
    pub description: Option<String>,
    pub completed: Option<bool>,
}

/// Decoded body of a creation request.
#[derive(Debug)]
pub struct CreateTaskRequest {
    pub title: String,
    pub description: Option<String>,
    pub completed: bool,
}

/// Decoded body of an update request; absent fields are left unchanged.
#[derive(Debug)]
pub struct UpdateTaskRequest {
    pub title: Option<String>,
    pub description: Option<String>,
    pub completed: Option<bool>,
}

} // verus!
