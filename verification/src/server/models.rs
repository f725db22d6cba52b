//! The bodies and query parameters of the HTTP requests.
use vstd::prelude::*;

use crate::storage::models::{Task, TaskProgress};

verus! {

/// A task to store under a given key.
#[derive(Clone, Debug)]
pub struct TaskCreation {
    pub key: String,
    pub task: Task,
}

impl TaskCreation {
    pub fn key(&self) -> (r: &String)
        ensures
            r@ == self.key@,
    {
        &self.key
    }

    pub fn task(&self) -> (r: &Task)
        ensures
            r@ == self.task@,
    {
        &self.task
    }
}

/// A task to store under the key built from its own fields.
#[derive(Clone, Debug)]
pub struct TaskCreationV2 {
    pub task: Task,
}

impl TaskCreationV2 {
    pub fn task(&self) -> (r: &Task)
        ensures
            r@ == self.task@,
    {
        &self.task
    }
}

/// A new progress for the task under a key.
#[derive(Clone, Debug)]
pub struct ProgressUpdate {
    pub key: String,
    pub progress: TaskProgress,
}

impl ProgressUpdate {
    pub fn key(&self) -> (r: &String)
        ensures
            r@ == self.key@,
    {
        &self.key
    }

    pub fn progress(&self) -> (r: &TaskProgress)
        ensures
            *r == self.progress,
    {
        &self.progress
    }
}

/// New response data for the task under a key.
#[derive(Clone, Debug)]
pub struct ResponseDataUpdate {
    pub key: String,
    pub response_data: String,
}

impl ResponseDataUpdate {
    pub fn key(&self) -> (r: &String)
        ensures
            r@ == self.key@,
    {
        &self.key
    }

    pub fn response_data(&self) -> (r: &String)
        ensures
            r@ == self.response_data@,
    {
        &self.response_data
    }
}

/// The key of one task.
#[derive(Clone, Debug)]
pub struct TaskID {
    pub key: String,
}

impl TaskID {
    pub fn key(&self) -> (r: &String)
        ensures
            r@ == self.key@,
    {
        &self.key
    }
}

/// The query of a task listing.
#[derive(Clone, Debug)]
pub struct TaskListQuery {
    pub user_id: Option<String>,
}

impl TaskListQuery {
    pub fn user_id(&self) -> (r: &Option<String>)
        ensures
            *r == self.user_id,
    {
        &self.user_id
    }
}

} // verus!
