//! The task model kept in the store.
use vstd::prelude::*;
use vstd::string::*;

verus! {

/// The state of a task, as a service reports it.
#[derive(Clone, Copy, Debug, PartialEq, Eq, Structural)]
pub enum TaskStatus {
    Pending,
    Awaiting,
    Processing,
    Ready,
    Error,
    Cancelled,
}

impl Default for TaskStatus {
    fn default() -> (r: Self)
        ensures
            r == TaskStatus::Pending,
    {
        TaskStatus::Pending
    }
}

impl TaskStatus {
    /// The name of the status on the wire (SCREAMING_SNAKE_CASE).
    pub fn as_str(&self) -> (r: &'static str)
        ensures
            r@ == status_name(*self),
    {
        match self {
            TaskStatus::Pending => "PENDING",
            TaskStatus::Awaiting => "AWAITING",
            TaskStatus::Processing => "PROCESSING",
            TaskStatus::Ready => "READY",
            TaskStatus::Error => "ERROR",
            TaskStatus::Cancelled => "CANCELLED",
        }
    }
}

/// The wire name of each status.
pub open spec fn status_name(s: TaskStatus) -> Seq<char> {
    match s {
        TaskStatus::Pending => "PENDING"@,
        TaskStatus::Awaiting => "AWAITING"@,
        TaskStatus::Processing => "PROCESSING"@,
        TaskStatus::Ready => "READY"@,
        TaskStatus::Error => "ERROR"@,
        TaskStatus::Cancelled => "CANCELLED"@,
    }
}

/// A point in time in UTC: seconds since the Unix epoch and the nanoseconds
/// within that second.
#[derive(Clone, Copy, Debug, PartialEq, Eq, Structural)]
pub struct Timestamp {
    pub secs: i64,
    pub nanos: u32,
}

/// How far a task has come. `progress` holds the IEEE-754 bits of the
/// fraction that the service reports (an `f32`); the library only carries it.
#[derive(Clone, Copy, Debug, PartialEq, Eq, Structural)]
pub struct TaskProgress {
    pub status: TaskStatus,
    pub progress: u32,
}

impl Default for TaskProgress {
    fn default() -> (r: Self)
        ensures
            r.status == TaskStatus::Pending,
            r.progress == 0,
    {
        TaskProgress { status: TaskStatus::Pending, progress: 0 }
    }
}

impl TaskProgress {
    pub fn new(status: TaskStatus, progress_bits: u32) -> (r: Self)
        ensures
            r.status == status,
            r.progress == progress_bits,
    {
        TaskProgress { status, progress: progress_bits }
    }

    pub fn status(&self) -> (r: &TaskStatus)
        ensures
            *r == self.status,
    {
        &self.status
    }

    pub fn progress_bits(&self) -> (r: u32)
        ensures
            r == self.progress,
    {
        self.progress
    }

    pub fn set_status(&mut self, status: TaskStatus)
        ensures
            final(self).status == status,
            final(self).progress == old(self).progress,
    {
        self.status = status;
    }

    pub fn set_progress_bits(&mut self, bits: u32)
        ensures
            final(self).progress == bits,
            final(self).status == old(self).status,
    {
        self.progress = bits;
    }
}

} // verus!

verus! {

/// A task as the store keeps it. `task_id` is the UUID in its 128-bit form.
#[derive(Clone, Debug)]
pub struct Task {
    pub task_id: u128,
    pub user_id: String,
    pub service: String,
    pub progress: TaskProgress,
    pub created_at: Timestamp,
    pub updated_at: Timestamp,
    pub response_data: String,
}

/// The mathematical value of a `Task`.
pub struct TaskView {
    pub task_id: u128,
    pub user_id: Seq<char>,
    pub service: Seq<char>,
    pub progress: TaskProgress,
    pub created_at: Timestamp,
    pub updated_at: Timestamp,
    pub response_data: Seq<char>,
}

impl View for Task {
    type V = TaskView;

    open spec fn view(&self) -> TaskView {
        TaskView {
            task_id: self.task_id,
            user_id: self.user_id@,
            service: self.service@,
            progress: self.progress,
            created_at: self.created_at,
            updated_at: self.updated_at,
            response_data: self.response_data@,
        }
    }
}

impl TaskView {
    /// The same task with another progress.
    pub open spec fn with_progress(self, progress: TaskProgress) -> TaskView {
        TaskView { progress, ..self }
    }

    /// The same task with other response data.
    pub open spec fn with_response_data(self, data: Seq<char>) -> TaskView {
        TaskView { response_data: data, ..self }
    }
}

/// The id of the default task: 96366fb0-0c0f-4671-8f3f-8a98641d11ae.
pub const DEFAULT_TASK_ID: u128 = 0x96366fb0_0c0f_4671_8f3f_8a98641d11aeu128;

/// The time stamp of the default task: 2025-05-26T14:18:48.717056300Z.
pub open spec fn default_task_time() -> Timestamp {
    Timestamp { secs: 1748269128, nanos: 717056300 }
}

/// The task that `Task::default` builds.
pub open spec fn default_task() -> TaskView {
    TaskView {
        task_id: DEFAULT_TASK_ID,
        user_id: "guest"@,
        service: "general"@,
        progress: TaskProgress { status: TaskStatus::Pending, progress: 0 },
        created_at: default_task_time(),
        updated_at: default_task_time(),
        response_data: Seq::empty(),
    }
}

impl Default for Task {
    fn default() -> (r: Self)
        ensures
            r@ == default_task(),
    {
        let stamp = Timestamp { secs: 1748269128, nanos: 717056300 };
        Task {
            task_id: DEFAULT_TASK_ID,
            user_id: String::from_str("guest"),
            service: String::from_str("general"),
            progress: TaskProgress::default(),
            created_at: stamp,
            updated_at: stamp,
            response_data: String::new(),
        }
    }
}

impl Task {
    pub fn task_id(&self) -> (r: u128)
        ensures
            r == self.task_id,
    {
        self.task_id
    }

    pub fn user_id(&self) -> (r: &String)
        ensures
            r@ == self.user_id@,
    {
        &self.user_id
    }

    pub fn service(&self) -> (r: &String)
        ensures
            r@ == self.service@,
    {
        &self.service
    }

    pub fn progress(&self) -> (r: &TaskProgress)
        ensures
            *r == self.progress,
    {
        &self.progress
    }

    pub fn created_at(&self) -> (r: &Timestamp)
        ensures
            *r == self.created_at,
    {
        &self.created_at
    }

    pub fn updated_at(&self) -> (r: &Timestamp)
        ensures
            *r == self.updated_at,
    {
        &self.updated_at
    }

    pub fn response_data(&self) -> (r: &String)
        ensures
            r@ == self.response_data@,
    {
        &self.response_data
    }

    /// Replaces the progress; every other field stays.
    pub fn set_progress(&mut self, progress: TaskProgress)
        ensures
            final(self)@ == old(self)@.with_progress(progress),
    {
        self.progress = progress;
    }

    /// Replaces the response data; every other field stays.
    pub fn set_response_data(&mut self, data: String)
        ensures
            final(self)@ == old(self)@.with_response_data(data@),
    {
        self.response_data = data;
    }

    pub fn set_service(&mut self, service: String)
        ensures
            final(self)@ == (TaskView { service: service@, ..old(self)@ }),
    {
        self.service = service;
    }

    pub fn set_updated_at(&mut self, at: Timestamp)
        ensures
            final(self)@ == (TaskView { updated_at: at, ..old(self)@ }),
    {
        self.updated_at = at;
    }
}

/// A task as a listing hands it out: the task and the seconds it has left in
/// the store.
#[derive(Clone, Debug)]
pub struct FormattedTask {
    pub task: Task,
    pub expire: i64,
}

/// The mathematical value of a `FormattedTask`.
pub struct FormattedTaskView {
    pub task: TaskView,
    pub expire: i64,
}

impl View for FormattedTask {
    type V = FormattedTaskView;

    open spec fn view(&self) -> FormattedTaskView {
        FormattedTaskView { task: self.task@, expire: self.expire }
    }
}

/// The lifetime that a default `FormattedTask` reports, in seconds.
pub const DEFAULT_EXPIRE: i64 = 1800;

impl Default for FormattedTask {
    fn default() -> (r: Self)
        ensures
            r.task@ == default_task(),
            r.expire == DEFAULT_EXPIRE,
    {
        FormattedTask { expire: DEFAULT_EXPIRE, task: Task::default() }
    }
}

impl FormattedTask {
    pub fn task(&self) -> (r: &Task)
        ensures
            r@ == self.task@,
    {
        &self.task
    }

    pub fn expire(&self) -> (r: i64)
        ensures
            r == self.expire,
    {
        self.expire
    }

    pub fn set_task(&mut self, task: Task)
        ensures
            final(self).task@ == task@,
            final(self).expire == old(self).expire,
    {
        self.task = task;
    }

    pub fn set_expire(&mut self, expire: i64)
        ensures
            final(self).expire == expire,
            final(self).task@ == old(self).task@,
    {
        self.expire = expire;
    }
}

} // verus!
