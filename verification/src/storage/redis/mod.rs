//! The Redis-backed task store: its connection and the decisions that its
//! operations take between the calls to Redis.
pub mod config;
pub mod error;
pub mod listing;

use vstd::prelude::*;
use vstd::string::*;

use crate::storage::error::{StorageError, StorageErrorView, StorageResult, SubmitResult};
use crate::storage::models::{Task, TaskProgress, TaskView};
use crate::storage::redis::config::RedisConfig;
use crate::storage::redis::error::{redis_kind_of, storage_error_for};
use crate::ServiceConnect;

verus! {

/// The client handle of the Redis crate.
#[verifier::external_type_specification]
#[verifier::external_body]
pub struct ExRedisClient(redis::Client);

/// Whether `redis::Client::open` accepts `address` as connection
/// information; it only parses the address and opens no connection.
pub uninterp spec fn redis_address_accepted(address: Seq<char>) -> bool;

/// The client that `redis::Client::open` builds for an accepted address; it
/// is made from the address alone.
pub uninterp spec fn redis_client_for(address: Seq<char>) -> redis::Client;

/// Calls `redis::Client::open`, which parses the address into connection
/// information and fails when it cannot.
#[verifier::external_body]
fn open_client(address: &str) -> (r: Result<redis::Client, redis::RedisError>)
    ensures
        r is Ok <==> redis_address_accepted(address@),
        r matches Ok(c) ==> c == redis_client_for(address@),
{
    redis::Client::open(address)
}

/// The task store kept in Redis: its configuration and its client.
pub struct RedisStorage {
    pub options: RedisConfig,
    pub client: redis::Client,
}

impl ServiceConnect for RedisStorage {
    type Config = RedisConfig;

    type Error = redis::RedisError;

    type Client = RedisStorage;

    /// Sets up the store for the address of `config`; no connection is made
    /// until an operation needs one.
    fn connect(config: &RedisConfig) -> (r: Result<RedisStorage, redis::RedisError>)
        ensures
            r is Ok <==> redis_address_accepted(config.address@),
            r matches Ok(s) ==> s.options.address@ == config.address@ && s.options.expired
                == config.expired && s.client == redis_client_for(config.address@),
    {
        match open_client(config.address.as_str()) {
            Ok(client) => Ok(
                RedisStorage {
                    options: RedisConfig::new(config.address.clone(), config.expired),
                    client,
                },
            ),
            Err(e) => Err(e),
        }
    }
}

impl RedisStorage {
    pub fn options(&self) -> (r: &RedisConfig)
        ensures
            r.address@ == self.options.address@,
            r.expired == self.options.expired,
    {
        &self.options
    }

    pub fn client(&self) -> (r: &redis::Client)
        ensures
            *r == self.client,
    {
        &self.client
    }

    /// The write that stores `task` under `key`: it sets the value and gives
    /// the key the store's lifetime anew.
    pub fn write_request(&self, key: String, task: Task) -> (r: TaskWrite)
        ensures
            r.key@ == key@,
            r.task@ == task@,
            r.expire == self.options.expired,
    {
        TaskWrite { key, task, expire: self.options.expired }
    }

    /// How long a written task stays in the store, in seconds.
    pub fn expired(&self) -> (r: u64)
        ensures
            r == self.options.expired,
    {
        self.options.expired
    }
}

/// A written value that Redis refused: the key counts as not found, and the
/// error carries Redis's own text.
pub fn write_outcome(r: Result<(), redis::RedisError>) -> (o: SubmitResult)
    ensures
        o is Ok <==> r is Ok,
        r matches Err(err) ==> exists|text: String|
            to_string_from_display_ensures::<redis::RedisError>(&err, text) && (o matches Err(e)
                && e@ == StorageErrorView::KeyNotFound(text@)),
{
    match r {
        Ok(()) => Ok(()),
        Err(err) => {
            let text = err.to_string();
            let o = Err(StorageError::KeyNotFound(text));
            assert(to_string_from_display_ensures::<redis::RedisError>(&err, text));
            o
        },
    }
}

/// A read task, or the store error for the Redis failure that stopped it.
pub fn read_outcome(r: Result<Task, redis::RedisError>) -> (o: StorageResult<Task>)
    ensures
        r matches Ok(t) ==> o matches Ok(u) && u@ == t@,
        r matches Err(err) ==> o matches Err(e) && exists|text: String|
            to_string_from_display_ensures::<redis::RedisError>(&err, text) && e@
                == storage_error_for(redis_kind_of(err), text@),
{
    match r {
        Ok(t) => Ok(t),
        Err(err) => Err(StorageError::from_redis_error(&err)),
    }
}

/// The message of a delete whose key is absent.
pub open spec fn absent_key_message() -> Seq<char> {
    "Key not found"@
}

/// Before a delete: a key that exists is deleted, an absent one is refused.
pub fn delete_precheck(exists: bool) -> (r: SubmitResult)
    ensures
        r is Ok <==> exists,
        r matches Err(e) ==> e@ == StorageErrorView::KeyNotFound(absent_key_message()),
{
    if exists {
        Ok(())
    } else {
        Err(StorageError::KeyNotFound(String::from_str("Key not found")))
    }
}

/// A delete that Redis refused ends with Redis's own text.
pub fn delete_outcome(r: Result<(), redis::RedisError>) -> (o: SubmitResult)
    ensures
        o is Ok <==> r is Ok,
        r matches Err(err) ==> exists|text: String|
            to_string_from_display_ensures::<redis::RedisError>(&err, text) && (o matches Err(e)
                && e@ == StorageErrorView::AnotherError(text@)),
{
    match r {
        Ok(()) => Ok(()),
        Err(err) => {
            let text = err.to_string();
            let o = Err(StorageError::AnotherError(text));
            assert(to_string_from_display_ensures::<redis::RedisError>(&err, text));
            o
        },
    }
}

/// A change that the store makes to a stored task: a new progress, or new
/// response data.
#[derive(Clone, Debug)]
pub enum TaskChange {
    Progress(TaskProgress),
    ResponseData(String),
}

/// The mathematical value of a `TaskChange`.
pub enum TaskChangeView {
    Progress(TaskProgress),
    ResponseData(Seq<char>),
}

impl View for TaskChange {
    type V = TaskChangeView;

    open spec fn view(&self) -> TaskChangeView {
        match self {
            TaskChange::Progress(p) => TaskChangeView::Progress(*p),
            TaskChange::ResponseData(d) => TaskChangeView::ResponseData(d@),
        }
    }
}

/// A task after a change: the changed field takes the new value, every other
/// field stays.
pub open spec fn changed(t: TaskView, c: TaskChangeView) -> TaskView {
    match c {
        TaskChangeView::Progress(p) => t.with_progress(p),
        TaskChangeView::ResponseData(d) => t.with_response_data(d),
    }
}

/// Applies a change to a task that was read from the store; the result is
/// what is written back under the same key.
pub fn apply_change(task: Task, change: TaskChange) -> (r: Task)
    ensures
        r@ == changed(task@, change@),
{
    let mut task = task;
    match change {
        TaskChange::Progress(p) => task.set_progress(p),
        TaskChange::ResponseData(d) => task.set_response_data(d),
    }
    task
}

/// A write to the store: the task to set under the key, and the seconds the
/// key is to live from now on.
#[derive(Clone, Debug)]
pub struct TaskWrite {
    pub key: String,
    pub task: Task,
    pub expire: u64,
}

/// What an update of a stored task does next.
pub enum UpdateAction {
    /// Write the changed task back.
    Write(TaskWrite),
    /// The update has ended with this result; nothing more is written.
    Done(SubmitResult),
}

/// An update of the task under a key (a new progress or new response data)
/// first reads the task. `update_after_read` decides on that read: a failed
/// read ends the update with its error and writes nothing; a task read is
/// changed and written back under the same key, with the store's lifetime
/// given anew. The result of that write is the result of the update.
pub fn update_after_read(
    store: &RedisStorage,
    key: &str,
    read: StorageResult<Task>,
    change: TaskChange,
) -> (r: UpdateAction)
    ensures
        read matches Err(e) ==> r matches UpdateAction::Done(Err(f)) && f@ == e@,
        read matches Ok(t) ==> r matches UpdateAction::Write(w) && w.key@ == key@ && w.task@
            == changed(t@, change@) && w.expire == store.options.expired,
{
    match read {
        Err(e) => UpdateAction::Done(Err(e)),
        Ok(task) => UpdateAction::Write(store.write_request(key.to_owned(), apply_change(task, change))),
    }
}

/// A change to the progress and a change to the response data can be made
/// in either order.
pub proof fn lemma_changes_of_different_fields_commute(t: TaskView, p: TaskProgress, d: Seq<char>)
    ensures
        changed(changed(t, TaskChangeView::Progress(p)), TaskChangeView::ResponseData(d))
            == changed(changed(t, TaskChangeView::ResponseData(d)), TaskChangeView::Progress(p)),
{
}

/// Of two changes to the same field, the later one is what stays.
pub proof fn lemma_later_change_wins(t: TaskView, c1: TaskChangeView, c2: TaskChangeView)
    requires
        (c1 is Progress && c2 is Progress) || (c1 is ResponseData && c2 is ResponseData),
    ensures
        changed(changed(t, c1), c2) == changed(t, c2),
{
}

/// What a change leaves to be read: the new value of the changed field, and
/// every other field as it was.
pub proof fn lemma_change_read_back(t: TaskView, c: TaskChangeView)
    ensures
        c matches TaskChangeView::Progress(p) ==> changed(t, c).progress == p,
        c matches TaskChangeView::ResponseData(d) ==> changed(t, c).response_data == d,
        changed(t, c).task_id == t.task_id,
        changed(t, c).user_id == t.user_id,
        changed(t, c).service == t.service,
        changed(t, c).created_at == t.created_at,
        changed(t, c).updated_at == t.updated_at,
{
}

} // verus!
