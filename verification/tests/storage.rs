use webhook_manager::storage::redis::{update_after_read, UpdateAction};
use webhook_manager::storage::error::StorageError;
use webhook_manager::storage::models::{
    FormattedTask, Task, TaskProgress, TaskStatus, Timestamp, DEFAULT_EXPIRE, DEFAULT_TASK_ID,
};
use webhook_manager::storage::redis::config::RedisConfig;
use webhook_manager::storage::redis::error::RedisErrorKind;
use webhook_manager::storage::redis::listing::{ListingAction, ListingEvent, TaskListing};
use webhook_manager::storage::redis::{
    apply_change, delete_outcome, delete_precheck, read_outcome, write_outcome, RedisStorage,
    TaskChange,
};
use webhook_manager::ServiceConnect;

fn redis_error(kind: redis::ErrorKind, desc: &'static str) -> redis::RedisError {
    redis::RedisError::from((kind, desc))
}

fn task_for(user: &str) -> Task {
    let mut t = Task::default();
    t.user_id = user.to_string();
    t
}

#[test]
fn default_task_is_the_documented_one() {
    let t = Task::default();
    assert_eq!(t.task_id(), DEFAULT_TASK_ID);
    assert_eq!(t.task_id(), 0x96366fb0_0c0f_4671_8f3f_8a98641d11ae);
    assert_eq!(t.user_id(), "guest");
    assert_eq!(t.service(), "general");
    assert_eq!(*t.progress(), TaskProgress::default());
    assert_eq!(*t.progress().status(), TaskStatus::Pending);
    assert_eq!(t.progress().progress_bits(), 0.0f32.to_bits());
    assert_eq!(*t.created_at(), Timestamp { secs: 1748269128, nanos: 717056300 });
    assert_eq!(t.created_at(), t.updated_at());
    assert_eq!(t.response_data(), "");
}

#[test]
fn default_formatted_task_expires_in_half_an_hour() {
    let f = FormattedTask::default();
    assert_eq!(f.expire(), 1800);
    assert_eq!(DEFAULT_EXPIRE, 1800);
    assert_eq!(f.task().user_id(), "guest");
}

#[test]
fn status_names() {
    assert_eq!(TaskStatus::Pending.as_str(), "PENDING");
    assert_eq!(TaskStatus::Awaiting.as_str(), "AWAITING");
    assert_eq!(TaskStatus::Processing.as_str(), "PROCESSING");
    assert_eq!(TaskStatus::Ready.as_str(), "READY");
    assert_eq!(TaskStatus::Error.as_str(), "ERROR");
    assert_eq!(TaskStatus::Cancelled.as_str(), "CANCELLED");
    assert_eq!(TaskStatus::default(), TaskStatus::Pending);
}

#[test]
fn progress_change_replaces_only_the_progress() {
    let before = Task::default();
    let mut p = TaskProgress::default();
    p.set_progress_bits(100.0f32.to_bits());
    p.set_status(TaskStatus::Ready);
    let after = apply_change(before.clone(), TaskChange::Progress(p));
    assert_eq!(*after.progress(), p);
    assert_eq!(f32::from_bits(after.progress().progress_bits()), 100.0);
    assert_eq!(after.user_id(), before.user_id());
    assert_eq!(after.response_data(), before.response_data());
    assert_eq!(after.task_id(), before.task_id());
}

#[test]
fn response_data_change_replaces_only_the_data() {
    let data = "{\n    \"file_url\" : \"www.example.com\"\n}".to_string();
    let before = Task::default();
    let after = apply_change(before.clone(), TaskChange::ResponseData(data.clone()));
    assert_eq!(*after.response_data(), data);
    assert_eq!(after.progress(), before.progress());
    assert_eq!(after.service(), before.service());
}

#[test]
fn storage_error_messages() {
    assert_eq!(StorageError::ServiceUnavailable("Redis".into()).message(), "Service unavailable");
    assert_eq!(StorageError::ClientNotFound("x".into()).message(), "Client not found: x");
    assert_eq!(StorageError::TaskNotFound("x".into()).message(), "Task not found: x");
    assert_eq!(StorageError::AnotherError("x".into()).message(), "Another Error: x");
    assert_eq!(StorageError::KeyNotFound("k".into()).message(), "Key k not found");
}

#[test]
fn redis_failures_become_store_errors() {
    let unavailable = [
        redis::ErrorKind::Io,
        redis::ErrorKind::AuthenticationFailed,
        redis::ErrorKind::Client,
        redis::ErrorKind::ClusterConnectionNotFound,
    ];
    for kind in unavailable {
        match StorageError::from_redis_error(&redis_error(kind, "down")) {
            StorageError::ServiceUnavailable(m) => assert_eq!(m, "Redis"),
            other => panic!("unexpected {:?}", other),
        }
    }
    let not_found = [
        redis::ErrorKind::UnexpectedReturnType,
        redis::ErrorKind::Server(redis::ServerErrorKind::ExecAbort),
        redis::ErrorKind::Server(redis::ServerErrorKind::BusyLoading),
    ];
    for kind in not_found {
        match StorageError::from_redis_error(&redis_error(kind, "odd")) {
            StorageError::ClientNotFound(m) => assert_eq!(m, "client not found"),
            other => panic!("unexpected {:?}", other),
        }
    }
    let serde_err = serde_json::from_str::<u8>("x").unwrap_err();
    match StorageError::from_redis_error(&redis::RedisError::from(serde_err)) {
        StorageError::KeyNotFound(m) => assert_eq!(m, "Key not found!"),
        other => panic!("unexpected {:?}", other),
    }
    let other = redis_error(redis::ErrorKind::Parse, "bad reply");
    match StorageError::from_redis_error(&other) {
        StorageError::AnotherError(m) => assert_eq!(m, other.to_string()),
        e => panic!("unexpected {:?}", e),
    }
}

#[test]
fn redis_kinds_map_directly() {
    match StorageError::from_redis_kind(RedisErrorKind::ServerOther, "t".to_string()) {
        StorageError::AnotherError(m) => assert_eq!(m, "t"),
        e => panic!("unexpected {:?}", e),
    }
    assert!(matches!(
        StorageError::from_redis_kind(RedisErrorKind::Serialize, "t".to_string()),
        StorageError::KeyNotFound(_)
    ));
}

#[test]
fn writes_and_deletes_report_redis_text() {
    assert!(write_outcome(Ok(())).is_ok());
    let err = redis_error(redis::ErrorKind::Io, "broken pipe");
    let text = err.to_string();
    match write_outcome(Err(err)) {
        Err(StorageError::KeyNotFound(m)) => assert_eq!(m, text),
        other => panic!("unexpected {:?}", other),
    }
    assert!(delete_outcome(Ok(())).is_ok());
    let err = redis_error(redis::ErrorKind::Io, "broken pipe");
    match delete_outcome(Err(err)) {
        Err(StorageError::AnotherError(m)) => assert_eq!(m, text),
        other => panic!("unexpected {:?}", other),
    }
}

#[test]
fn delete_of_absent_key_is_refused() {
    assert!(delete_precheck(true).is_ok());
    match delete_precheck(false) {
        Err(StorageError::KeyNotFound(m)) => assert_eq!(m, "Key not found"),
        other => panic!("unexpected {:?}", other),
    }
}

#[test]
fn reads_pass_tasks_and_map_failures() {
    let t = read_outcome(Ok(Task::default())).unwrap();
    assert_eq!(t.user_id(), "guest");
    match read_outcome(Err(redis_error(redis::ErrorKind::Io, "down"))) {
        Err(StorageError::ServiceUnavailable(_)) => {}
        other => panic!("unexpected {:?}", other),
    }
}

#[test]
fn connect_accepts_redis_urls() {
    let config = RedisConfig::new("redis://127.0.0.1:6379".to_string(), 1800);
    let store = RedisStorage::connect(&config).unwrap();
    assert_eq!(store.expired(), 1800);
    assert_eq!(store.options().address(), "redis://127.0.0.1:6379");
    let bad = RedisConfig::new("no such scheme".to_string(), 5);
    assert!(RedisStorage::connect(&bad).is_err());
}

fn keys(ks: &[&str]) -> Vec<String> {
    ks.iter().map(|k| k.to_string()).collect()
}

#[test]
fn listing_of_no_keys_is_empty() {
    let (listing, action) = TaskListing::new(Vec::new());
    assert!(matches!(action, ListingAction::Done));
    assert!(listing.is_finished());
    assert_eq!(listing.finish().unwrap().len(), 0);
}

#[test]
fn listing_skips_unreadable_tasks_and_keeps_key_order() {
    let (mut listing, action) = TaskListing::new(keys(&["u:s:1", "u:s:2", "u:s:3"]));
    match action {
        ListingAction::ReadTask(k) => assert_eq!(k, "u:s:1"),
        _ => panic!(),
    }
    match listing.step(ListingEvent::TaskRead(Ok(task_for("one")))) {
        ListingAction::ReadTtl(k) => assert_eq!(k, "u:s:1"),
        _ => panic!(),
    }
    match listing.step(ListingEvent::TtlRead(Ok(100))) {
        ListingAction::ReadTask(k) => assert_eq!(k, "u:s:2"),
        _ => panic!(),
    }
    match listing.step(ListingEvent::TaskRead(Err(StorageError::KeyNotFound("x".into())))) {
        ListingAction::ReadTask(k) => assert_eq!(k, "u:s:3"),
        _ => panic!(),
    }
    listing.step(ListingEvent::TaskRead(Ok(task_for("three"))));
    assert!(matches!(listing.step(ListingEvent::TtlRead(Ok(7))), ListingAction::Done));
    assert!(listing.is_finished());
    let tasks = listing.finish().unwrap();
    assert_eq!(tasks.len(), 2);
    assert_eq!(tasks[0].task().user_id(), "one");
    assert_eq!(tasks[0].expire(), 100);
    assert_eq!(tasks[1].task().user_id(), "three");
    assert_eq!(tasks[1].expire(), 7);
}

#[test]
fn listing_of_two_readable_tasks_lists_both() {
    let (mut listing, _) = TaskListing::new(keys(&["u:s:a", "u:s:b"]));
    listing.step(ListingEvent::TaskRead(Ok(Task::default())));
    listing.step(ListingEvent::TtlRead(Ok(1800)));
    listing.step(ListingEvent::TaskRead(Ok(Task::default())));
    listing.step(ListingEvent::TtlRead(Ok(1799)));
    assert_eq!(listing.finish().unwrap().len(), 2);
}

#[test]
fn listing_ends_on_a_lifetime_failure() {
    let (mut listing, _) = TaskListing::new(keys(&["u:s:a", "u:s:b"]));
    listing.step(ListingEvent::TaskRead(Ok(Task::default())));
    let action = listing.step(ListingEvent::TtlRead(Err(StorageError::AnotherError("ttl".into()))));
    assert!(matches!(action, ListingAction::Done));
    assert!(listing.is_finished());
    match listing.finish() {
        Err(StorageError::AnotherError(m)) => assert_eq!(m, "ttl"),
        other => panic!("unexpected {:?}", other.map(|v| v.len())),
    }
}

#[test]
fn progress_and_data_changes_commute_and_later_wins() {
    let p = TaskProgress::new(TaskStatus::Processing, 0.5f32.to_bits());
    let q = TaskProgress::new(TaskStatus::Ready, 1.0f32.to_bits());
    let a = apply_change(
        apply_change(Task::default(), TaskChange::Progress(p)),
        TaskChange::ResponseData("d".into()),
    );
    let b = apply_change(
        apply_change(Task::default(), TaskChange::ResponseData("d".into())),
        TaskChange::Progress(p),
    );
    assert_eq!(a.progress(), b.progress());
    assert_eq!(a.response_data(), b.response_data());
    let c = apply_change(apply_change(Task::default(), TaskChange::Progress(p)), TaskChange::Progress(q));
    assert_eq!(*c.progress(), q);
}

fn store() -> RedisStorage {
    RedisStorage::connect(&RedisConfig::new("redis://127.0.0.1:6379".to_string(), 900)).unwrap()
}

#[test]
fn writes_carry_the_store_lifetime() {
    let w = store().write_request("u:s:t".to_string(), Task::default());
    assert_eq!(w.key, "u:s:t");
    assert_eq!(w.expire, 900);
    assert_eq!(w.task.user_id(), "guest");
}

#[test]
fn update_writes_back_the_changed_task() {
    let p = TaskProgress::new(TaskStatus::Ready, 1.0f32.to_bits());
    match update_after_read(&store(), "u:s:t", Ok(Task::default()), TaskChange::Progress(p)) {
        UpdateAction::Write(w) => {
            assert_eq!(w.key, "u:s:t");
            assert_eq!(*w.task.progress(), p);
            assert_eq!(w.task.user_id(), "guest");
            assert_eq!(w.expire, 900);
        }
        UpdateAction::Done(_) => panic!("expected a write"),
    }
}

#[test]
fn update_after_failed_read_writes_nothing() {
    let read = Err(StorageError::AnotherError("nil".into()));
    match update_after_read(&store(), "u:s:t", read, TaskChange::ResponseData("d".into())) {
        UpdateAction::Done(Err(StorageError::AnotherError(m))) => assert_eq!(m, "nil"),
        _ => panic!("expected the read error"),
    }
}
