//! How failures of the Redis client become store errors.
use vstd::prelude::*;
use vstd::string::*;

use crate::storage::error::{StorageError, StorageErrorView};

verus! {

/// The error type of the Redis client.
#[verifier::external_type_specification]
#[verifier::external_body]
pub struct ExRedisError(redis::RedisError);

/// The kinds of Redis failure that the store tells apart; `redis::ErrorKind`
/// with the server kinds that matter spelled out and the rest folded.
#[derive(Clone, Copy, Debug, PartialEq, Eq, Structural)]
pub enum RedisErrorKind {
    Parse,
    AuthenticationFailed,
    UnexpectedReturnType,
    InvalidClientConfig,
    Io,
    Client,
    Extension,
    ClusterConnectionNotFound,
    ServerExecAbort,
    ServerBusyLoading,
    ServerOther,
    Serialize,
    Other,
}

/// The kind that `redis::RedisError::kind` gives for an error, as the store
/// tells kinds apart; it depends on the error alone.
pub uninterp spec fn redis_kind_of(err: redis::RedisError) -> RedisErrorKind;

/// Calls `redis::RedisError::kind` and names the variant it returns, one arm
/// per variant that the store tells apart.
#[verifier::external_body]
pub(crate) fn redis_error_kind(err: &redis::RedisError) -> (r: RedisErrorKind)
    ensures
        r == redis_kind_of(*err),
{
    match err.kind() {
        redis::ErrorKind::Parse => RedisErrorKind::Parse,
        redis::ErrorKind::AuthenticationFailed => RedisErrorKind::AuthenticationFailed,
        redis::ErrorKind::UnexpectedReturnType => RedisErrorKind::UnexpectedReturnType,
        redis::ErrorKind::InvalidClientConfig => RedisErrorKind::InvalidClientConfig,
        redis::ErrorKind::Io => RedisErrorKind::Io,
        redis::ErrorKind::Client => RedisErrorKind::Client,
        redis::ErrorKind::Extension => RedisErrorKind::Extension,
        redis::ErrorKind::ClusterConnectionNotFound => RedisErrorKind::ClusterConnectionNotFound,
        redis::ErrorKind::Server(redis::ServerErrorKind::ExecAbort) => RedisErrorKind::ServerExecAbort,
        redis::ErrorKind::Server(redis::ServerErrorKind::BusyLoading) => RedisErrorKind::ServerBusyLoading,
        redis::ErrorKind::Server(_) => RedisErrorKind::ServerOther,
        redis::ErrorKind::Serialize => RedisErrorKind::Serialize,
        _ => RedisErrorKind::Other,
    }
}

/// The store error for a Redis failure of kind `kind` whose text is `text`:
/// a lost connection or a refused login makes Redis unavailable, a type
/// mismatch or an aborted or loading server means the client is not found,
/// a serialisation failure means the key is not found, and anything else is
/// passed on with the failure's own text.
pub open spec fn storage_error_for(kind: RedisErrorKind, text: Seq<char>) -> StorageErrorView {
    match kind {
        RedisErrorKind::AuthenticationFailed | RedisErrorKind::Io | RedisErrorKind::Client
        | RedisErrorKind::ClusterConnectionNotFound => StorageErrorView::ServiceUnavailable(
            "Redis"@,
        ),
        RedisErrorKind::UnexpectedReturnType | RedisErrorKind::ServerExecAbort
        | RedisErrorKind::ServerBusyLoading => StorageErrorView::ClientNotFound(
            "client not found"@,
        ),
        RedisErrorKind::Serialize => StorageErrorView::KeyNotFound("Key not found!"@),
        _ => StorageErrorView::AnotherError(text),
    }
}

impl StorageError {
    /// The store error for a Redis failure of the given kind and text.
    pub fn from_redis_kind(kind: RedisErrorKind, text: String) -> (r: Self)
        ensures
            r@ == storage_error_for(kind, text@),
    {
        match kind {
            RedisErrorKind::AuthenticationFailed | RedisErrorKind::Io | RedisErrorKind::Client
            | RedisErrorKind::ClusterConnectionNotFound => StorageError::ServiceUnavailable(
                String::from_str("Redis"),
            ),
            RedisErrorKind::UnexpectedReturnType | RedisErrorKind::ServerExecAbort
            | RedisErrorKind::ServerBusyLoading => StorageError::ClientNotFound(
                String::from_str("client not found"),
            ),
            RedisErrorKind::Serialize => StorageError::KeyNotFound(String::from_str("Key not found!")),
            _ => StorageError::AnotherError(text),
        }
    }

    /// The store error for a failure of the Redis client: its kind decides,
    /// as `storage_error_for` says, and its displayed text is what an
    /// otherwise unclassified failure carries.
    pub fn from_redis_error(err: &redis::RedisError) -> (r: Self)
        ensures
            exists|text: String|
                to_string_from_display_ensures::<redis::RedisError>(err, text) && r@
                    == storage_error_for(redis_kind_of(*err), text@),
    {
        let kind = redis_error_kind(err);
        let text = err.to_string();
        let r = StorageError::from_redis_kind(kind, text);
        proof {
            assert(to_string_from_display_ensures::<redis::RedisError>(err, text) && r@
                == storage_error_for(kind, text@));
        }
        r
    }
}

} // verus!
