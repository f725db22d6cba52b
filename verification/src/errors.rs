//! Errors and plain answers of the HTTP layer.
use vstd::prelude::*;
use vstd::string::*;

use crate::storage::error::{storage_error_text, StorageError};

verus! {

/// The error type of `serde_json`.
#[verifier::external_type_specification]
#[verifier::external_body]
pub struct ExSerdeJsonError(serde_json::Error);

/// The error type of `reqwest`.
#[verifier::external_type_specification]
#[verifier::external_body]
pub struct ExRequestError(reqwest::Error);

/// The HTTP status 200 OK.
pub const OK: u16 = 200;

/// The HTTP status 201 Created.
pub const CREATED: u16 = 201;

/// The HTTP status 400 Bad Request.
pub const BAD_REQUEST: u16 = 400;

/// The HTTP status 500 Internal Server Error.
pub const INTERNAL_SERVER_ERROR: u16 = 500;

/// What a request of the service can fail with.
#[derive(Clone, Debug)]
pub enum ServerError {
    RedisError(String),
    SerdeError(String),
    Unavailable(String),
    RuntimeError(String),
    IvalidKeyFormat(String),
}

/// The text that each error carries.
pub open spec fn server_error_detail(e: ServerError) -> Seq<char> {
    match e {
        ServerError::RedisError(m) => m@,
        ServerError::SerdeError(m) => m@,
        ServerError::Unavailable(m) => m@,
        ServerError::RuntimeError(m) => m@,
        ServerError::IvalidKeyFormat(m) => m@,
    }
}

/// The HTTP status that each error is answered with: a malformed key is the
/// client's fault, everything else the server's.
pub open spec fn server_error_status(e: ServerError) -> u16 {
    match e {
        ServerError::IvalidKeyFormat(_) => BAD_REQUEST,
        _ => INTERNAL_SERVER_ERROR,
    }
}

/// The text that each error displays.
pub open spec fn server_error_text(e: ServerError) -> Seq<char> {
    match e {
        ServerError::RedisError(m) => "cache component error: "@ + m@,
        ServerError::SerdeError(m) => "failed to (de)serialize object: "@ + m@,
        ServerError::Unavailable(m) => "continues executing: "@ + m@,
        ServerError::RuntimeError(m) => "unexpected runtime error: "@ + m@,
        ServerError::IvalidKeyFormat(m) => "invalid key format: "@ + m@,
    }
}

impl ServerError {
    /// The message and the HTTP status with which the error is answered.
    pub fn status_code(&self) -> (r: (String, u16))
        ensures
            r.0@ == server_error_detail(*self),
            r.1 == server_error_status(*self),
    {
        match self {
            ServerError::RedisError(msg) => (msg.clone(), INTERNAL_SERVER_ERROR),
            ServerError::SerdeError(msg) => (msg.clone(), INTERNAL_SERVER_ERROR),
            ServerError::Unavailable(msg) => (msg.clone(), INTERNAL_SERVER_ERROR),
            ServerError::RuntimeError(msg) => (msg.clone(), INTERNAL_SERVER_ERROR),
            ServerError::IvalidKeyFormat(msg) => (msg.clone(), BAD_REQUEST),
        }
    }

    /// The text of the error, as it is shown to users.
    pub fn message(&self) -> (r: String)
        ensures
            r@ == server_error_text(*self),
    {
        match self {
            ServerError::RedisError(m) => String::from_str("cache component error: ").concat(
                m.as_str(),
            ),
            ServerError::SerdeError(m) => String::from_str(
                "failed to (de)serialize object: ",
            ).concat(m.as_str()),
            ServerError::Unavailable(m) => String::from_str("continues executing: ").concat(
                m.as_str(),
            ),
            ServerError::RuntimeError(m) => String::from_str("unexpected runtime error: ").concat(
                m.as_str(),
            ),
            ServerError::IvalidKeyFormat(m) => String::from_str("invalid key format: ").concat(
                m.as_str(),
            ),
        }
    }
}

impl ServerError {
    /// A (de)serialization failure, carrying the text that `serde_json`
    /// displays for it.
    pub fn from_serde_error(err: serde_json::Error) -> (r: Self)
        ensures
            r matches ServerError::SerdeError(m) && to_string_from_display_ensures::<
                serde_json::Error,
            >(&err, m),
    {
        ServerError::SerdeError(err.to_string())
    }

    /// A failed outgoing request, carrying the text that `reqwest` displays
    /// for it.
    pub fn from_request_error(err: reqwest::Error) -> (r: Self)
        ensures
            r matches ServerError::RuntimeError(m) && to_string_from_display_ensures::<
                reqwest::Error,
            >(&err, m),
    {
        ServerError::RuntimeError(err.to_string())
    }

    /// A store failure reaches the client as a cache component error that
    /// carries the store's own text.
    pub fn from_storage_error(err: StorageError) -> (r: Self)
        ensures
            r matches ServerError::RedisError(m) && m@ == storage_error_text(err@),
    {
        ServerError::RedisError(err.message())
    }
}

/// The body of an error answer.
#[derive(Clone, Debug)]
pub struct ErrorResponse {
    pub code: u16,
    pub error: String,
    pub message: String,
}

impl ErrorResponse {
    pub fn new(code: u16, err: &str, msg: &str) -> (r: Self)
        ensures
            r.code == code,
            r.error@ == err@,
            r.message@ == msg@,
    {
        ErrorResponse { code, error: err.to_owned(), message: msg.to_owned() }
    }
}

/// The body of a successful answer that carries no data.
#[derive(Clone, Debug)]
pub struct Successful {
    pub code: u16,
    pub message: String,
}

impl Default for Successful {
    fn default() -> (r: Self)
        ensures
            r.code == OK,
            r.message@ == "ok"@,
    {
        Successful::new(OK, "ok")
    }
}

impl Successful {
    pub fn new(code: u16, msg: &str) -> (r: Self)
        ensures
            r.code == code,
            r.message@ == msg@,
    {
        let message = msg.to_owned();
        Successful { code, message }
    }

    pub fn code(&self) -> (r: u16)
        ensures
            r == self.code,
    {
        self.code
    }

    pub fn message(&self) -> (r: &String)
        ensures
            r@ == self.message@,
    {
        &self.message
    }
}

/// The operations of the HTTP API.
#[derive(Clone, Copy, Debug, PartialEq, Eq, Structural)]
pub enum Operation {
    CreateTask,
    CreateTaskV2,
    GetTask,
    ListTasks,
    UpdateProgress,
    UpdateResponseData,
    DeleteTask,
}

/// The status with which each operation answers when it succeeds: creating
/// a task with a key, and deleting a task, answer 201 Created; the others
/// answer 200 OK.
pub open spec fn success_status_of(op: Operation) -> u16 {
    match op {
        Operation::CreateTask | Operation::DeleteTask => CREATED,
        _ => OK,
    }
}

/// The HTTP status of a successful answer to `op`.
pub fn success_status(op: Operation) -> (r: u16)
    ensures
        r == success_status_of(op),
{
    match op {
        Operation::CreateTask | Operation::DeleteTask => CREATED,
        _ => OK,
    }
}

} // verus!
