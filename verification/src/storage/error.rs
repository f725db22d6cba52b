//! Errors of the task store.
use vstd::prelude::*;
use vstd::string::*;

verus! {

/// The result of a store operation that hands back a value.
pub type StorageResult<T> = Result<T, StorageError>;

/// The result of a store operation that only succeeds or fails.
pub type SubmitResult = Result<(), StorageError>;

/// What can go wrong in the task store.
#[derive(Clone, Debug)]
pub enum StorageError {
    ServiceUnavailable(String),
    ClientNotFound(String),
    TaskNotFound(String),
    AnotherError(String),
    KeyNotFound(String),
}

/// The mathematical value of a `StorageError`.
pub enum StorageErrorView {
    ServiceUnavailable(Seq<char>),
    ClientNotFound(Seq<char>),
    TaskNotFound(Seq<char>),
    AnotherError(Seq<char>),
    KeyNotFound(Seq<char>),
}

impl View for StorageError {
    type V = StorageErrorView;

    open spec fn view(&self) -> StorageErrorView {
        match self {
            StorageError::ServiceUnavailable(m) => StorageErrorView::ServiceUnavailable(m@),
            StorageError::ClientNotFound(m) => StorageErrorView::ClientNotFound(m@),
            StorageError::TaskNotFound(m) => StorageErrorView::TaskNotFound(m@),
            StorageError::AnotherError(m) => StorageErrorView::AnotherError(m@),
            StorageError::KeyNotFound(m) => StorageErrorView::KeyNotFound(m@),
        }
    }
}

/// The text that an error displays.
pub open spec fn storage_error_text(e: StorageErrorView) -> Seq<char> {
    match e {
        StorageErrorView::ServiceUnavailable(_) => "Service unavailable"@,
        StorageErrorView::ClientNotFound(m) => "Client not found: "@ + m,
        StorageErrorView::TaskNotFound(m) => "Task not found: "@ + m,
        StorageErrorView::AnotherError(m) => "Another Error: "@ + m,
        StorageErrorView::KeyNotFound(m) => "Key "@ + m + " not found"@,
    }
}

impl StorageError {
    /// The text of the error, as it is shown to users.
    pub fn message(&self) -> (r: String)
        ensures
            r@ == storage_error_text(self@),
    {
        match self {
            StorageError::ServiceUnavailable(_) => String::from_str("Service unavailable"),
            StorageError::ClientNotFound(m) => String::from_str("Client not found: ").concat(
                m.as_str(),
            ),
            StorageError::TaskNotFound(m) => String::from_str("Task not found: ").concat(m.as_str()),
            StorageError::AnotherError(m) => String::from_str("Another Error: ").concat(m.as_str()),
            StorageError::KeyNotFound(m) => String::from_str("Key ").concat(m.as_str()).concat(
                " not found",
            ),
        }
    }
}

} // verus!
