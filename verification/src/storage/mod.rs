//! The task store: the task model, its errors, and the Redis-backed store.
pub mod config;
pub mod error;
pub mod models;
pub mod redis;
