//! The HTTP and WebSocket side of the service: configuration, request
//! bodies, and the decisions that the handlers take.
pub mod config;
pub mod models;
pub mod router;
pub mod socket;
pub mod swagger;
