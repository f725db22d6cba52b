//! Verified core of a webhook manager: a service that keeps the progress of
//! long-running user tasks in a Redis store and hands it out over HTTP and
//! WebSocket.
use vstd::prelude::*;

pub mod errors;
pub mod server;
pub mod storage;
pub mod text;

verus! {

/// A service that is reached through a client built from a configuration.
pub trait ServiceConnect {
    type Config;

    type Error;

    type Client;

    fn connect(config: &Self::Config) -> Result<Self::Client, Self::Error>;
}

} // verus!
