use vstd::prelude::*;

verus! {

/// Where the HTTP server listens.
#[derive(Clone, Debug)]
pub struct ServerConfig {
    pub address: String,
}

impl ServerConfig {
    pub fn new(address: String) -> (r: Self)
        ensures
            r.address@ == address@,
    {
        ServerConfig { address }
    }

    pub fn address(&self) -> (r: &String)
        ensures
            r@ == self.address@,
    {
        &self.address
    }
}

} // verus!
