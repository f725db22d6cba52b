use vstd::prelude::*;

verus! {

/// Where the Redis store is and how long it keeps a task, in seconds.
#[derive(Clone, Debug)]
pub struct RedisConfig {
    pub address: String,
    pub expired: u64,
}

impl RedisConfig {
    pub fn new(address: String, expired: u64) -> (r: Self)
        ensures
            r.address@ == address@,
            r.expired == expired,
    {
        RedisConfig { address, expired }
    }

    pub fn address(&self) -> (r: &String)
        ensures
            r@ == self.address@,
    {
        &self.address
    }

    pub fn expired(&self) -> (r: u64)
        ensures
            r == self.expired,
    {
        self.expired
    }
}

} // verus!
