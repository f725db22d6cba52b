use vstd::prelude::*;

use crate::storage::redis::config::RedisConfig;

verus! {

/// The configuration of the task store.
#[derive(Clone, Debug)]
pub struct StorageConfig {
    pub redis: RedisConfig,
}

impl StorageConfig {
    pub fn new(redis: RedisConfig) -> (r: Self)
        ensures
            r.redis.address@ == redis.address@,
            r.redis.expired == redis.expired,
    {
        StorageConfig { redis }
    }

    pub fn redis(&self) -> (r: &RedisConfig)
        ensures
            r.address@ == self.redis.address@,
            r.expired == self.redis.expired,
    {
        &self.redis
    }
}

} // verus!
