//! A cache-aside decorator over a remote key-value cache service.
//!
//! The library holds the decisions: how a cache key is derived from a call's
//! serialized input, which request each operation sends, how each reply of the
//! service is classified, and the order of lookup, computation and store
//! around a miss. The transport that carries a request is left to the caller.

pub mod cache;
pub mod client;
pub mod error;
pub mod key;
pub mod options;
pub mod service;

pub use cache::Cache;
pub use error::CacheError;
pub use options::CacheOptions;

use vstd::prelude::*;

verus! {

/// A cache over the service that `options` names.
pub fn create_cache(options: CacheOptions) -> (cache: Cache)
    ensures
        cache.spec_client().spec_options() == options,
{
    Cache::new(options)
}

} // verus!
