//! A content and metadata caching layer over an object store: the range
//! partitioning, the chunk reader's decisions, the cache keys and the
//! metadata codec, each with its contract.
use vstd::prelude::*;

pub mod chunk;
pub mod error;
pub mod keys;
pub mod metadata;
pub mod partition;
pub mod range;
pub mod reader;
pub mod stat;

verus! {

/// The strategy of content cache.
#[derive(Debug, Clone, Copy, PartialEq, Eq, Structural)]
pub enum CacheStrategy {
    /// Always cache the whole object content.
    Whole,
    /// Cache the object content in parts with fixed size.
    Fixed(u64),
}

impl CacheStrategy {
    /// A fixed step is never zero.
    pub open spec fn wf(&self) -> bool {
        self matches CacheStrategy::Fixed(step) ==> step > 0
    }
}

/// Adds content and metadata caching in front of an origin store, using
/// `cache` as the cache store.
#[derive(Debug, Clone)]
pub struct CacheLayer<C> {
    pub cache: C,
    pub strategy: CacheStrategy,
}

impl<C> CacheLayer<C> {
    pub open spec fn wf(&self) -> bool {
        self.strategy.wf()
    }

    /// Create a new cache layer.
    pub fn new(cache: C, strategy: CacheStrategy) -> (r: Self)
        requires
            strategy.wf(),
        ensures
            r.wf(),
            r.cache == cache,
            r.strategy == strategy,
    {
        CacheLayer { cache, strategy }
    }

    pub fn strategy(&self) -> (r: CacheStrategy)
        ensures
            r == self.strategy,
    {
        self.strategy
    }
}

} // verus!
