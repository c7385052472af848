//! Cache-integration plan rewriter.
//!
//! Walks a physical execution plan bottom-up and substitutes cache-aware
//! data sources for eligible columnar file scans, wrapping each substituted
//! subtree in an adapter that restores the original schema, so that the
//! rewritten plan is observably identical to the original.

use vstd::prelude::*;

pub mod plan;
pub mod prompt;
pub mod rewrite;
pub mod schema;
pub mod values;

verus! {

/// Policy describing how the cache is engaged for a query.
#[derive(Clone, Copy, Debug, PartialEq, Eq, Structural)]
pub enum CacheMode {
    /// Caching is switched off; no scan may be routed through the cache.
    Disabled,
    /// Column data is cached in memory in its decoded form.
    InMemory,
    /// Column data is cached both in memory and on local disk.
    Hybrid,
}

impl CacheMode {
    /// A scan may be routed through the cache only when caching is engaged.
    pub open spec fn is_engaged(self) -> bool {
        self != CacheMode::Disabled
    }
}

} // verus!
