use vstd::prelude::*;

verus! {

/// Rejection of a configuration as a whole: no partial pool or driver is ever
/// built from bad configuration.
#[derive(Debug, Clone, Copy, PartialEq, Eq, Structural)]
pub enum ConfigError {
    /// Two accounts in one pool (or in pools being merged) share an index key.
    DuplicateIndexKey,
}

/// A request-level failure, local to one account or driver; it never aborts
/// the registry or the other drivers.
#[derive(Debug, Clone, Copy, PartialEq, Eq, Structural)]
pub enum RequestError {
    /// The requested account index is absent from the pool.
    AccountNotFound,
    /// The requested driver identifier is absent from the registry.
    DriverNotFound,
    /// An upstream provider call failed; the caller may retry.
    Provider,
    /// The cache entry was locked by an in-flight fetch and the caller's wait
    /// policy expired; the caller may retry.
    CacheLockTimeout,
}

} // verus!
