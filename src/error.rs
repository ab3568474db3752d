use vstd::prelude::*;

verus! {

/// Errors raised while binding, dispatching or retrying a plan.
#[derive(Clone, Copy, Debug, PartialEq, Eq, Structural)]
pub enum PlanError {
    /// Routing could not map a key to a region.
    RegionForKeyNotFound,
    /// The region has no known leader, so no routing context can be built.
    LeaderNotFound { region_id: u64 },
    /// The region carries no epoch, so its routing context is malformed.
    MissingRegionEpoch { region_id: u64 },
    /// Lock conflicts remained after the backoff was spent or the resolver gave up.
    ResolveLockError,
    /// A region error remained after the backoff was spent.
    RegionError { region_id: u64 },
    /// An application-level error that a response carried in its payload.
    KeyError { code: u32 },
    /// The transport or the decoding of a response failed.
    Transport { code: u32 },
}

} // verus!
