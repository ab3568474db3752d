use vstd::prelude::*;
use crate::error::PlanError;

verus! {

/// The version of a region: bumped on membership changes and on splits or merges.
#[derive(Clone, Copy, Debug, PartialEq, Eq, Structural)]
pub struct RegionEpoch {
    pub conf_ver: u64,
    pub version: u64,
}

/// The routing context a request carries so that it reaches the node that
/// currently serves its region.
#[derive(Clone, Copy, Debug, PartialEq, Eq, Structural)]
pub struct Context {
    pub region_id: u64,
    pub epoch: RegionEpoch,
    pub peer_store_id: u64,
}

/// What routing knows of one region.
#[derive(Clone, Copy, Debug, PartialEq, Eq, Structural)]
pub struct Region {
    pub id: u64,
    pub epoch: Option<RegionEpoch>,
    /// The store that holds the region's leader peer, if one is known.
    pub leader_store_id: Option<u64>,
}

/// The routing context of a region, or why none can be built.
pub open spec fn region_context(r: Region) -> Result<Context, PlanError> {
    match r.leader_store_id {
        None => Err(PlanError::LeaderNotFound { region_id: r.id }),
        Some(store_id) => match r.epoch {
            None => Err(PlanError::MissingRegionEpoch { region_id: r.id }),
            Some(epoch) => Ok(Context { region_id: r.id, epoch, peer_store_id: store_id }),
        },
    }
}

impl Region {
    /// Builds the routing context that targets this region's leader.
    pub fn context(&self) -> (r: Result<Context, PlanError>)
        ensures
            r == region_context(*self),
    {
        match self.leader_store_id {
            None => Err(PlanError::LeaderNotFound { region_id: self.id }),
            Some(store_id) => match self.epoch {
                None => Err(PlanError::MissingRegionEpoch { region_id: self.id }),
                Some(epoch) => Ok(Context { region_id: self.id, epoch, peer_store_id: store_id }),
            },
        }
    }
}

/// A region together with a client handle to the node believed to serve it.
pub struct Store<C> {
    pub region: Region,
    pub client: C,
}

} // verus!
