use vstd::prelude::*;
use std::marker::PhantomData;
use std::sync::Arc;
use crate::backoff::Backoff;
use crate::error::PlanError;
use crate::plan::{
    share, DefaultProcessor, Dispatch, ExtractError, Merge, MergeResponse, MultiRegion, Plan,
    Process, ProcessResponse, ResolveLock, RetryRegion, Shardable,
};
use crate::region::{region_context, Store};
use crate::request::{HasError, HasLocks, KvRequest, SingleKey};

verus! {

/// Builder type for plans. The phase `Ph` records whether the plan has been bound
/// to its target or targets; only a bound builder hands its plan out.
pub struct PlanBuilder<PdC, P, Ph: PlanBuilderPhase> {
    pd_client: Arc<PdC>,
    plan: P,
    phantom: PhantomData<Ph>,
}

/// Used to ensure that a plan has a designated target or targets, a target being
/// a particular storage node.
pub trait PlanBuilderPhase {}

/// The phase of a builder whose plan is not bound to any node yet.
pub struct NoTarget;

impl PlanBuilderPhase for NoTarget {}

/// The phase of a builder whose plan is bound to its node or nodes.
pub struct Targetted;

impl PlanBuilderPhase for Targetted {}

impl<PdC, P, Ph: PlanBuilderPhase> PlanBuilder<PdC, P, Ph> {
    /// The plan assembled so far.
    pub closed spec fn plan_of(&self) -> P {
        self.plan
    }

    /// The shared routing and coordination handle.
    pub closed spec fn pd_of(&self) -> PdC {
        *self.pd_client
    }
}

impl<PdC, Req: KvRequest, C> PlanBuilder<PdC, Dispatch<Req, C>, NoTarget> {
    /// A builder around a dispatch of `request` that is bound to no node.
    pub fn new(pd_client: Arc<PdC>, request: Req) -> (r: Self)
        ensures
            r.plan_of() == (Dispatch::<Req, C> { request, kv_client: None }),
            r.pd_of() == *pd_client,
    {
        PlanBuilder { pd_client, plan: Dispatch { request, kv_client: None }, phantom: PhantomData }
    }
}

impl<PdC, P: Plan> PlanBuilder<PdC, P, Targetted> {
    /// Return the built plan; this can only be called once the plan has a target.
    pub fn plan(self) -> (r: P)
        ensures
            r == self.plan_of(),
    {
        self.plan
    }
}

impl<PdC, P: Plan, Ph: PlanBuilderPhase> PlanBuilder<PdC, P, Ph> {
    /// If there is a lock error, then resolve the lock and retry the request.
    pub fn resolve_lock(self, backoff: Backoff) -> (r: PlanBuilder<PdC, ResolveLock<P, PdC>, Ph>)
        where
            P::Result: HasLocks,
        ensures
            r.plan_of().inner == self.plan_of(),
            r.plan_of().backoff == backoff,
            *r.plan_of().pd_client == self.pd_of(),
            r.pd_of() == self.pd_of(),
    {
        PlanBuilder {
            pd_client: share(&self.pd_client),
            plan: ResolveLock { inner: self.plan, backoff, pd_client: self.pd_client },
            phantom: PhantomData,
        }
    }

    /// If there is a region error, refresh the region's routing, then retry.
    ///
    /// This plan must wrap a multi-region plan if the request should be re-sharded.
    pub fn retry_region(self, backoff: Backoff) -> (r: PlanBuilder<PdC, RetryRegion<P, PdC>, Ph>)
        where
            P::Result: HasError,
        ensures
            r.plan_of().inner == self.plan_of(),
            r.plan_of().backoff == backoff,
            *r.plan_of().pd_client == self.pd_of(),
            r.pd_of() == self.pd_of(),
    {
        PlanBuilder {
            pd_client: share(&self.pd_client),
            plan: RetryRegion { inner: self.plan, backoff, pd_client: self.pd_client },
            phantom: PhantomData,
        }
    }

    /// Merge the results of a request. Usually used where a request is sent to
    /// multiple regions, to combine the responses from each region.
    pub fn merge<In, M: Merge<In>>(self, merge: M) -> (r: PlanBuilder<
        PdC,
        MergeResponse<P, In, M>,
        Ph,
    >)
        where
            P: Plan<Result = Vec<Result<In, PlanError>>>,
        ensures
            r.plan_of().inner == self.plan_of(),
            r.plan_of().merge == merge,
            r.pd_of() == self.pd_of(),
    {
        PlanBuilder {
            pd_client: self.pd_client,
            plan: MergeResponse { inner: self.plan, merge, phantom: PhantomData },
            phantom: PhantomData,
        }
    }

    /// Apply the default processing step to a response (usually only needed if the
    /// request is sent to a single region, because post-processing can be
    /// incorporated in the merge step for multi-region requests).
    pub fn post_process_default<In>(self) -> (r: PlanBuilder<
        PdC,
        ProcessResponse<P, In, DefaultProcessor>,
        Ph,
    >)
        where
            P: Plan<Result = In>,
            DefaultProcessor: Process<In>,
        ensures
            r.plan_of().inner == self.plan_of(),
            r.pd_of() == self.pd_of(),
    {
        PlanBuilder {
            pd_client: self.pd_client,
            plan: ProcessResponse { inner: self.plan, processor: DefaultProcessor, phantom: PhantomData },
            phantom: PhantomData,
        }
    }
}

impl<PdC, P: Plan + Shardable> PlanBuilder<PdC, P, NoTarget> where P::Result: HasError {
    /// Split the request into shards, sending a request to the region of each
    /// shard.
    pub fn multi_region(self) -> (r: PlanBuilder<PdC, MultiRegion<P, PdC>, Targetted>)
        ensures
            r.plan_of().inner == self.plan_of(),
            *r.plan_of().pd_client == self.pd_of(),
            r.pd_of() == self.pd_of(),
    {
        PlanBuilder {
            pd_client: share(&self.pd_client),
            plan: MultiRegion { inner: self.plan, pd_client: self.pd_client },
            phantom: PhantomData,
        }
    }
}

impl<PdC, R: KvRequest + SingleKey, C> PlanBuilder<PdC, Dispatch<R, C>, NoTarget> {
    /// The key whose store the request must be sent to.
    pub fn key(&self) -> (r: &Vec<u8>)
        ensures
            r == self.plan_of().request.key_of(),
    {
        self.plan.request.key()
    }

    /// Target the request at the single region that routing resolved for its key;
    /// a failed resolution is handed back as the error.
    pub fn single_region(self, resolved: Result<Store<C>, PlanError>) -> (r: Result<
        PlanBuilder<PdC, Dispatch<R, C>, Targetted>,
        PlanError,
    >)
        ensures
            match resolved {
                Err(e) => r == Err::<PlanBuilder<PdC, Dispatch<R, C>, Targetted>, PlanError>(e),
                Ok(store) => bound_to_store(self, store, r),
            },
    {
        match resolved {
            Err(e) => Err(e),
            Ok(store) => set_single_region_store(self.plan, store, self.pd_client),
        }
    }
}

impl<PdC, R: KvRequest, C> PlanBuilder<PdC, Dispatch<R, C>, NoTarget> {
    /// Target the request at a single region; the caller supplies the store.
    pub fn single_region_with_store(self, store: Store<C>) -> (r: Result<
        PlanBuilder<PdC, Dispatch<R, C>, Targetted>,
        PlanError,
    >)
        ensures
            bound_to_store(self, store, r),
    {
        set_single_region_store(self.plan, store, self.pd_client)
    }
}

impl<PdC, P: Plan> PlanBuilder<PdC, P, Targetted> where P::Result: HasError {
    /// Turn an error carried in the result into the plan's failure.
    pub fn extract_error(self) -> (r: PlanBuilder<PdC, ExtractError<P>, Targetted>)
        ensures
            r.plan_of().inner == self.plan_of(),
            r.pd_of() == self.pd_of(),
    {
        PlanBuilder { pd_client: self.pd_client, plan: ExtractError { inner: self.plan }, phantom: self.phantom }
    }
}

/// Whether `r` is what binding the dispatch of builder `b` to `store` yields: the
/// region's routing error, or a bound builder whose request carries the region's
/// routing context and whose dispatch holds the store's client.
pub open spec fn bound_to_store<PdC, R: KvRequest, C>(
    b: PlanBuilder<PdC, Dispatch<R, C>, NoTarget>,
    store: Store<C>,
    r: Result<PlanBuilder<PdC, Dispatch<R, C>, Targetted>, PlanError>,
) -> bool {
    match region_context(store.region) {
        Err(e) => r == Err::<PlanBuilder<PdC, Dispatch<R, C>, Targetted>, PlanError>(e),
        Ok(ctx) => r is Ok && r->Ok_0.plan_of().request.routing() == Some(ctx)
            && r->Ok_0.plan_of().kv_client == Some(store.client) && r->Ok_0.pd_of() == b.pd_of(),
    }
}

/// Binds `plan` to `store`: sets the request's routing context from the store's
/// region and hands the dispatch the store's client.
pub fn set_single_region_store<PdC, R: KvRequest, C>(
    plan: Dispatch<R, C>,
    store: Store<C>,
    pd_client: Arc<PdC>,
) -> (r: Result<PlanBuilder<PdC, Dispatch<R, C>, Targetted>, PlanError>)
    ensures
        match region_context(store.region) {
            Err(e) => r == Err::<PlanBuilder<PdC, Dispatch<R, C>, Targetted>, PlanError>(e),
            Ok(ctx) => r is Ok && r->Ok_0.plan_of().request.routing() == Some(ctx)
                && r->Ok_0.plan_of().kv_client == Some(store.client) && r->Ok_0.pd_of() == *pd_client,
        },
{
    let mut plan = plan;
    let ctx = match store.region.context() {
        Ok(ctx) => ctx,
        Err(e) => return Err(e),
    };
    plan.request.set_context(ctx);
    plan.kv_client = Some(store.client);
    Ok(PlanBuilder { plan, pd_client, phantom: PhantomData })
}

} // verus!
