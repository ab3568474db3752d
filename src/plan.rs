use vstd::prelude::*;
use std::sync::Arc;
use crate::backoff::{advanced, capped_delay, has_budget, remaining, Backoff};
use crate::error::PlanError;
use crate::region::{region_context, Context, Store};
use crate::request::{HasError, HasLocks, KvRequest, ShardableRequest};

verus! {

/// Something that can be executed to produce a `Result` or fail.
pub trait Plan {
    type Result;
}

/// What a retrying decorator does after one execution of its inner plan.
#[derive(Clone, Copy, Debug, PartialEq, Eq, Structural)]
pub enum Decision {
    /// Hand the inner plan's outcome back unchanged.
    Return,
    /// Wait `delay_ms`, then execute the inner plan again.
    Retry { delay_ms: u64 },
    /// Stop with this error.
    Fail(PlanError),
}

/// The next move of a retrying decorator, as handed to whoever drives the plan.
pub enum Step<R> {
    /// The plan is finished with this outcome.
    Done(Result<R, PlanError>),
    /// Refresh the routing of `refresh_region` if one is named, wait `delay_ms`,
    /// then execute the inner plan again.
    Retry { delay_ms: u64, refresh_region: Option<u64> },
}

/// The base plan: one request and, once bound, a handle to the node it goes to.
pub struct Dispatch<Req, C> {
    pub request: Req,
    pub kv_client: Option<C>,
}

impl<Req: KvRequest, C> Plan for Dispatch<Req, C> {
    type Result = Req::Response;
}

/// Resolves the locks an inner plan reports, then retries it under a backoff.
pub struct ResolveLock<P, PdC> {
    pub inner: P,
    pub backoff: Backoff,
    pub pd_client: Arc<PdC>,
}

impl<P: Plan, PdC> Plan for ResolveLock<P, PdC> {
    type Result = P::Result;
}

/// Retries an inner plan whose result carries a region error, after routing for
/// that region is refreshed.
pub struct RetryRegion<P, PdC> {
    pub inner: P,
    pub backoff: Backoff,
    pub pd_client: Arc<PdC>,
}

impl<P: Plan, PdC> Plan for RetryRegion<P, PdC> {
    type Result = P::Result;
}

/// The retry rule shared by both retrying decorators: retry while the backoff
/// grants an attempt, else fail with `terminal`.
pub open spec fn retry_or_fail(b: Backoff, terminal: PlanError) -> (Backoff, Decision) {
    if has_budget(b) {
        (advanced(b), Decision::Retry { delay_ms: capped_delay(b) })
    } else {
        (b, Decision::Fail(terminal))
    }
}

/// What lock resolution decides after an attempt that did (`locked`) or did not
/// report locks, given what resolving them answered (`Ok(true)`: retry is
/// warranted).
pub open spec fn lock_decision(b: Backoff, locked: bool, resolution: Result<bool, PlanError>) -> (
    Backoff,
    Decision,
) {
    if !locked {
        (b, Decision::Return)
    } else {
        match resolution {
            Err(e) => (b, Decision::Fail(e)),
            Ok(false) => (b, Decision::Fail(PlanError::ResolveLockError)),
            Ok(true) => retry_or_fail(b, PlanError::ResolveLockError),
        }
    }
}

/// What region retry decides after an attempt whose result carries `embedded`.
pub open spec fn region_decision(b: Backoff, embedded: Option<PlanError>) -> (Backoff, Decision) {
    match embedded {
        Some(PlanError::RegionError { region_id }) => retry_or_fail(
            b,
            PlanError::RegionError { region_id },
        ),
        _ => (b, Decision::Return),
    }
}

/// The step a decision turns into for the inner plan's `outcome`.
pub open spec fn step_of<R>(d: Decision, outcome: Result<R, PlanError>, refresh: Option<u64>) -> Step<
    R,
> {
    match d {
        Decision::Return => Step::Done(outcome),
        Decision::Retry { delay_ms } => Step::Retry { delay_ms, refresh_region: refresh },
        Decision::Fail(e) => Step::Done(Err(e)),
    }
}

/// The region an embedded region error names.
pub open spec fn region_of_error(e: Option<PlanError>) -> Option<u64> {
    match e {
        Some(PlanError::RegionError { region_id }) => Some(region_id),
        _ => None,
    }
}

/// A run of lock resolution against an inner plan whose attempt `i` reports locks
/// exactly when `locked(i)`, each resolution asking for a retry: the index of the
/// last attempt (which is the number of retries made) and the final decision.
pub open spec fn lock_run(b: Backoff, locked: spec_fn(nat) -> bool, attempt: nat) -> (nat, Decision)
    decreases remaining(b),
{
    let (next, d) = lock_decision(b, locked(attempt), Ok(true));
    match d {
        Decision::Retry { .. } => if remaining(next) < remaining(b) {
            lock_run(next, locked, attempt + 1)
        } else {
            (attempt, d)
        },
        _ => (attempt, d),
    }
}

/// A run of region retry against an inner plan whose attempt `i` carries
/// `embedded(i)`: the index of the last attempt and the final decision.
pub open spec fn region_run(b: Backoff, embedded: spec_fn(nat) -> Option<PlanError>, attempt: nat) -> (
    nat,
    Decision,
)
    decreases remaining(b),
{
    let (next, d) = region_decision(b, embedded(attempt));
    match d {
        Decision::Retry { .. } => if remaining(next) < remaining(b) {
            region_run(next, embedded, attempt + 1)
        } else {
            (attempt, d)
        },
        _ => (attempt, d),
    }
}

/// Lock resolution returns the first attempt that reports no locks: when attempts
/// one and two report locks, attempt three reports none and the backoff grants at
/// least two retries, exactly two retries are made and attempt three is returned.
pub proof fn lemma_lock_retries_until_clear(b: Backoff, locked: spec_fn(nat) -> bool)
    requires
        remaining(b) >= 2,
        locked(0),
        locked(1),
        !locked(2),
    ensures
        lock_run(b, locked, 0) == (2nat, Decision::Return),
{
    let b1 = advanced(b);
    let b2 = advanced(b1);
    assert(remaining(b1) == remaining(b) - 1);
    assert(remaining(b2) == remaining(b1) - 1);
    assert(lock_run(b2, locked, 2) == (2nat, Decision::Return));
    assert(lock_run(b1, locked, 1) == lock_run(b2, locked, 2));
}

proof fn lemma_lock_run_always_locked(b: Backoff, locked: spec_fn(nat) -> bool, attempt: nat)
    requires
        forall|i: nat| #[trigger] locked(i),
    ensures
        lock_run(b, locked, attempt) == (attempt + remaining(b), Decision::Fail(
            PlanError::ResolveLockError,
        )),
    decreases remaining(b),
{
    assert(locked(attempt));
    if has_budget(b) {
        assert(remaining(advanced(b)) == remaining(b) - 1);
        lemma_lock_run_always_locked(advanced(b), locked, attempt + 1);
    }
}

/// Against a plan that always reports locks, a backoff granting `n` attempts
/// yields exactly `n` retries and then a lock-conflict failure.
pub proof fn lemma_lock_retries_exhaust_budget(b: Backoff, locked: spec_fn(nat) -> bool)
    requires
        forall|i: nat| #[trigger] locked(i),
    ensures
        lock_run(b, locked, 0) == (remaining(b), Decision::Fail(PlanError::ResolveLockError)),
{
    lemma_lock_run_always_locked(b, locked, 0);
}

/// Region retry returns the first attempt that carries no region error: when
/// attempts one and two carry one, attempt three carries none and the backoff
/// grants at least two retries, exactly two retries are made and attempt three is
/// returned.
pub proof fn lemma_region_retries_until_clear(
    b: Backoff,
    embedded: spec_fn(nat) -> Option<PlanError>,
)
    requires
        remaining(b) >= 2,
        region_of_error(embedded(0)).is_some(),
        region_of_error(embedded(1)).is_some(),
        region_of_error(embedded(2)).is_none(),
    ensures
        region_run(b, embedded, 0) == (2nat, Decision::Return),
{
    let b1 = advanced(b);
    let b2 = advanced(b1);
    assert(remaining(b1) == remaining(b) - 1);
    assert(remaining(b2) == remaining(b1) - 1);
    assert(region_run(b2, embedded, 2) == (2nat, Decision::Return));
    assert(region_run(b1, embedded, 1) == region_run(b2, embedded, 2));
}

proof fn lemma_region_run_always_failing(
    b: Backoff,
    embedded: spec_fn(nat) -> Option<PlanError>,
    region_id: u64,
    attempt: nat,
)
    requires
        forall|i: nat| #[trigger] embedded(i) == Some(PlanError::RegionError { region_id }),
    ensures
        region_run(b, embedded, attempt) == (attempt + remaining(b), Decision::Fail(
            PlanError::RegionError { region_id },
        )),
    decreases remaining(b),
{
    assert(embedded(attempt) == Some(PlanError::RegionError { region_id }));
    if has_budget(b) {
        assert(remaining(advanced(b)) == remaining(b) - 1);
        lemma_region_run_always_failing(advanced(b), embedded, region_id, attempt + 1);
    }
}

/// Against a plan whose result always carries a region error for `region_id`, a
/// backoff granting `n` attempts yields exactly `n` retries and then that region
/// error as the failure.
pub proof fn lemma_region_retries_exhaust_budget(
    b: Backoff,
    embedded: spec_fn(nat) -> Option<PlanError>,
    region_id: u64,
)
    requires
        forall|i: nat| #[trigger] embedded(i) == Some(PlanError::RegionError { region_id }),
    ensures
        region_run(b, embedded, 0) == (remaining(b), Decision::Fail(
            PlanError::RegionError { region_id },
        )),
{
    lemma_region_run_always_failing(b, embedded, region_id, 0);
}

impl<P, PdC> ResolveLock<P, PdC> {
    /// Decides what follows one execution of the inner plan. `resolution` is what
    /// resolving the reported locks answered; it is read only when the outcome
    /// reports locks.
    pub fn on_attempt<R: HasLocks>(
        &mut self,
        outcome: Result<R, PlanError>,
        resolution: Result<bool, PlanError>,
    ) -> (r: Step<R>)
        ensures
            final(self).inner == old(self).inner,
            final(self).pd_client == old(self).pd_client,
            match outcome {
                Err(e) => r == Step::<R>::Done(Err(e)) && final(self).backoff == old(self).backoff,
                Ok(v) => {
                    let (b, d) = lock_decision(old(self).backoff, v.reports_locks(), resolution);
                    final(self).backoff == b && r == step_of(d, outcome, None)
                },
            },
    {
        match outcome {
            Err(e) => Step::Done(Err(e)),
            Ok(v) => {
                if !v.has_locks() {
                    return Step::Done(Ok(v));
                }
                match resolution {
                    Err(e) => Step::Done(Err(e)),
                    Ok(false) => Step::Done(Err(PlanError::ResolveLockError)),
                    Ok(true) => match self.backoff.next_delay_duration() {
                        Some(delay_ms) => Step::Retry { delay_ms, refresh_region: None },
                        None => Step::Done(Err(PlanError::ResolveLockError)),
                    },
                }
            },
        }
    }
}

impl<P, PdC> RetryRegion<P, PdC> {
    /// Decides what follows one execution of the inner plan: a result carrying a
    /// region error is retried, with that region's routing refreshed, while the
    /// backoff grants attempts; anything else is handed back unchanged.
    pub fn on_attempt<R: HasError>(&mut self, outcome: Result<R, PlanError>) -> (r: Step<R>)
        ensures
            final(self).inner == old(self).inner,
            final(self).pd_client == old(self).pd_client,
            match outcome {
                Err(e) => r == Step::<R>::Done(Err(e)) && final(self).backoff == old(self).backoff,
                Ok(v) => {
                    let (b, d) = region_decision(old(self).backoff, v.embedded_error());
                    final(self).backoff == b && r == step_of(
                        d,
                        outcome,
                        region_of_error(v.embedded_error()),
                    )
                },
            },
    {
        match outcome {
            Err(e) => Step::Done(Err(e)),
            Ok(v) => match v.error() {
                Some(PlanError::RegionError { region_id }) => match self.backoff.next_delay_duration() {
                    Some(delay_ms) => Step::Retry { delay_ms, refresh_region: Some(region_id) },
                    None => Step::Done(Err(PlanError::RegionError { region_id })),
                },
                _ => Step::Done(Ok(v)),
            },
        }
    }
}

} // verus!

verus! {

/// Relies on `Arc::clone`: a second handle to the same shared value.
#[verifier::external_body]
pub(crate) fn share<T>(a: &Arc<T>) -> (r: Arc<T>)
    ensures
        r == *a,
{
    Arc::clone(a)
}

/// A plan that can be copied for one shard of its request and bound to the store
/// serving that shard.
pub trait Shardable: Sized {
    type Shard;
    type Client;

    /// The routing context the plan's dispatch is bound to, once it is bound.
    spec fn target(&self) -> Option<Context>;

    /// The copy of the plan for `shard`, not yet bound.
    spec fn with_shard(&self, shard: Self::Shard) -> Self;

    /// The plan once its dispatch targets `ctx` through `client`.
    spec fn with_store(&self, ctx: Context, client: Self::Client) -> Self;

    fn clone_then_apply_shard(&self, shard: Self::Shard) -> (r: Self)
        ensures
            r == self.with_shard(shard),
    ;

    fn apply_store(&mut self, store: Store<Self::Client>) -> (r: Result<(), PlanError>)
        ensures
            match region_context(store.region) {
                Ok(ctx) => r is Ok && *final(self) == old(self).with_store(ctx, store.client)
                    && final(self).target() == Some(ctx),
                Err(e) => r == Err::<(), PlanError>(e) && *final(self) == *old(self),
            },
    ;
}

impl<Req: ShardableRequest, C> Shardable for Dispatch<Req, C> {
    type Shard = Req::Shard;
    type Client = C;

    open spec fn target(&self) -> Option<Context> {
        if self.kv_client.is_some() {
            self.request.routing()
        } else {
            None
        }
    }

    open spec fn with_shard(&self, shard: Req::Shard) -> Self {
        Dispatch { request: self.request.narrowed(shard), kv_client: None }
    }

    open spec fn with_store(&self, ctx: Context, client: C) -> Self {
        Dispatch { request: self.request.with_context(ctx), kv_client: Some(client) }
    }

    fn clone_then_apply_shard(&self, shard: Req::Shard) -> (r: Self) {
        Dispatch { request: self.request.clone_then_apply_shard(shard), kv_client: None }
    }

    fn apply_store(&mut self, store: Store<C>) -> (r: Result<(), PlanError>) {
        match store.region.context() {
            Err(e) => Err(e),
            Ok(ctx) => {
                self.request.set_context(ctx);
                self.kv_client = Some(store.client);
                Ok(())
            },
        }
    }
}

impl<P: Shardable, PdC> Shardable for ResolveLock<P, PdC> {
    type Shard = P::Shard;
    type Client = P::Client;

    open spec fn target(&self) -> Option<Context> {
        self.inner.target()
    }

    open spec fn with_shard(&self, shard: P::Shard) -> Self {
        ResolveLock { inner: self.inner.with_shard(shard), ..*self }
    }

    open spec fn with_store(&self, ctx: Context, client: P::Client) -> Self {
        ResolveLock { inner: self.inner.with_store(ctx, client), ..*self }
    }

    fn clone_then_apply_shard(&self, shard: P::Shard) -> (r: Self) {
        ResolveLock {
            inner: self.inner.clone_then_apply_shard(shard),
            backoff: self.backoff,
            pd_client: share(&self.pd_client),
        }
    }

    fn apply_store(&mut self, store: Store<P::Client>) -> (r: Result<(), PlanError>) {
        self.inner.apply_store(store)
    }
}

impl<P: Shardable, PdC> Shardable for RetryRegion<P, PdC> {
    type Shard = P::Shard;
    type Client = P::Client;

    open spec fn target(&self) -> Option<Context> {
        self.inner.target()
    }

    open spec fn with_shard(&self, shard: P::Shard) -> Self {
        RetryRegion { inner: self.inner.with_shard(shard), ..*self }
    }

    open spec fn with_store(&self, ctx: Context, client: P::Client) -> Self {
        RetryRegion { inner: self.inner.with_store(ctx, client), ..*self }
    }

    fn clone_then_apply_shard(&self, shard: P::Shard) -> (r: Self) {
        RetryRegion {
            inner: self.inner.clone_then_apply_shard(shard),
            backoff: self.backoff,
            pd_client: share(&self.pd_client),
        }
    }

    fn apply_store(&mut self, store: Store<P::Client>) -> (r: Result<(), PlanError>) {
        self.inner.apply_store(store)
    }
}

/// Splits its request into shards, one copy of the inner plan per region, and
/// collects one result per shard.
pub struct MultiRegion<P, PdC> {
    pub inner: P,
    pub pd_client: Arc<PdC>,
}

impl<P: Plan, PdC> Plan for MultiRegion<P, PdC> {
    type Result = Vec<Result<P::Result, PlanError>>;
}

/// Whether `slot` is what binding the copy of `template` for `shard` to
/// `resolved` yields: the copy bound to the store's region and client, or the
/// error of the resolution or of the region's routing context.
pub open spec fn bound_as<P: Shardable>(
    slot: Result<P, PlanError>,
    template: P,
    shard: P::Shard,
    resolved: Result<Store<P::Client>, PlanError>,
) -> bool {
    match resolved {
        Err(e) => slot == Err::<P, PlanError>(e),
        Ok(store) => match region_context(store.region) {
            Err(e) => slot == Err::<P, PlanError>(e),
            Ok(ctx) => slot == Ok::<P, PlanError>(
                template.with_shard(shard).with_store(ctx, store.client),
            ) && slot->Ok_0.target() == Some(ctx),
        },
    }
}

impl<P: Shardable, PdC> MultiRegion<P, PdC> {
    /// Copies the inner plan once per shard, in shard order, and binds each copy
    /// to the store resolved for its shard. A shard whose store could not be
    /// resolved, or whose region has no usable routing context, gets its own
    /// error; the other shards are unaffected.
    pub fn shard_plans(&self, shards: Vec<(P::Shard, Result<Store<P::Client>, PlanError>)>) -> (r: Vec<
        Result<P, PlanError>,
    >)
        ensures
            r.len() == shards.len(),
            forall|i: int|
                0 <= i < r.len() ==> bound_as(#[trigger] r[i], self.inner, shards[i].0, shards[i].1),
    {
        let ghost all = shards@;
        let mut rest = shards;
        let mut out: Vec<Result<P, PlanError>> = Vec::new();
        while rest.len() > 0
            invariant
                out.len() + rest.len() == all.len(),
                rest@ == all.subrange(out.len() as int, all.len() as int),
                forall|i: int|
                    0 <= i < out.len() ==> bound_as(#[trigger] out[i], self.inner, all[i].0, all[i].1),
            decreases rest.len(),
        {
            let ghost k = out.len() as int;
            let (shard, resolved) = rest.remove(0);
            assert(shard == all[k].0 && resolved == all[k].1);
            let slot = match resolved {
                Err(e) => Err(e),
                Ok(store) => {
                    let mut plan = self.inner.clone_then_apply_shard(shard);
                    match plan.apply_store(store) {
                        Ok(()) => Ok(plan),
                        Err(e) => Err(e),
                    }
                },
            };
            let ghost prev = out@;
            out.push(slot);
            assert forall|i: int|
                0 <= i < out.len() implies bound_as(#[trigger] out[i], self.inner, all[i].0, all[i].1) by {
                if i < k {
                    assert(out[i] == prev[i]);
                }
            }
        }
        out
    }
}

/// A reduction of per-shard results into one result.
pub trait Merge<In>: Sized {
    type Out;

    /// Whether `out` is what merging `input` yields.
    spec fn merged(&self, input: Seq<Result<In, PlanError>>, out: Result<Self::Out, PlanError>) -> bool;

    fn merge(&self, input: Vec<Result<In, PlanError>>) -> (r: Result<Self::Out, PlanError>)
        ensures
            self.merged(input@, r),
    ;
}

/// Reduces the collection of per-shard results of its inner plan with `merge`.
pub struct MergeResponse<P, In, M> {
    pub inner: P,
    pub merge: M,
    pub phantom: std::marker::PhantomData<In>,
}

impl<P: Plan, In, M: Merge<In>> Plan for MergeResponse<P, In, M> {
    type Result = M::Out;
}

impl<P, In, M: Merge<In>> MergeResponse<P, In, M> {
    /// Hands every shard result, successes and failures alike, to the reducer.
    pub fn on_results(&self, results: Vec<Result<In, PlanError>>) -> (r: Result<M::Out, PlanError>)
        ensures
            self.merge.merged(results@, r),
    {
        self.merge.merge(results)
    }
}

/// A transform applied to a single result.
pub trait Process<In>: Sized {
    type Out;

    /// What processing `input` yields.
    spec fn processed(&self, input: Result<In, PlanError>) -> Result<Self::Out, PlanError>;

    fn process(&self, input: Result<In, PlanError>) -> (r: Result<Self::Out, PlanError>)
        ensures
            r == self.processed(input),
    ;
}

/// The identity transform.
#[derive(Clone, Copy, Debug, PartialEq, Eq, Structural)]
pub struct DefaultProcessor;

impl<In> Process<In> for DefaultProcessor {
    type Out = In;

    open spec fn processed(&self, input: Result<In, PlanError>) -> Result<In, PlanError> {
        input
    }

    fn process(&self, input: Result<In, PlanError>) -> (r: Result<In, PlanError>) {
        input
    }
}

/// Applies `processor` to the result of its inner plan.
pub struct ProcessResponse<P, In, Pr> {
    pub inner: P,
    pub processor: Pr,
    pub phantom: std::marker::PhantomData<In>,
}

impl<P: Plan, In, Pr: Process<In>> Plan for ProcessResponse<P, In, Pr> {
    type Result = Pr::Out;
}

impl<P, In, Pr: Process<In>> ProcessResponse<P, In, Pr> {
    /// Transforms the inner plan's outcome.
    pub fn on_result(&self, outcome: Result<In, PlanError>) -> (r: Result<Pr::Out, PlanError>)
        ensures
            r == self.processor.processed(outcome),
    {
        self.processor.process(outcome)
    }
}

/// Turns an error carried in its inner plan's result into the plan's failure.
pub struct ExtractError<P> {
    pub inner: P,
}

impl<P: Plan> Plan for ExtractError<P> {
    type Result = P::Result;
}

/// The outcome once an embedded error is lifted to the top level.
pub open spec fn extracted<R: HasError>(outcome: Result<R, PlanError>) -> Result<R, PlanError> {
    match outcome {
        Err(e) => Err(e),
        Ok(v) => match v.embedded_error() {
            Some(e) => Err(e),
            None => Ok(v),
        },
    }
}

impl<P> ExtractError<P> {
    /// A result that carries an error becomes a failure equal to that error; any
    /// other outcome passes through unchanged.
    pub fn on_result<R: HasError>(&self, outcome: Result<R, PlanError>) -> (r: Result<R, PlanError>)
        ensures
            r == extracted(outcome),
    {
        match outcome {
            Err(e) => Err(e),
            Ok(v) => match v.error() {
                Some(e) => Err(e),
                None => Ok(v),
            },
        }
    }
}

} // verus!
