use std::sync::Arc;
use tikv_plan::backoff::Backoff;
use tikv_plan::error::PlanError;
use tikv_plan::merge::{Collect, SumMerge};
use tikv_plan::plan::{
    DefaultProcessor, Dispatch, ExtractError, Merge, MergeResponse, MultiRegion, ProcessResponse, RetryRegion,
    Shardable, Step,
};
use tikv_plan::plan_builder::{set_single_region_store, PlanBuilder};
use tikv_plan::region::{Context, Region, RegionEpoch, Store};
use tikv_plan::request::{
    group_by_region, BatchGetRequest, BatchGetResponse, GetRequest, GetResponse, KeyGroup, KvPair,
};

fn epoch() -> RegionEpoch {
    RegionEpoch { conf_ver: 1, version: 2 }
}

fn region(id: u64, leader: Option<u64>) -> Region {
    Region { id, epoch: Some(epoch()), leader_store_id: leader }
}

fn store(id: u64, client: u32) -> Store<u32> {
    Store { region: region(id, Some(100 + id)), client }
}

fn ctx(id: u64) -> Context {
    Context { region_id: id, epoch: epoch(), peer_store_id: 100 + id }
}

#[test]
fn region_context_needs_leader_and_epoch() {
    assert_eq!(region(3, Some(103)).context(), Ok(ctx(3)));
    assert_eq!(region(3, None).context(), Err(PlanError::LeaderNotFound { region_id: 3 }));
    let no_epoch = Region { id: 4, epoch: None, leader_store_id: Some(1) };
    assert_eq!(no_epoch.context(), Err(PlanError::MissingRegionEpoch { region_id: 4 }));
}

#[test]
fn plan_is_reached_after_binding_a_store() {
    let builder = PlanBuilder::new(Arc::new(()), GetRequest::new(vec![7]));
    assert_eq!(builder.key(), &vec![7]);
    let plan = builder.single_region_with_store(store(5, 42)).unwrap().plan();
    assert_eq!(plan.request.context, Some(ctx(5)));
    assert_eq!(plan.kv_client, Some(42));
}

#[test]
fn binding_fails_on_malformed_context() {
    let builder = PlanBuilder::new(Arc::new(()), GetRequest::new(vec![7]));
    let bad = Store { region: region(5, None), client: 42u32 };
    assert_eq!(
        builder.single_region_with_store(bad).err().map(|_| ()).is_some(),
        true
    );
    let plan = Dispatch::<GetRequest, u32> { request: GetRequest::new(vec![1]), kv_client: None };
    let r = set_single_region_store(plan, Store { region: region(6, None), client: 1u32 }, Arc::new(()));
    assert!(matches!(r, Err(PlanError::LeaderNotFound { region_id: 6 })));
}

#[test]
fn single_region_propagates_resolution_error() {
    let builder = PlanBuilder::new(Arc::new(()), GetRequest::new(vec![7]));
    let r = builder.single_region(Err::<Store<u32>, _>(PlanError::RegionForKeyNotFound));
    assert!(matches!(r, Err(PlanError::RegionForKeyNotFound)));
}

#[test]
fn single_key_lookup_end_to_end() {
    let builder = PlanBuilder::new(Arc::new(()), GetRequest::new(vec![7]));
    let bound = builder.single_region(Ok(store(5, 42))).unwrap();
    let mut plan = bound.resolve_lock(Backoff::no_jitter_backoff(2, 50, 3)).plan();
    assert_eq!(plan.inner.request.context, Some(ctx(5)));
    let mut dispatches = 0;
    let outcome = loop {
        dispatches += 1;
        let answer = GetResponse { value: Some(vec![9]), locked: false, error: None };
        match plan.on_attempt(Ok(answer), Ok(true)) {
            Step::Done(r) => break r,
            Step::Retry { .. } => continue,
        }
    };
    assert_eq!(dispatches, 1);
    assert_eq!(outcome.unwrap().value, Some(vec![9]));
    assert_eq!(plan.backoff.current_attempts, 0);
}

#[test]
fn decorators_keep_the_target_phase() {
    let builder = PlanBuilder::new(Arc::new(()), GetRequest::new(vec![7]));
    let plan = builder
        .single_region_with_store(store(5, 42))
        .unwrap()
        .retry_region(Backoff::no_backoff())
        .post_process_default()
        .extract_error()
        .plan();
    assert_eq!(plan.inner.inner.inner.request.context, Some(ctx(5)));
}

fn sharded_plan() -> MultiRegion<Dispatch<BatchGetRequest, u32>, ()> {
    let keys = vec![vec![1], vec![2], vec![3]];
    PlanBuilder::new(Arc::new(()), BatchGetRequest::new(keys)).multi_region().plan()
}

#[test]
fn multi_region_binds_one_plan_per_shard() {
    let plan = sharded_plan();
    let shards = vec![
        (vec![vec![1]], Ok(store(1, 11))),
        (vec![vec![2]], Ok(Store { region: region(2, None), client: 12 })),
        (vec![vec![3]], Ok(store(3, 13))),
    ];
    let bound = plan.shard_plans(shards);
    assert_eq!(bound.len(), 3);
    let first = bound[0].as_ref().unwrap();
    assert_eq!(first.request.keys, vec![vec![1]]);
    assert_eq!(first.request.context, Some(ctx(1)));
    assert_eq!(first.kv_client, Some(11));
    assert!(matches!(bound[1], Err(PlanError::LeaderNotFound { region_id: 2 })));
    let third = bound[2].as_ref().unwrap();
    assert_eq!(third.request.keys, vec![vec![3]]);
    assert_eq!(third.request.context, Some(ctx(3)));
    assert_eq!(third.kv_client, Some(13));
}

#[test]
fn multi_region_isolates_a_failed_shard() {
    let plan = sharded_plan();
    let shards = vec![
        (vec![vec![1]], Ok(store(1, 11))),
        (vec![vec![2]], Err(PlanError::RegionForKeyNotFound)),
        (vec![vec![3]], Ok(store(3, 13))),
    ];
    let bound = plan.shard_plans(shards);
    let results: Vec<Result<u64, PlanError>> = bound
        .iter()
        .map(|slot| match slot {
            Ok(p) => {
                if p.kv_client == Some(13) {
                    Err(PlanError::Transport { code: 1 })
                } else {
                    Ok(p.request.keys[0][0] as u64)
                }
            }
            Err(e) => Err(*e),
        })
        .collect();
    assert_eq!(
        results,
        vec![Ok(1), Err(PlanError::RegionForKeyNotFound), Err(PlanError::Transport { code: 1 })]
    );
}

#[test]
fn multi_region_with_no_shards_is_empty() {
    let plan = sharded_plan();
    let bound = plan.shard_plans(Vec::new());
    assert!(bound.is_empty());
}

#[test]
fn retry_inside_fan_out_copies_per_shard() {
    let keys = vec![vec![1], vec![2]];
    let plan = PlanBuilder::new(Arc::new(()), BatchGetRequest::new(keys))
        .retry_region(Backoff::no_jitter_backoff(1, 8, 2))
        .multi_region()
        .plan();
    let copy: RetryRegion<Dispatch<BatchGetRequest, u32>, ()> =
        plan.inner.clone_then_apply_shard(vec![vec![2]]);
    assert_eq!(copy.inner.request.keys, vec![vec![2]]);
    assert_eq!(copy.backoff, Backoff::no_jitter_backoff(1, 8, 2));
    assert_eq!(copy.inner.kv_client, None);
}

#[test]
fn group_by_region_splits_where_the_region_changes() {
    assert_eq!(group_by_region(&vec![]), vec![]);
    assert_eq!(
        group_by_region(&vec![Some(4), Some(4), Some(9), None, None, Some(4)]),
        vec![
            KeyGroup { region_id: Some(4), start: 0, end: 2 },
            KeyGroup { region_id: Some(9), start: 2, end: 3 },
            KeyGroup { region_id: None, start: 3, end: 5 },
            KeyGroup { region_id: Some(4), start: 5, end: 6 },
        ]
    );
    let req = BatchGetRequest::new(vec![vec![1], vec![2], vec![3]]);
    assert_eq!(req.keys_of(KeyGroup { region_id: Some(4), start: 1, end: 3 }), vec![vec![2], vec![3]]);
}

#[test]
fn sum_merge_adds_or_fails_with_first_error() {
    assert_eq!(SumMerge.merge(vec![Ok(2), Ok(3)]), Ok(5));
    let e = PlanError::Transport { code: 4 };
    assert_eq!(SumMerge.merge(vec![Ok(2), Err(e)]), Err(e));
    let first = PlanError::KeyError { code: 1 };
    assert_eq!(SumMerge.merge(vec![Err(first), Ok(1), Err(e)]), Err(first));
    assert_eq!(SumMerge.merge(vec![]), Ok(0));
    assert_eq!(SumMerge.merge(vec![Ok(u64::MAX), Ok(1)]), Ok(u64::MAX));
}

#[test]
fn collect_merge_keeps_order_or_fails() {
    assert_eq!(Collect.merge(vec![Ok(2u8), Ok(3)]), Ok(vec![2, 3]));
    let e = PlanError::Transport { code: 4 };
    assert_eq!(Collect.merge(vec![Ok(2u8), Err(e)]), Err(e));
    assert_eq!(Collect.merge(Vec::<Result<u8, PlanError>>::new()), Ok(vec![]));
}

#[test]
fn merge_response_hands_all_results_to_reducer() {
    let plan: MergeResponse<(), u64, SumMerge> =
        MergeResponse { inner: (), merge: SumMerge, phantom: std::marker::PhantomData };
    assert_eq!(plan.on_results(vec![Ok(2), Ok(3)]), Ok(5));
}

#[test]
fn extract_error_lifts_embedded_error() {
    let plan: ExtractError<()> = ExtractError { inner: () };
    let carrying = GetResponse { value: None, locked: false, error: Some(PlanError::KeyError { code: 7 }) };
    assert_eq!(plan.on_result(Ok(carrying)), Err(PlanError::KeyError { code: 7 }));
    let clean = GetResponse { value: Some(vec![1]), locked: false, error: None };
    assert_eq!(plan.on_result(Ok(clean.clone())), Ok(clean));
    assert_eq!(
        plan.on_result::<GetResponse>(Err(PlanError::Transport { code: 2 })),
        Err(PlanError::Transport { code: 2 })
    );
}

#[test]
fn default_processing_is_identity() {
    let plan: ProcessResponse<(), u32, DefaultProcessor> =
        ProcessResponse { inner: (), processor: DefaultProcessor, phantom: std::marker::PhantomData };
    assert_eq!(plan.on_result(Ok(4)), Ok(4));
    assert_eq!(plan.on_result(Err(PlanError::ResolveLockError)), Err(PlanError::ResolveLockError));
}

#[test]
fn batch_lookup_over_two_regions_end_to_end() {
    let keys = vec![vec![1], vec![2]];
    let request = BatchGetRequest::new(keys.clone());
    let groups = group_by_region(&vec![Some(1), Some(2)]);
    assert_eq!(groups.len(), 2);
    let plan = PlanBuilder::new(Arc::new(()), request.clone())
        .retry_region(Backoff::no_jitter_backoff(1, 8, 3))
        .multi_region()
        .merge(Collect)
        .plan();
    let shards = groups
        .iter()
        .map(|g| (request.keys_of(*g), Ok(store(g.region_id.unwrap(), g.region_id.unwrap() as u32))))
        .collect();
    let bound = plan.inner.shard_plans(shards);
    let mut refreshed: Vec<u64> = Vec::new();
    let mut stale_left = 1;
    let mut results = Vec::new();
    for slot in bound {
        let mut shard = slot.unwrap();
        let outcome = loop {
            let region_id = shard.inner.request.context.unwrap().region_id;
            let error = if region_id == 2 && stale_left > 0 {
                stale_left -= 1;
                Some(PlanError::RegionError { region_id })
            } else {
                None
            };
            let pairs = shard
                .inner
                .request
                .keys
                .iter()
                .map(|k| KvPair { key: k.clone(), value: vec![k[0] * 10] })
                .collect();
            match shard.on_attempt(Ok(BatchGetResponse { pairs, locked: false, error })) {
                Step::Done(r) => break r,
                Step::Retry { refresh_region, .. } => refreshed.push(refresh_region.unwrap()),
            }
        };
        results.push(outcome);
    }
    let merged = plan.on_results(results).unwrap();
    let values: Vec<Vec<u8>> =
        merged.iter().flat_map(|r| r.pairs.iter().map(|p| p.value.clone())).collect();
    assert_eq!(values, vec![vec![10], vec![20]]);
    assert_eq!(refreshed, vec![2]);
}
