use vstd::prelude::*;
use crate::error::PlanError;
use crate::region::Context;

verus! {

/// A request that can be routed: it carries a routing context that is set before
/// it is sent.
pub trait KvRequest: Sized {
    /// The decoded response that dispatching the request yields.
    type Response;

    /// The routing context the request currently carries.
    spec fn routing(&self) -> Option<Context>;

    /// The request once it carries `ctx`.
    spec fn with_context(&self, ctx: Context) -> Self;

    fn set_context(&mut self, ctx: Context)
        ensures
            *final(self) == old(self).with_context(ctx),
            final(self).routing() == Some(ctx),
    ;
}

/// A result that can report transactional locks held by other transactions.
pub trait HasLocks {
    /// Whether the result reports at least one lock.
    spec fn reports_locks(&self) -> bool;

    fn has_locks(&self) -> (r: bool)
        ensures
            r == self.reports_locks(),
    ;
}

/// A result that can carry an error inside its payload.
pub trait HasError {
    /// The error the payload carries, if any.
    spec fn embedded_error(&self) -> Option<PlanError>;

    fn error(&self) -> (r: Option<PlanError>)
        ensures
            r == self.embedded_error(),
    ;
}

/// A key with its value.
#[derive(Clone, Debug, PartialEq, Eq)]
pub struct KvPair {
    pub key: Vec<u8>,
    pub value: Vec<u8>,
}

/// The decoded answer to a `GetRequest`.
#[derive(Clone, Debug, PartialEq, Eq)]
pub struct GetResponse {
    pub value: Option<Vec<u8>>,
    pub locked: bool,
    pub error: Option<PlanError>,
}

/// The decoded answer to a `BatchGetRequest`.
#[derive(Clone, Debug, PartialEq, Eq)]
pub struct BatchGetResponse {
    pub pairs: Vec<KvPair>,
    pub locked: bool,
    pub error: Option<PlanError>,
}

impl HasLocks for GetResponse {
    open spec fn reports_locks(&self) -> bool {
        self.locked
    }

    fn has_locks(&self) -> bool {
        self.locked
    }
}

impl HasLocks for BatchGetResponse {
    open spec fn reports_locks(&self) -> bool {
        self.locked
    }

    fn has_locks(&self) -> bool {
        self.locked
    }
}

impl HasError for GetResponse {
    open spec fn embedded_error(&self) -> Option<PlanError> {
        self.error
    }

    fn error(&self) -> Option<PlanError> {
        self.error
    }
}

impl HasError for BatchGetResponse {
    open spec fn embedded_error(&self) -> Option<PlanError> {
        self.error
    }

    fn error(&self) -> Option<PlanError> {
        self.error
    }
}

/// A request that can be narrowed to one shard of itself.
pub trait ShardableRequest: KvRequest {
    /// The part of the request that falls into one region.
    type Shard;

    /// The request narrowed to `shard`.
    spec fn narrowed(&self, shard: Self::Shard) -> Self;

    fn clone_then_apply_shard(&self, shard: Self::Shard) -> (r: Self)
        ensures
            r == self.narrowed(shard),
    ;
}

/// A run of consecutive keys, `start..end`, that routing placed in one region
/// (`None`: keys that routing could not place).
#[derive(Clone, Copy, Debug, PartialEq, Eq, Structural)]
pub struct KeyGroup {
    pub region_id: Option<u64>,
    pub start: usize,
    pub end: usize,
}

/// The runs of equal region ids in `ids`, in order: each new run starts where the
/// region changes.
pub open spec fn key_groups(ids: Seq<Option<u64>>) -> Seq<KeyGroup>
    decreases ids.len(),
{
    if ids.len() == 0 {
        seq![]
    } else {
        let g = key_groups(ids.drop_last());
        let n = ids.len() - 1;
        if g.len() > 0 && g.last().region_id == ids.last() {
            g.update(g.len() - 1, KeyGroup { end: (n + 1) as usize, ..g.last() })
        } else {
            g.push(KeyGroup { region_id: ids.last(), start: n as usize, end: (n + 1) as usize })
        }
    }
}

/// Groups consecutive keys that lie in the same region; `region_ids[i]` is the
/// region routing gave for key `i`.
pub fn group_by_region(region_ids: &Vec<Option<u64>>) -> (r: Vec<KeyGroup>)
    ensures
        r@ == key_groups(region_ids@),
{
    let mut out: Vec<KeyGroup> = Vec::new();
    let mut i: usize = 0;
    while i < region_ids.len()
        invariant
            0 <= i <= region_ids.len(),
            out@ == key_groups(region_ids@.take(i as int)),
        decreases region_ids.len() - i,
    {
        let id = region_ids[i];
        assert(region_ids@.take(i + 1).drop_last() =~= region_ids@.take(i as int));
        let n = out.len();
        if n > 0 && out[n - 1].region_id == id {
            let last = out[n - 1];
            out.set(n - 1, KeyGroup { end: i + 1, ..last });
        } else {
            out.push(KeyGroup { region_id: id, start: i, end: i + 1 });
        }
        i = i + 1;
    }
    assert(region_ids@.take(region_ids.len() as int) =~= region_ids@);
    out
}

impl BatchGetRequest {
    /// The keys `group.start..group.end`, in order.
    pub fn keys_of(&self, group: KeyGroup) -> (r: Vec<Vec<u8>>)
        requires
            group.start <= group.end <= self.keys.len(),
        ensures
            r.len() == group.end - group.start,
            forall|i: int| 0 <= i < r.len() ==> #[trigger] r[i]@ == self.keys[group.start + i]@,
    {
        let mut out: Vec<Vec<u8>> = Vec::new();
        let mut i: usize = group.start;
        while i < group.end
            invariant
                group.start <= i <= group.end <= self.keys.len(),
                out.len() == i - group.start,
                forall|j: int| 0 <= j < out.len() ==> #[trigger] out[j]@ == self.keys[group.start + j]@,
            decreases group.end - i,
        {
            out.push(self.keys[i].clone());
            i = i + 1;
        }
        out
    }
}

impl ShardableRequest for BatchGetRequest {
    type Shard = Vec<Vec<u8>>;

    open spec fn narrowed(&self, shard: Vec<Vec<u8>>) -> Self {
        BatchGetRequest { keys: shard, context: self.context }
    }

    fn clone_then_apply_shard(&self, shard: Vec<Vec<u8>>) -> (r: Self) {
        BatchGetRequest { keys: shard, context: self.context }
    }
}

/// Indicates that a request operates on a single key.
pub trait SingleKey {
    /// The key the request operates on.
    spec fn key_of(&self) -> &Vec<u8>;

    fn key(&self) -> (r: &Vec<u8>)
        ensures
            r == self.key_of(),
    ;
}

/// A lookup of one key.
#[derive(Clone, Debug, PartialEq, Eq)]
pub struct GetRequest {
    pub key: Vec<u8>,
    pub context: Option<Context>,
}

/// A lookup of several keys, which may lie in several regions.
#[derive(Clone, Debug, PartialEq, Eq)]
pub struct BatchGetRequest {
    pub keys: Vec<Vec<u8>>,
    pub context: Option<Context>,
}

impl GetRequest {
    /// A lookup of `key` with no routing context yet.
    pub fn new(key: Vec<u8>) -> (r: GetRequest)
        ensures
            r.key == key,
            r.context.is_none(),
    {
        GetRequest { key, context: None }
    }
}

impl BatchGetRequest {
    /// A lookup of `keys` with no routing context yet.
    pub fn new(keys: Vec<Vec<u8>>) -> (r: BatchGetRequest)
        ensures
            r.keys == keys,
            r.context.is_none(),
    {
        BatchGetRequest { keys, context: None }
    }
}

impl KvRequest for GetRequest {
    type Response = GetResponse;

    open spec fn routing(&self) -> Option<Context> {
        self.context
    }

    open spec fn with_context(&self, ctx: Context) -> Self {
        GetRequest { context: Some(ctx), ..*self }
    }

    fn set_context(&mut self, ctx: Context) {
        self.context = Some(ctx);
    }
}

impl KvRequest for BatchGetRequest {
    type Response = BatchGetResponse;

    open spec fn routing(&self) -> Option<Context> {
        self.context
    }

    open spec fn with_context(&self, ctx: Context) -> Self {
        BatchGetRequest { context: Some(ctx), ..*self }
    }

    fn set_context(&mut self, ctx: Context) {
        self.context = Some(ctx);
    }
}

impl SingleKey for GetRequest {
    open spec fn key_of(&self) -> &Vec<u8> {
        &self.key
    }

    fn key(&self) -> &Vec<u8> {
        &self.key
    }
}

} // verus!
