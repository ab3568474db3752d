use vstd::prelude::*;
use crate::error::PlanError;
use crate::plan::Merge;

verus! {

/// The error of the first failed result, if any failed.
pub open spec fn first_error<T>(s: Seq<Result<T, PlanError>>) -> Option<PlanError>
    decreases s.len(),
{
    if s.len() == 0 {
        None
    } else {
        match s[0] {
            Err(e) => Some(e),
            Ok(_) => first_error(s.drop_first()),
        }
    }
}

/// The values of results that all succeeded.
pub open spec fn ok_values<T>(s: Seq<Result<T, PlanError>>) -> Seq<T> {
    Seq::new(s.len(), |i: int| s[i]->Ok_0)
}

/// The sum of the values of results that all succeeded.
pub open spec fn total(s: Seq<Result<u64, PlanError>>) -> int
    decreases s.len(),
{
    if s.len() == 0 {
        0
    } else {
        total(s.drop_last()) + s.last()->Ok_0
    }
}

/// A sum capped at the largest `u64`.
pub open spec fn capped(x: int) -> u64 {
    if x <= u64::MAX {
        x as u64
    } else {
        u64::MAX
    }
}

proof fn lemma_first_error_none_all_ok<T>(s: Seq<Result<T, PlanError>>, i: int)
    requires
        first_error(s).is_none(),
        0 <= i < s.len(),
    ensures
        s[i] is Ok,
    decreases s.len(),
{
    if i > 0 {
        lemma_first_error_none_all_ok(s.drop_first(), i - 1);
    }
}

/// Keeps every value, in order, or fails with the first error.
#[derive(Clone, Copy, Debug, PartialEq, Eq, Structural)]
pub struct Collect;

impl<T> Merge<T> for Collect {
    type Out = Vec<T>;

    open spec fn merged(&self, input: Seq<Result<T, PlanError>>, out: Result<Vec<T>, PlanError>) -> bool {
        match first_error(input) {
            Some(e) => out == Err::<Vec<T>, PlanError>(e),
            None => out is Ok && out->Ok_0@ == ok_values(input),
        }
    }

    fn merge(&self, input: Vec<Result<T, PlanError>>) -> (r: Result<Vec<T>, PlanError>) {
        let ghost all = input@;
        let mut rest = input;
        let mut out: Vec<T> = Vec::new();
        while rest.len() > 0
            invariant
                out.len() + rest.len() == all.len(),
                rest@ == all.subrange(out.len() as int, all.len() as int),
                all == input@,
                first_error(all) == first_error(rest@),
                forall|i: int| 0 <= i < out.len() ==> #[trigger] all[i] is Ok,
                forall|i: int| 0 <= i < out.len() ==> #[trigger] out@[i] == all[i]->Ok_0,
            decreases rest.len(),
        {
            assert(rest@.drop_first() =~= all.subrange(out.len() + 1, all.len() as int));
            let ghost k = out.len() as int;
            let ghost before = rest@;
            let item = rest.remove(0);
            assert(item == all[k]);
            match item {
                Err(e) => {
                    assert(first_error(before) == Some(e));
                    return Err(e);
                },
                Ok(v) => {
                    let ghost prev = out@;
                    out.push(v);
                    assert(all[k] is Ok);
                    assert(out@[k] == all[k]->Ok_0);
                    assert forall|i: int| 0 <= i < out.len() implies #[trigger] out@[i] == all[i]->Ok_0 by {
                        if i < k {
                            assert(out@[i] == prev[i]);
                        }
                    }
                },
            }
        }
        assert(out@ =~= ok_values(all));
        Ok(out)
    }
}

/// Adds the values, capped at the largest `u64`, or fails with the first error.
#[derive(Clone, Copy, Debug, PartialEq, Eq, Structural)]
pub struct SumMerge;

proof fn lemma_total_push(s: Seq<Result<u64, PlanError>>, n: int)
    requires
        0 <= n < s.len(),
    ensures
        total(s.take(n + 1)) == total(s.take(n)) + s[n]->Ok_0,
{
    assert(s.take(n + 1).drop_last() =~= s.take(n));
}

impl Merge<u64> for SumMerge {
    type Out = u64;

    open spec fn merged(&self, input: Seq<Result<u64, PlanError>>, out: Result<u64, PlanError>) -> bool {
        match first_error(input) {
            Some(e) => out == Err::<u64, PlanError>(e),
            None => out == Ok::<u64, PlanError>(capped(total(input))),
        }
    }

    fn merge(&self, input: Vec<Result<u64, PlanError>>) -> (r: Result<u64, PlanError>) {
        let mut i: usize = 0;
        let mut sum: u64 = 0;
        assert(input@.subrange(0, input.len() as int) =~= input@);
        while i < input.len()
            invariant
                0 <= i <= input.len(),
                first_error(input@) == first_error(input@.subrange(i as int, input.len() as int)),
                sum == capped(total(input@.take(i as int))),
                total(input@.take(i as int)) >= 0,
            decreases input.len() - i,
        {
            assert(input@.subrange(i as int, input.len() as int).drop_first() =~= input@.subrange(
                i + 1,
                input.len() as int,
            ));
            match &input[i] {
                Err(e) => return Err(*e),
                Ok(v) => {
                    proof {
                        lemma_total_push(input@, i as int);
                    }
                    sum = sum.saturating_add(*v);
                },
            }
            i = i + 1;
        }
        assert(input@.take(input.len() as int) =~= input@);
        Ok(sum)
    }
}

/// Merging succeeds exactly when no shard failed: the first failure, in shard
/// order, is the merged error, and otherwise every shard's value is kept in order.
pub proof fn lemma_collect_first_error_wins<T>(input: Seq<Result<T, PlanError>>, out: Result<Vec<T>, PlanError>)
    requires
        Collect.merged(input, out),
    ensures
        out is Ok <==> (forall|i: int| 0 <= i < input.len() ==> #[trigger] input[i] is Ok),
        out is Ok ==> out->Ok_0@.len() == input.len(),
{
    if first_error(input).is_none() {
        assert forall|i: int| 0 <= i < input.len() implies #[trigger] input[i] is Ok by {
            lemma_first_error_none_all_ok(input, i);
        }
    } else {
        lemma_first_error_some(input);
    }
}

proof fn lemma_first_error_some<T>(s: Seq<Result<T, PlanError>>)
    requires
        first_error(s).is_some(),
    ensures
        exists|i: int| 0 <= i < s.len() && #[trigger] s[i] is Err,
    decreases s.len(),
{
    if s[0] is Err {
        assert(s[0] is Err);
    } else {
        lemma_first_error_some(s.drop_first());
        let i = choose|i: int| 0 <= i < s.drop_first().len() && #[trigger] s.drop_first()[i] is Err;
        assert(s[i + 1] is Err);
    }
}

} // verus!
