//! Splitting a batch of `2^exponent` samples into equal per-worker chunks,
//! filling one chunk, and merging the chunks back into one batch.

use vstd::prelude::*;

verus! {

/// Number of workers among which a batch of samples is split.
pub const WORKERS: usize = 8;

/// Smallest exponent for which a batch splits evenly among the workers.
pub const MIN_BATCH_EXPONENT: usize = 3;

/// `2^n`.
pub open spec fn pow2(n: nat) -> nat
    decreases n,
{
    if n == 0 {
        1
    } else {
        2 * pow2((n - 1) as nat)
    }
}

/// Why a batch size cannot be planned.
#[derive(Clone, Copy, Debug, PartialEq, Eq, Structural)]
pub enum BatchError {
    /// The exponent is below three: eight workers cannot share the batch evenly.
    ExponentTooSmall,
    /// `2^exponent` samples cannot be counted in a `usize`.
    ExponentTooLarge,
}

/// How a batch is shared out: `workers` chunks of `per_worker` samples each.
#[derive(Clone, Copy, Debug, PartialEq, Eq, Structural)]
pub struct BatchPlan {
    pub workers: usize,
    pub per_worker: usize,
}

impl BatchPlan {
    /// Number of samples the whole batch holds.
    pub open spec fn total(self) -> nat {
        self.workers as nat * self.per_worker as nat
    }
}

/// The plan for a batch of `2^exponent` samples, when the exponent is at least three.
pub open spec fn plan_for(exponent: nat) -> BatchPlan
    recommends
        exponent >= MIN_BATCH_EXPONENT,
{
    BatchPlan { workers: WORKERS, per_worker: pow2((exponent - MIN_BATCH_EXPONENT) as nat) as usize }
}

proof fn lemma_pow2_positive(n: nat)
    ensures
        pow2(n) >= 1,
    decreases n,
{
    if n > 0 {
        lemma_pow2_positive((n - 1) as nat);
    }
}

proof fn lemma_pow2_monotone(a: nat, b: nat)
    requires
        a <= b,
    ensures
        pow2(a) <= pow2(b),
    decreases b,
{
    if a < b {
        lemma_pow2_monotone(a, (b - 1) as nat);
        lemma_pow2_positive((b - 1) as nat);
    }
}

proof fn lemma_pow2_split(n: nat)
    requires
        n >= 3,
    ensures
        pow2(n) == 8 * pow2((n - 3) as nat),
{
    assert(pow2(n) == 2 * pow2((n - 1) as nat));
    assert(pow2((n - 1) as nat) == 2 * pow2((n - 2) as nat));
    assert(pow2((n - 2) as nat) == 2 * pow2((n - 3) as nat));
}

/// Plans a batch of `2^exponent` samples split evenly among `WORKERS` workers.
pub fn plan_batch(exponent: usize) -> (r: Result<BatchPlan, BatchError>)
    ensures
        exponent < MIN_BATCH_EXPONENT <==> r == Err::<BatchPlan, BatchError>(
            BatchError::ExponentTooSmall,
        ),
        exponent >= MIN_BATCH_EXPONENT && pow2(exponent as nat) > usize::MAX <==> r == Err::<
            BatchPlan,
            BatchError,
        >(BatchError::ExponentTooLarge),
        r is Ok <==> exponent >= MIN_BATCH_EXPONENT && pow2(exponent as nat) <= usize::MAX,
        r is Ok ==> r->Ok_0 == plan_for(exponent as nat) && r->Ok_0.total() == pow2(
            exponent as nat,
        ),
{
    if exponent < MIN_BATCH_EXPONENT {
        return Err(BatchError::ExponentTooSmall);
    }
    let mut per_worker: usize = 1;
    let mut total: usize = WORKERS;
    let mut k: usize = MIN_BATCH_EXPONENT;
    proof {
        reveal_with_fuel(pow2, 4);
    }
    while k < exponent
        invariant
            MIN_BATCH_EXPONENT <= k <= exponent,
            per_worker == pow2((k - MIN_BATCH_EXPONENT) as nat),
            total == pow2(k as nat),
            total == WORKERS * per_worker,
        decreases exponent - k,
    {
        if total > usize::MAX / 2 {
            proof {
                lemma_pow2_monotone((k + 1) as nat, exponent as nat);
                assert(pow2((k + 1) as nat) == 2 * pow2(k as nat));
            }
            return Err(BatchError::ExponentTooLarge);
        }
        proof {
            assert(pow2((k + 1) as nat) == 2 * pow2(k as nat));
            assert(pow2((k + 1 - MIN_BATCH_EXPONENT) as nat) == 2 * pow2(
                (k - MIN_BATCH_EXPONENT) as nat,
            ));
        }
        per_worker = per_worker * 2;
        total = total * 2;
        k = k + 1;
    }
    Ok(BatchPlan { workers: WORKERS, per_worker })
}

/// Fills one worker's chunk: `len` samples, each one value returned by `draw`.
pub fn fill_chunk<T, F: Fn() -> T>(len: usize, draw: F) -> (r: Vec<T>)
    requires
        call_requires(draw, ()),
    ensures
        r@.len() == len,
        forall|i: int| 0 <= i < len ==> call_ensures(draw, (), #[trigger] r@[i]),
{
    let mut out: Vec<T> = Vec::new();
    let mut n: usize = 0;
    while n < len
        invariant
            n <= len,
            out@.len() == n,
            call_requires(draw, ()),
            forall|i: int| 0 <= i < n ==> call_ensures(draw, (), #[trigger] out@[i]),
        decreases len - n,
    {
        let sample = draw();
        out.push(sample);
        n = n + 1;
    }
    out
}

/// The contents of each chunk, in order.
pub open spec fn chunk_views<T>(chunks: Seq<Vec<T>>) -> Seq<Seq<T>> {
    chunks.map_values(|c: Vec<T>| c@)
}

/// Concatenates the workers' chunks, in order, into one batch.
pub fn merge_chunks<T>(chunks: Vec<Vec<T>>) -> (r: Vec<T>)
    ensures
        r@ == chunk_views(chunks@).flatten(),
{
    let ghost whole = chunk_views(chunks@).flatten();
    let mut rest = chunks;
    let mut out: Vec<T> = Vec::new();
    while rest.len() > 0
        invariant
            out@ + chunk_views(rest@).flatten() == whole,
        decreases rest@.len(),
    {
        let ghost before = chunk_views(rest@);
        let mut chunk = rest.remove(0);
        proof {
            assert(chunk_views(rest@) =~= before.drop_first());
            assert(before.first() == chunk@);
        }
        out.append(&mut chunk);
        proof {
            assert(out@ + chunk_views(rest@).flatten() =~= whole);
        }
    }
    proof {
        assert(chunk_views(rest@) =~= Seq::<Seq<T>>::empty());
        assert(out@ =~= whole);
    }
    out
}

proof fn lemma_flatten_uniform_len<T>(chunks: Seq<Seq<T>>, len: nat)
    requires
        forall|i: int| 0 <= i < chunks.len() ==> (#[trigger] chunks[i]).len() == len,
    ensures
        chunks.flatten().len() == chunks.len() * len,
    decreases chunks.len(),
{
    if chunks.len() > 0 {
        let tail = chunks.drop_first();
        assert forall|i: int| 0 <= i < tail.len() implies (#[trigger] tail[i]).len() == len by {
            assert(tail[i] == chunks[i + 1]);
        }
        lemma_flatten_uniform_len(tail, len);
        assert(chunks.len() * len == len + tail.len() * len) by (nonlinear_arith)
            requires
                tail.len() == chunks.len() - 1,
        ;
    }
}

/// Merging one full chunk per worker, as planned for `exponent`, gives a batch
/// of exactly `2^exponent` samples.
pub proof fn lemma_merged_batch_size<T>(exponent: nat, chunks: Seq<Seq<T>>)
    requires
        exponent >= MIN_BATCH_EXPONENT,
        chunks.len() == plan_for(exponent).workers,
        forall|i: int|
            0 <= i < chunks.len() ==> (#[trigger] chunks[i]).len() == plan_for(
                exponent,
            ).per_worker,
        pow2(exponent) <= usize::MAX,
    ensures
        chunks.flatten().len() == pow2(exponent),
{
    let per = pow2((exponent - MIN_BATCH_EXPONENT) as nat);
    lemma_pow2_split(exponent);
    assert(per <= usize::MAX);
    lemma_flatten_uniform_len(chunks, per);
}

} // verus!
