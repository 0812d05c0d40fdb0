//! What holds of the identifiers across calls.
use crate::bucket::BATCH_SIZE;
use crate::generator::{lazy_fits_for, lazy_ids, lazy_iter, GeneratorView};
use crate::layout::{fits_identity, fits_time, lemma_pack_value, SEQUENCE_SPAN, TIME_LIMIT};
use vstd::prelude::*;

verus! {

/// A state whose fields all fit the identifier's layout.
pub open spec fn fits_layout(v: GeneratorView) -> bool {
    &&& v.wf()
    &&& fits_time(v.time)
    &&& fits_identity(v.machine_id)
    &&& fits_identity(v.node_id)
}

/// `post` follows `pre` by one call of any strategy: of `lazy_generate`, or
/// of `generate` or `real_time_generate` with a reading `now` of the clock
/// that is not below the stored time.
pub open spec fn forward_step(pre: GeneratorView, post: GeneratorView, now: i64) -> bool {
    ||| post == pre.lazy_next()
    ||| pre.clock_next(post, now) && pre.time <= now
}

/// One forward call of any strategy returns an identifier greater than the
/// one before, when every field fits the layout; that identifier is positive.
pub proof fn lemma_step_increases(pre: GeneratorView, post: GeneratorView, now: i64)
    requires
        fits_layout(pre),
        fits_time(post.time),
        forward_step(pre, post, now),
    ensures
        fits_layout(post),
        pre.time <= post.time,
        pre.id() < post.id(),
        post.id() > 0,
{
    lemma_pack_value(pre.time, pre.machine_id, pre.node_id, pre.idx);
    lemma_pack_value(post.time, post.machine_id, post.node_id, post.idx);
}

/// Along any run of forward calls, of one strategy or a mix, the identifiers
/// strictly increase, and so no two are equal. `readings[i]` is the reading
/// of the clock that call `i` took in, if it took one.
pub proof fn lemma_ids_strictly_increase(states: Seq<GeneratorView>, readings: Seq<i64>)
    requires
        states.len() == readings.len() + 1,
        fits_layout(states[0]),
        forall|i: int| 0 <= i < states.len() ==> fits_time(#[trigger] states[i].time),
        forall|i: int|
            0 <= i < readings.len() ==> forward_step(
                #[trigger] states[i],
                states[i + 1],
                readings[i],
            ),
    ensures
        forall|i: int, j: int|
            0 <= i < j < states.len() ==> #[trigger] states[i].id() < #[trigger] states[j].id(),
        forall|i: int, j: int|
            0 <= i < states.len() && 0 <= j < states.len() && i != j ==> #[trigger] states[i].id()
                != #[trigger] states[j].id(),
{
    lemma_prefix_fits(states, readings, states.len() - 1);
    assert forall|i: int, j: int| 0 <= i < j < states.len() implies #[trigger] states[i].id()
        < #[trigger] states[j].id() by {
        lemma_chain(states, readings, i, j);
    }
}

proof fn lemma_prefix_fits(states: Seq<GeneratorView>, readings: Seq<i64>, k: int)
    requires
        0 <= k < states.len(),
        states.len() == readings.len() + 1,
        fits_layout(states[0]),
        forall|i: int| 0 <= i < states.len() ==> fits_time(#[trigger] states[i].time),
        forall|i: int|
            0 <= i < readings.len() ==> forward_step(
                #[trigger] states[i],
                states[i + 1],
                readings[i],
            ),
    ensures
        forall|i: int| 0 <= i <= k ==> fits_layout(#[trigger] states[i]),
    decreases k,
{
    if k > 0 {
        lemma_prefix_fits(states, readings, k - 1);
        assert(fits_time(states[k].time));
        assert(forward_step(states[k - 1], states[k], readings[k - 1]));
        lemma_step_increases(states[k - 1], states[k], readings[k - 1]);
    }
}

proof fn lemma_chain(states: Seq<GeneratorView>, readings: Seq<i64>, i: int, j: int)
    requires
        0 <= i < j < states.len(),
        states.len() == readings.len() + 1,
        forall|k: int| 0 <= k < states.len() ==> fits_layout(#[trigger] states[k]),
        forall|k: int|
            0 <= k < readings.len() ==> forward_step(
                #[trigger] states[k],
                states[k + 1],
                readings[k],
            ),
    ensures
        states[i].id() < states[j].id(),
    decreases j - i,
{
    assert(fits_layout(states[j - 1]));
    assert(fits_layout(states[j]));
    assert(forward_step(states[j - 1], states[j], readings[j - 1]));
    lemma_step_increases(states[j - 1], states[j], readings[j - 1]);
    if i < j - 1 {
        lemma_chain(states, readings, i, j - 1);
    }
}

/// Along a run of `generate` and `real_time_generate` calls whose readings
/// of the clock never go back, starting from a time not after the first
/// reading (as a generator made from a reading has), the stored time is
/// never ahead of the clock and never goes back, and the identifiers
/// strictly increase, so no two are equal. `readings[i]` is the reading
/// that call `i` took in, or, for a `generate` call that did not read the
/// clock, the clock at that call.
pub proof fn lemma_clock_run_increases(states: Seq<GeneratorView>, readings: Seq<i64>)
    requires
        states.len() == readings.len() + 1,
        fits_layout(states[0]),
        readings.len() > 0 ==> states[0].time <= readings[0],
        forall|i: int| 0 <= i < readings.len() ==> fits_time(#[trigger] readings[i]),
        forall|i: int| 0 <= i < readings.len() - 1 ==> #[trigger] readings[i] <= readings[i + 1],
        forall|i: int|
            0 <= i < readings.len() ==> (#[trigger] states[i]).clock_next(
                states[i + 1],
                readings[i],
            ),
    ensures
        forall|i: int|
            0 <= i < readings.len() ==> #[trigger] states[i].time <= readings[i] && states[i].time
                <= states[i + 1].time && states[i + 1].time <= readings[i],
        forall|i: int, j: int|
            0 <= i < j < states.len() ==> #[trigger] states[i].id() < #[trigger] states[j].id(),
        forall|i: int, j: int|
            0 <= i < states.len() && 0 <= j < states.len() && i != j ==> #[trigger] states[i].id()
                != #[trigger] states[j].id(),
{
    assert forall|i: int| 0 <= i < readings.len() implies #[trigger] states[i].time
        <= readings[i] && states[i].time <= states[i + 1].time && states[i + 1].time
        <= readings[i] by {
        lemma_behind_clock(states, readings, i);
        assert(states[i].clock_next(states[i + 1], readings[i]));
    }
    assert forall|i: int| 0 <= i < states.len() implies fits_time(#[trigger] states[i].time) by {
        if i > 0 {
            lemma_behind_clock(states, readings, i - 1);
            assert(states[i - 1].clock_next(states[i], readings[i - 1]));
            assert(fits_time(readings[i - 1]));
        }
    }
    assert forall|i: int| 0 <= i < readings.len() implies forward_step(
        #[trigger] states[i],
        states[i + 1],
        readings[i],
    ) by {
        lemma_behind_clock(states, readings, i);
    }
    lemma_ids_strictly_increase(states, readings);
}

proof fn lemma_behind_clock(states: Seq<GeneratorView>, readings: Seq<i64>, k: int)
    requires
        0 <= k < readings.len(),
        states.len() == readings.len() + 1,
        states[0].time <= readings[0],
        forall|i: int| 0 <= i < readings.len() - 1 ==> #[trigger] readings[i] <= readings[i + 1],
        forall|i: int|
            0 <= i < readings.len() ==> (#[trigger] states[i]).clock_next(
                states[i + 1],
                readings[i],
            ),
    ensures
        states[k].time <= readings[k],
        states[0].time <= states[k].time,
    decreases k,
{
    if k > 0 {
        lemma_behind_clock(states, readings, k - 1);
        assert(states[k - 1].clock_next(states[k], readings[k - 1]));
        assert(readings[k - 1] <= readings[k]);
    }
}

/// After `k` calls of `lazy_generate` the sequence number has moved on by
/// `k` modulo the span, and the time by the number of wraps.
pub proof fn lemma_lazy_iter(v: GeneratorView, k: nat)
    requires
        v.wf(),
        lazy_fits_for(v, k),
    ensures
        lazy_iter(v, k).time == v.time + (v.idx + k) / (SEQUENCE_SPAN as int),
        lazy_iter(v, k).idx == (v.idx + k) % (SEQUENCE_SPAN as int),
        lazy_iter(v, k).same_identity(v),
    decreases k,
{
    if k > 0 {
        let a: int = v.idx + k - 1;
        assert(a / 4096 <= (a + 1) / 4096) by (nonlinear_arith)
            requires
                a >= 0,
        ;
        lemma_lazy_iter(v, (k - 1) as nat);
        assert((a % 4096 + 1) % 4096 == (a + 1) % 4096) by (nonlinear_arith)
            requires
                a >= 0,
        ;
        assert((a + 1) / 4096 == a / 4096 + if (a + 1) % 4096 == 0 {
            1int
        } else {
            0int
        }) by (nonlinear_arith)
            requires
                a >= 0,
        ;
    }
}

/// After exactly one full span of calls of `lazy_generate` the time has
/// moved on by exactly one millisecond and the sequence number is back
/// where it was.
pub proof fn lemma_lazy_wraparound(v: GeneratorView)
    requires
        v.wf(),
        v.time < i64::MAX,
    ensures
        lazy_iter(v, SEQUENCE_SPAN as nat).time == v.time + 1,
        lazy_iter(v, SEQUENCE_SPAN as nat).idx == v.idx,
        lazy_iter(v, SEQUENCE_SPAN as nat).same_identity(v),
{
    lemma_lazy_iter(v, SEQUENCE_SPAN as nat);
}

/// `k` calls of `lazy_generate` return `k` identifiers.
pub proof fn lemma_lazy_ids_len(v: GeneratorView, k: nat)
    ensures
        lazy_ids(v, k).len() == k,
    decreases k,
{
    if k > 0 {
        lemma_lazy_ids_len(v, (k - 1) as nat);
    }
}

/// The `i`-th identifier of a run of `lazy_generate` is the one of the
/// state after `i + 1` calls.
pub proof fn lemma_lazy_ids_index(v: GeneratorView, k: nat, i: int)
    requires
        0 <= i < k,
    ensures
        lazy_ids(v, k).len() == k,
        lazy_ids(v, k)[i] == lazy_iter(v, (i + 1) as nat).id(),
    decreases k,
{
    lemma_lazy_ids_len(v, k);
    if i < k - 1 {
        lemma_lazy_ids_index(v, (k - 1) as nat, i);
    }
}

/// Every call within a run of `k` calls of `lazy_generate` that fits `i64`
/// fits it too.
pub proof fn lemma_lazy_step_fits(v: GeneratorView, k: nat, i: nat)
    requires
        v.wf(),
        lazy_fits_for(v, k),
        i < k,
    ensures
        lazy_fits_for(v, i),
        lazy_fits_for(v, i + 1),
        lazy_iter(v, i).wf(),
        lazy_iter(v, i).lazy_fits(),
{
    let a: int = v.idx + i;
    let b: int = v.idx + k;
    assert(a / 4096 <= (a + 1) / 4096 <= b / 4096) by (nonlinear_arith)
        requires
            0 <= a < b,
    ;
    assert((a + 1) / 4096 == a / 4096 + if (a + 1) % 4096 == 0 {
        1int
    } else {
        0int
    }) by (nonlinear_arith)
        requires
            a >= 0,
    ;
    assert((a % 4096 + 1) % 4096 == (a + 1) % 4096) by (nonlinear_arith)
        requires
            a >= 0,
    ;
    lemma_lazy_iter(v, i);
}

/// A run of `lazy_generate` whose times all fit the layout returns strictly
/// increasing identifiers.
pub proof fn lemma_lazy_ids_ascending(v: GeneratorView, k: nat)
    requires
        fits_layout(v),
        v.time + (v.idx + k) / (SEQUENCE_SPAN as int) < TIME_LIMIT,
    ensures
        lazy_ids(v, k).len() == k,
        forall|i: int, j: int|
            0 <= i < j < k ==> #[trigger] lazy_ids(v, k)[i] < #[trigger] lazy_ids(v, k)[j],
{
    lemma_lazy_ids_len(v, k);
    let states = Seq::new(k + 1, |i: int| lazy_iter(v, i as nat));
    assert forall|i: int| 0 <= i < states.len() implies fits_time(#[trigger] states[i].time) by {
        let b: int = v.idx + k;
        assert((v.idx + i) / 4096 <= b / 4096) by (nonlinear_arith)
            requires
                0 <= v.idx + i <= b,
        ;
        lemma_lazy_iter(v, i as nat);
    }
    let readings = Seq::new(k, |i: int| 0i64);
    assert forall|i: int| 0 <= i < readings.len() implies forward_step(
        #[trigger] states[i],
        states[i + 1],
        readings[i],
    ) by {
        let b: int = v.idx + k;
        assert((v.idx + i) / 4096 <= (v.idx + i + 1) / 4096 <= b / 4096) by (nonlinear_arith)
            requires
                0 <= v.idx + i < b,
        ;
        lemma_lazy_iter(v, i as nat);
        lemma_lazy_iter(v, (i + 1) as nat);
        assert(states[i + 1] == states[i].lazy_next());
    }
    lemma_ids_strictly_increase(states, readings);
    assert forall|i: int, j: int| 0 <= i < j < k implies #[trigger] lazy_ids(v, k)[i]
        < #[trigger] lazy_ids(v, k)[j] by {
        lemma_lazy_ids_index(v, k, i);
        lemma_lazy_ids_index(v, k, j);
        assert(states[i + 1].id() < states[j + 1].id());
    }
}

/// A refill of a bucket whose times fit the layout is handed out by
/// `get_id`, from the end of the buffer, in strictly decreasing order: the
/// `n`-th identifier handed out is greater than every one handed out after it.
pub proof fn lemma_batch_handed_out_descending(v: GeneratorView)
    requires
        fits_layout(v),
        v.time + (v.idx + BATCH_SIZE) / (SEQUENCE_SPAN as int) < TIME_LIMIT,
    ensures
        lazy_ids(v, BATCH_SIZE as nat).len() == BATCH_SIZE,
        forall|n: int, m: int|
            0 <= n < m < BATCH_SIZE ==> #[trigger] lazy_ids(v, BATCH_SIZE as nat)[BATCH_SIZE - 1
                - n] > #[trigger] lazy_ids(v, BATCH_SIZE as nat)[BATCH_SIZE - 1 - m],
{
    lemma_lazy_ids_ascending(v, BATCH_SIZE as nat);
    assert forall|n: int, m: int| 0 <= n < m < BATCH_SIZE implies #[trigger] lazy_ids(
        v,
        BATCH_SIZE as nat,
    )[BATCH_SIZE - 1 - n] > #[trigger] lazy_ids(v, BATCH_SIZE as nat)[BATCH_SIZE - 1 - m] by {
        let i = BATCH_SIZE - 1 - m;
        let j = BATCH_SIZE - 1 - n;
        assert(lazy_ids(v, BATCH_SIZE as nat)[i] < lazy_ids(v, BATCH_SIZE as nat)[j]);
    }
}

/// `a` calls of `lazy_generate` followed by `b` more are `a + b` calls.
pub proof fn lemma_lazy_iter_add(v: GeneratorView, a: nat, b: nat)
    ensures
        lazy_iter(lazy_iter(v, a), b) == lazy_iter(v, a + b),
    decreases b,
{
    if b > 0 {
        lemma_lazy_iter_add(v, a, (b - 1) as nat);
        assert((a + b - 1) as nat == (a + (b - 1)) as nat);
    }
}

/// Every identifier of a bucket's next refill is greater than every one of
/// the refill before it, when the times of both fit the layout: a bucket
/// hands out the next batch above all it handed out before.
pub proof fn lemma_next_refill_above(v: GeneratorView)
    requires
        fits_layout(v),
        v.time + (v.idx + 2 * BATCH_SIZE) / (SEQUENCE_SPAN as int) < TIME_LIMIT,
    ensures
        forall|i: int, j: int|
            0 <= i < BATCH_SIZE && 0 <= j < BATCH_SIZE ==> #[trigger] lazy_ids(
                v,
                BATCH_SIZE as nat,
            )[i] < #[trigger] lazy_ids(lazy_iter(v, BATCH_SIZE as nat), BATCH_SIZE as nat)[j],
{
    let k = (2 * BATCH_SIZE) as nat;
    let b = BATCH_SIZE as nat;
    lemma_lazy_ids_ascending(v, k);
    assert forall|i: int, j: int| 0 <= i < BATCH_SIZE && 0 <= j < BATCH_SIZE implies #[trigger] lazy_ids(
        v,
        b,
    )[i] < #[trigger] lazy_ids(lazy_iter(v, b), b)[j] by {
        lemma_lazy_ids_index(v, b, i);
        lemma_lazy_ids_index(lazy_iter(v, b), b, j);
        lemma_lazy_iter_add(v, b, (j + 1) as nat);
        lemma_lazy_ids_index(v, k, i);
        lemma_lazy_ids_index(v, k, BATCH_SIZE + j);
        assert((b + (j + 1) as nat) as nat == (BATCH_SIZE + j + 1) as nat);
        assert(lazy_ids(v, k)[i] < lazy_ids(v, k)[BATCH_SIZE + j]);
    }
}

} // verus!
