//! The buffer of pending records, and the rule that decides when it is
//! emptied.
//!
//! The batcher never sends anything. `enqueue` and `flush` hand the records
//! that are due back to the caller as a batch, in the order in which they came
//! in, and the buffer starts over empty in the same step. A record is
//! therefore in the buffer or in exactly one batch, never in both and never in
//! neither.

use vstd::prelude::*;
use vstd::arithmetic::div_mod::{lemma_fundamental_div_mod, lemma_fundamental_div_mod_converse};
use crate::item::LogItem;

verus! {

/// The smallest batch size: a batcher told to flush at zero records flushes
/// at every record, as one told to flush at one does.
pub const MIN_BATCH: usize = 1;

/// The shortest flush interval, in milliseconds.
pub const MIN_INTERVAL_MS: u64 = 1;

/// What a [`Batcher`] means.
pub ghost struct BatcherState {
    /// The records that wait to be sent, oldest first.
    pub pending: Seq<LogItem>,
    /// The number of pending records at which the buffer is emptied.
    pub threshold: nat,
    /// The period of the flush timer, in milliseconds.
    pub interval_ms: nat,
}

impl BatcherState {
    /// The buffer is always short of the threshold, and the threshold and the
    /// interval are at least one.
    pub open spec fn valid(self) -> bool {
        &&& self.threshold >= MIN_BATCH
        &&& self.interval_ms >= MIN_INTERVAL_MS
        &&& self.pending.len() < self.threshold
    }

    /// The state with the buffer emptied.
    pub open spec fn drained(self) -> BatcherState {
        BatcherState { pending: Seq::empty(), ..self }
    }

    /// One record comes in. Where that brings the buffer up to the threshold,
    /// the whole buffer, the new record last, leaves as a batch.
    pub open spec fn enqueue(self, item: LogItem) -> (BatcherState, Option<Seq<LogItem>>) {
        let grown = self.pending.push(item);
        if grown.len() >= self.threshold {
            (self.drained(), Some(grown))
        } else {
            (BatcherState { pending: grown, ..self }, None)
        }
    }

    /// The buffer is emptied on request. An empty buffer gives no batch.
    pub open spec fn flush(self) -> (BatcherState, Option<Seq<LogItem>>) {
        if self.pending.len() == 0 {
            (self, None)
        } else {
            (self.drained(), Some(self.pending))
        }
    }
}

/// The pending records and the threshold at which they are handed out.
#[derive(Debug)]
pub struct Batcher {
    buf: Vec<LogItem>,
    max_batch: usize,
    flush_interval_ms: u64,
}

impl View for Batcher {
    type V = BatcherState;

    closed spec fn view(&self) -> BatcherState {
        BatcherState {
            pending: self.buf@,
            threshold: self.max_batch as nat,
            interval_ms: self.flush_interval_ms as nat,
        }
    }
}

/// The batch size that is in force when `max_batch` is asked for.
pub open spec fn effective_batch(max_batch: usize) -> nat {
    if max_batch < MIN_BATCH {
        MIN_BATCH as nat
    } else {
        max_batch as nat
    }
}

/// The flush interval that is in force when `flush_interval_ms` is asked for.
pub open spec fn effective_interval(flush_interval_ms: u64) -> nat {
    if flush_interval_ms < MIN_INTERVAL_MS {
        MIN_INTERVAL_MS as nat
    } else {
        flush_interval_ms as nat
    }
}

impl Batcher {
    #[verifier::type_invariant]
    spec fn well_formed(self) -> bool {
        self@.valid()
    }

    /// An empty batcher that hands out a batch at `max_batch` records and
    /// whose timer is to fire every `flush_interval_ms` milliseconds. A zero
    /// in either place counts as one.
    pub fn new(max_batch: usize, flush_interval_ms: u64) -> (batcher: Batcher)
        ensures
            batcher@.valid(),
            batcher@ == (BatcherState {
                pending: Seq::empty(),
                threshold: effective_batch(max_batch),
                interval_ms: effective_interval(flush_interval_ms),
            }),
    {
        Batcher {
            buf: Vec::new(),
            max_batch: if max_batch < MIN_BATCH { MIN_BATCH } else { max_batch },
            flush_interval_ms: if flush_interval_ms < MIN_INTERVAL_MS {
                MIN_INTERVAL_MS
            } else {
                flush_interval_ms
            },
        }
    }

    /// The number of pending records.
    pub fn len(&self) -> (len: usize)
        ensures
            len == self@.pending.len(),
            self@.valid(),
    {
        proof {
            use_type_invariant(self);
        }
        self.buf.len()
    }

    /// Whether nothing is pending.
    pub fn is_empty(&self) -> (empty: bool)
        ensures
            empty == (self@.pending.len() == 0),
    {
        self.buf.len() == 0
    }

    /// The number of pending records at which a batch is handed out.
    pub fn max_batch(&self) -> (max_batch: usize)
        ensures
            max_batch == self@.threshold,
    {
        self.max_batch
    }

    /// The period of the flush timer, in milliseconds.
    pub fn flush_interval_ms(&self) -> (interval: u64)
        ensures
            interval == self@.interval_ms,
    {
        self.flush_interval_ms
    }

    /// Takes everything out of the buffer.
    fn take_all(&mut self) -> (batch: Vec<LogItem>)
        ensures
            batch@ == old(self)@.pending,
            final(self)@ == old(self)@.drained(),
    {
        proof {
            use_type_invariant(&*self);
        }
        let mut batch: Vec<LogItem> = Vec::new();
        core::mem::swap(&mut self.buf, &mut batch);
        batch
    }

    /// Appends `item` to the buffer. Where that brings the buffer up to the
    /// threshold, the whole buffer is handed back as a batch that is due for
    /// sending, and the buffer is empty again.
    pub fn enqueue(&mut self, item: LogItem) -> (batch: Option<Vec<LogItem>>)
        ensures
            final(self)@.valid(),
            final(self)@ == old(self)@.enqueue(item).0,
            match batch {
                Some(due) => old(self)@.enqueue(item).1 == Some(due@),
                None => old(self)@.enqueue(item).1 is None,
            },
    {
        proof {
            use_type_invariant(&*self);
        }
        let mut grown = self.take_all();
        grown.push(item);
        if grown.len() >= self.max_batch {
            Some(grown)
        } else {
            core::mem::swap(&mut self.buf, &mut grown);
            None
        }
    }

    /// Empties the buffer and hands its records back as a batch that is due
    /// for sending. With nothing pending there is no batch, and nothing to
    /// send.
    pub fn flush(&mut self) -> (batch: Option<Vec<LogItem>>)
        ensures
            final(self)@.valid(),
            final(self)@ == old(self)@.flush().0,
            match batch {
                Some(due) => old(self)@.flush().1 == Some(due@),
                None => old(self)@.flush().1 is None,
            },
            old(self)@.pending.len() == 0 ==> batch is None && final(self)@ == old(self)@,
    {
        proof {
            use_type_invariant(&*self);
        }
        if self.buf.len() == 0 {
            None
        } else {
            Some(self.take_all())
        }
    }
}

/// What happens when `items` are enqueued one after another, starting in
/// `state`: the state at the end, and the batches that left on the way, in
/// the order in which they left.
pub open spec fn enqueue_all(state: BatcherState, items: Seq<LogItem>) -> (BatcherState, Seq<Seq<LogItem>>)
    decreases items.len(),
{
    if items.len() == 0 {
        (state, Seq::empty())
    } else {
        let (before, batches) = enqueue_all(state, items.drop_last());
        let (after, batch) = before.enqueue(items.last());
        (
            after,
            match batch {
                Some(due) => batches.push(due),
                None => batches,
            },
        )
    }
}

/// One thing that can happen to a buffer.
pub ghost enum BufferOp {
    /// A record comes in.
    Enqueue(LogItem),
    /// A flush is asked for, by the caller or by the timer.
    Flush,
}

/// What happens when `ops` are applied one after another, starting in
/// `state`: the state at the end, and the batches that left on the way, in
/// the order in which they left.
pub open spec fn run(state: BatcherState, ops: Seq<BufferOp>) -> (BatcherState, Seq<Seq<LogItem>>)
    decreases ops.len(),
{
    if ops.len() == 0 {
        (state, Seq::empty())
    } else {
        let (before, batches) = run(state, ops.drop_last());
        let (after, batch) = match ops.last() {
            BufferOp::Enqueue(item) => before.enqueue(item),
            BufferOp::Flush => before.flush(),
        };
        (
            after,
            match batch {
                Some(due) => batches.push(due),
                None => batches,
            },
        )
    }
}

/// The records that `ops` bring in, in their order.
pub open spec fn logged(ops: Seq<BufferOp>) -> Seq<LogItem>
    decreases ops.len(),
{
    if ops.len() == 0 {
        Seq::empty()
    } else {
        match ops.last() {
            BufferOp::Enqueue(item) => logged(ops.drop_last()).push(item),
            BufferOp::Flush => logged(ops.drop_last()),
        }
    }
}

/// Whatever is enqueued into an empty buffer, the buffer holds the records
/// that came in after the last full batch, and the batches are the full
/// groups of `threshold` records before them, in order. The buffer's length
/// after `n` records is therefore `n` modulo the threshold.
pub proof fn lemma_batches_are_full_groups(state: BatcherState, items: Seq<LogItem>)
    requires
        state.valid(),
        state.pending.len() == 0,
    ensures
        enqueue_all(state, items).0 == (BatcherState {
            pending: items.subrange(
                items.len() - items.len() % state.threshold,
                items.len() as int,
            ),
            ..state
        }),
        enqueue_all(state, items).0.pending.len() == items.len() % state.threshold,
        enqueue_all(state, items).1.len() == items.len() / state.threshold,
        (items.len() / state.threshold) * state.threshold <= items.len(),
        forall|j: int|
            0 <= j < items.len() / state.threshold ==> #[trigger] enqueue_all(state, items).1[j]
                == items.subrange(j * state.threshold, (j + 1) * state.threshold),
    decreases items.len(),
{
    let t = state.threshold as int;
    let n = items.len() as int;
    if n == 0 {
        assert(items.subrange(0, 0) =~= Seq::<LogItem>::empty());
        assert(state.pending =~= Seq::<LogItem>::empty());
        lemma_fundamental_div_mod_converse(0, t, 0, 0);
    } else {
        let m = n - 1;
        let prev = items.drop_last();
        lemma_batches_are_full_groups(state, prev);
        let (before, batches) = enqueue_all(state, prev);
        let (after, all) = enqueue_all(state, items);
        let q = m / t;
        let r = m % t;
        // m == q * t + r with 0 <= r < t
        lemma_fundamental_div_mod(m, t);
        lemma_group_bounds(0, q + 1, t);
        assert(m == q * t + r) by (nonlinear_arith)
            requires
                m == t * q + r,
        ;
        // The buffer after the new record: everything since the last full group.
        let grown = before.pending.push(items.last());
        assert(grown =~= items.subrange(m - r, n));
        // The groups that had left before are groups of `items` too.
        assert forall|j: int| 0 <= j < q implies batches[j] == items.subrange(j * t, (j + 1) * t) by {
            lemma_group_bounds(j, q, t);
            assert(prev.subrange(j * t, (j + 1) * t) =~= items.subrange(j * t, (j + 1) * t));
        }
        if r + 1 >= t {
            // The new record completes group q: n == (q + 1) * t.
            assert((q + 1) * t == q * t + t) by (nonlinear_arith);
            lemma_fundamental_div_mod_converse(n, t, q + 1, 0);
            assert(items.subrange(n - 0, n) =~= Seq::<LogItem>::empty());
            assert(all == batches.push(grown));
            assert forall|j: int| 0 <= j < n / t implies #[trigger] all[j] == items.subrange(
                j * t,
                (j + 1) * t,
            ) by {
                if j < q {
                    assert(all[j] == batches[j]);
                }
            }
        } else {
            // The new record stays in the buffer: n == q * t + (r + 1).
            lemma_fundamental_div_mod_converse(n, t, q, r + 1);
            assert(all == batches);
        }
    }
}

/// Group `j` of `q` groups of `t` lies within the first `q * t` places.
proof fn lemma_group_bounds(j: int, q: int, t: int)
    requires
        0 <= j < q,
        t >= 1,
    ensures
        0 <= j * t,
        (j + 1) * t == j * t + t,
        (j + 1) * t <= q * t,
{
    assert(0 <= j * t) by (nonlinear_arith)
        requires
            0 <= j,
            t >= 1,
    ;
    assert((j + 1) * t == j * t + t) by (nonlinear_arith);
    assert((j + 1) * t <= q * t) by (nonlinear_arith)
        requires
            j + 1 <= q,
            t >= 1,
    ;
}

/// Fewer records than the threshold, enqueued into an empty buffer, all stay
/// in the buffer: no batch leaves, so nothing is due for sending until a
/// flush is asked for.
pub proof fn lemma_below_threshold_nothing_is_due(state: BatcherState, items: Seq<LogItem>)
    requires
        state.valid(),
        state.pending.len() == 0,
        items.len() < state.threshold,
    ensures
        enqueue_all(state, items).1.len() == 0,
        enqueue_all(state, items).0 == (BatcherState { pending: items, ..state }),
{
    let t = state.threshold as int;
    let n = items.len() as int;
    lemma_batches_are_full_groups(state, items);
    lemma_fundamental_div_mod_converse(n, t, 0, n);
    assert(items.subrange(0, n) =~= items);
}

/// A batch leaves within the call that brings the buffer up to the
/// threshold, and within no other: of the records enqueued into an empty
/// buffer, it is every `threshold`-th that is answered with a batch, and that
/// batch is the last `threshold` records.
pub proof fn lemma_flush_at_each_threshold_crossing(state: BatcherState, items: Seq<LogItem>, k: int)
    requires
        state.valid(),
        state.pending.len() == 0,
        0 <= k < items.len(),
    ensures
        enqueue_all(state, items.take(k)).0.enqueue(items[k]).1 is Some <==> (k + 1) % (
        state.threshold as int) == 0,
        (k + 1) % (state.threshold as int) == 0 ==> k + 1 >= state.threshold && enqueue_all(
            state,
            items.take(k),
        ).0.enqueue(items[k]).1 == Some(items.subrange(k + 1 - state.threshold, k + 1)),
{
    let t = state.threshold as int;
    let prev = items.take(k);
    lemma_batches_are_full_groups(state, prev);
    let before = enqueue_all(state, prev).0;
    let q = k / t;
    let r = k % t;
    lemma_fundamental_div_mod(k, t);
    let grown = before.pending.push(items[k]);
    assert(prev.subrange(k - r, k) =~= items.subrange(k - r, k));
    assert(grown =~= items.subrange(k - r, k + 1));
    if r + 1 >= t {
        assert(k + 1 == (q + 1) * t + 0) by (nonlinear_arith)
            requires
                k == t * q + r,
                r + 1 == t,
        ;
        lemma_fundamental_div_mod_converse(k + 1, t, q + 1, 0);
        assert(k - r == k + 1 - t);
    } else {
        assert(k + 1 == q * t + (r + 1)) by (nonlinear_arith)
            requires
                k == t * q + r,
        ;
        lemma_fundamental_div_mod_converse(k + 1, t, q, r + 1);
    }
}

/// No record is lost and none is sent twice, however enqueues and flushes
/// follow one another: the batches that have left, in order, followed by what
/// is in the buffer, are the records that were in the buffer at the start
/// followed by those that came in, each once and in the order of arrival.
pub proof fn lemma_every_record_once(state: BatcherState, ops: Seq<BufferOp>)
    ensures
        run(state, ops).1.flatten() + run(state, ops).0.pending == state.pending + logged(ops),
    decreases ops.len(),
{
    if ops.len() == 0 {
        assert(Seq::<Seq<LogItem>>::empty().flatten() =~= Seq::<LogItem>::empty());
        assert(Seq::<LogItem>::empty() + state.pending =~= state.pending + Seq::<LogItem>::empty());
    } else {
        lemma_every_record_once(state, ops.drop_last());
        let (before, batches) = run(state, ops.drop_last());
        let earlier = logged(ops.drop_last());
        assert(batches.flatten() + before.pending == state.pending + earlier);
        match ops.last() {
            BufferOp::Enqueue(item) => {
                let grown = before.pending.push(item);
                assert(batches.flatten() + grown =~= (batches.flatten() + before.pending).push(item));
                assert(state.pending + earlier.push(item) =~= (state.pending + earlier).push(item));
                if grown.len() >= before.threshold {
                    batches.lemma_flatten_push(grown);
                    assert(batches.push(grown).flatten() + Seq::<LogItem>::empty() =~= batches.flatten()
                        + grown);
                }
            },
            BufferOp::Flush => {
                if before.pending.len() != 0 {
                    batches.lemma_flatten_push(before.pending);
                    assert(batches.push(before.pending).flatten() + Seq::<LogItem>::empty()
                        =~= batches.flatten() + before.pending);
                }
            },
        }
    }
}

/// Whatever happens to a valid buffer, it stays valid, and every batch that
/// leaves holds at least one record and at most `threshold` of them.
pub proof fn lemma_batches_are_never_empty_nor_oversized(state: BatcherState, ops: Seq<BufferOp>)
    requires
        state.valid(),
    ensures
        run(state, ops).0.valid(),
        run(state, ops).0.threshold == state.threshold,
        forall|j: int|
            0 <= j < run(state, ops).1.len() ==> 0 < (#[trigger] run(state, ops).1[j]).len()
                <= state.threshold,
    decreases ops.len(),
{
    if ops.len() > 0 {
        lemma_batches_are_never_empty_nor_oversized(state, ops.drop_last());
    }
}

} // verus!
