//! The batch processor: a bounded queue of emitted records drained in batches.
//!
//! The processor holds the decisions only. A single consumer task runs it:
//! it hands over each emitted record, asks whether an export is due, awaits
//! each batch's export before asking again, and reports the outcome.
use crate::error::ConfigurationError;
use std::collections::VecDeque;
use vstd::prelude::*;

verus! {

/// Default capacity of the queue.
pub const DEFAULT_MAX_QUEUE_SIZE: usize = 2048;

/// Default delay between two scheduled exports, in milliseconds.
pub const DEFAULT_SCHEDULED_DELAY_MS: u64 = 1000;

/// Default largest batch handed to the exporter at once.
pub const DEFAULT_MAX_EXPORT_BATCH_SIZE: usize = 512;

/// Default bound on one export call, in milliseconds.
pub const DEFAULT_MAX_EXPORT_TIMEOUT_MS: u64 = 30000;

/// Queue and batching parameters of a batch processor.
#[derive(Clone, Copy, Debug)]
pub struct BatchConfig {
    pub max_queue_size: usize,
    pub scheduled_delay_ms: u64,
    pub max_export_batch_size: usize,
    pub max_export_timeout_ms: u64,
}

impl BatchConfig {
    /// A batch is never empty and never larger than the queue.
    pub open spec fn wf(&self) -> bool {
        0 < self.max_export_batch_size <= self.max_queue_size
    }

    /// Builds a configuration, lowering the batch size to the queue size where
    /// it is larger; an empty queue or an empty batch is refused.
    pub fn new(
        max_queue_size: usize,
        scheduled_delay_ms: u64,
        max_export_batch_size: usize,
        max_export_timeout_ms: u64,
    ) -> (r: Result<BatchConfig, ConfigurationError>)
        ensures
            (max_queue_size == 0 || max_export_batch_size == 0) <==> r is Err,
            r is Err ==> r->Err_0 == ConfigurationError::InvalidBatchConfig,
            r is Ok ==> {
                let c = r->Ok_0;
                &&& c.wf()
                &&& c.max_queue_size == max_queue_size
                &&& c.scheduled_delay_ms == scheduled_delay_ms
                &&& c.max_export_batch_size == (if max_export_batch_size <= max_queue_size {
                    max_export_batch_size
                } else {
                    max_queue_size
                })
                &&& c.max_export_timeout_ms == max_export_timeout_ms
            },
    {
        if max_queue_size == 0 || max_export_batch_size == 0 {
            return Err(ConfigurationError::InvalidBatchConfig);
        }
        let batch: usize = if max_export_batch_size <= max_queue_size {
            max_export_batch_size
        } else {
            max_queue_size
        };
        Ok(BatchConfig {
            max_queue_size,
            scheduled_delay_ms,
            max_export_batch_size: batch,
            max_export_timeout_ms,
        })
    }

    /// Whether this configuration can drive a processor.
    pub fn is_valid(&self) -> (r: bool)
        ensures
            r == self.wf(),
    {
        0 < self.max_export_batch_size && self.max_export_batch_size <= self.max_queue_size
    }
}

/// The configuration used where none is given.
pub open spec fn default_batch_config() -> BatchConfig {
    BatchConfig {
        max_queue_size: DEFAULT_MAX_QUEUE_SIZE,
        scheduled_delay_ms: DEFAULT_SCHEDULED_DELAY_MS,
        max_export_batch_size: DEFAULT_MAX_EXPORT_BATCH_SIZE,
        max_export_timeout_ms: DEFAULT_MAX_EXPORT_TIMEOUT_MS,
    }
}

impl Default for BatchConfig {
    fn default() -> (r: BatchConfig)
        ensures
            r == default_batch_config(),
            r.wf(),
    {
        BatchConfig {
            max_queue_size: DEFAULT_MAX_QUEUE_SIZE,
            scheduled_delay_ms: DEFAULT_SCHEDULED_DELAY_MS,
            max_export_batch_size: DEFAULT_MAX_EXPORT_BATCH_SIZE,
            max_export_timeout_ms: DEFAULT_MAX_EXPORT_TIMEOUT_MS,
        }
    }
}

/// The size of the next batch taken from a queue of `len` records.
pub open spec fn batch_len(len: nat, n: nat) -> nat {
    if len < n {
        len
    } else {
        n
    }
}

/// A queue split, front first, into consecutive batches of `n` records, the
/// last one possibly shorter.
pub open spec fn batches<T>(q: Seq<T>, n: nat) -> Seq<Seq<T>>
    decreases q.len(),
{
    if q.len() == 0 || n == 0 {
        Seq::empty()
    } else {
        let k = batch_len(q.len(), n) as int;
        seq![q.take(k)] + batches(q.skip(k), n)
    }
}

/// The queue after one record is offered: kept at the back while there is
/// room, dropped when the queue is full.
pub open spec fn enqueue<T>(q: Seq<T>, record: T, cap: nat) -> Seq<T> {
    if q.len() < cap {
        q.push(record)
    } else {
        q
    }
}

/// The queue after the records are offered one after the other.
pub open spec fn enqueue_all<T>(q: Seq<T>, records: Seq<T>, cap: nat) -> Seq<T>
    decreases records.len(),
{
    if records.len() == 0 {
        q
    } else {
        enqueue(enqueue_all(q, records.drop_last(), cap), records.last(), cap)
    }
}

/// The contents of a list of batches.
pub open spec fn batch_views<T>(bs: Seq<Vec<T>>) -> Seq<Seq<T>> {
    bs.map_values(|b: Vec<T>| b@)
}

/// A counter that goes up by one and stays at its largest value.
pub open spec fn bumped(c: u64) -> u64 {
    if c == u64::MAX {
        c
    } else {
        (c + 1) as u64
    }
}

/// Buffers emitted records and decides when and what to export.
#[derive(Debug)]
pub struct BatchLogProcessor<T> {
    config: BatchConfig,
    queue: VecDeque<T>,
    dropped: u64,
    failed_exports: u64,
    shut_down: bool,
    in_flight: bool,
}

impl<T> BatchLogProcessor<T> {
    pub closed spec fn config_spec(&self) -> BatchConfig {
        self.config
    }

    /// The records waiting for export, oldest first.
    pub closed spec fn queued(&self) -> Seq<T> {
        self.queue@
    }

    /// Records refused because the queue was full.
    pub closed spec fn dropped_spec(&self) -> u64 {
        self.dropped
    }

    /// Exports that reported a failure.
    pub closed spec fn failed_exports_spec(&self) -> u64 {
        self.failed_exports
    }

    pub closed spec fn is_shut_down(&self) -> bool {
        self.shut_down
    }

    /// A batch handed out by `poll` whose outcome has not been recorded yet.
    pub closed spec fn export_in_flight(&self) -> bool {
        self.in_flight
    }

    pub open spec fn cap(&self) -> nat {
        self.config_spec().max_queue_size as nat
    }

    pub open spec fn batch_size(&self) -> nat {
        self.config_spec().max_export_batch_size as nat
    }

    pub open spec fn wf(&self) -> bool {
        &&& self.config_spec().wf()
        &&& self.queued().len() <= self.cap()
    }

    /// Whether the consumer should export now, `elapsed_ms` after the last
    /// export: no export is in flight, and a full batch is waiting or the
    /// scheduled delay has passed with records waiting.
    pub open spec fn export_due(&self, elapsed_ms: u64) -> bool {
        &&& !self.is_shut_down()
        &&& !self.export_in_flight()
        &&& self.queued().len() > 0
        &&& (self.queued().len() >= self.batch_size() || elapsed_ms
            >= self.config_spec().scheduled_delay_ms)
    }

    /// The counters and the configuration are the same in both states.
    pub open spec fn same_bookkeeping(&self, other: &Self) -> bool {
        &&& self.config_spec() == other.config_spec()
        &&& self.dropped_spec() == other.dropped_spec()
        &&& self.failed_exports_spec() == other.failed_exports_spec()
        &&& self.is_shut_down() == other.is_shut_down()
        &&& self.export_in_flight() == other.export_in_flight()
    }

    /// What a call of `shutdown` does: the first call drains the whole queue
    /// in batches and stops the processor; a later one changes nothing and
    /// asks for no export.
    pub open spec fn shutdown_step(
        before: &Self,
        after: &Self,
        r: Option<Seq<Seq<T>>>,
    ) -> bool {
        &&& after.is_shut_down()
        &&& before.is_shut_down() ==> r is None && *after == *before
        &&& !before.is_shut_down() ==> {
            &&& r == Some(batches(before.queued(), before.batch_size()))
            &&& after.queued() == Seq::<T>::empty()
            &&& after.config_spec() == before.config_spec()
            &&& after.dropped_spec() == before.dropped_spec()
            &&& after.failed_exports_spec() == before.failed_exports_spec()
            &&& after.export_in_flight() == before.export_in_flight()
        }
    }

    pub fn new(config: BatchConfig) -> (r: Self)
        requires
            config.wf(),
        ensures
            r.wf(),
            r.config_spec() == config,
            r.queued() == Seq::<T>::empty(),
            r.dropped_spec() == 0,
            r.failed_exports_spec() == 0,
            !r.is_shut_down(),
            !r.export_in_flight(),
    {
        BatchLogProcessor {
            config,
            queue: VecDeque::new(),
            dropped: 0,
            failed_exports: 0,
            shut_down: false,
            in_flight: false,
        }
    }

    /// Offers a record. It is queued while there is room; when the queue is
    /// full it is dropped and counted. After shutdown nothing is accepted.
    pub fn emit(&mut self, record: T) -> (accepted: bool)
        requires
            old(self).wf(),
        ensures
            final(self).wf(),
            accepted == (!old(self).is_shut_down() && old(self).queued().len() < old(self).cap()),
            old(self).is_shut_down() ==> *final(self) == *old(self),
            !old(self).is_shut_down() ==> {
                &&& final(self).queued() == enqueue(old(self).queued(), record, old(self).cap())
                &&& final(self).dropped_spec() == if accepted {
                    old(self).dropped_spec()
                } else {
                    bumped(old(self).dropped_spec())
                }
                &&& final(self).config_spec() == old(self).config_spec()
                &&& final(self).failed_exports_spec() == old(self).failed_exports_spec()
                &&& final(self).export_in_flight() == old(self).export_in_flight()
                &&& !final(self).is_shut_down()
            },
    {
        if self.shut_down {
            return false;
        }
        if self.queue.len() < self.config.max_queue_size {
            self.queue.push_back(record);
            true
        } else {
            self.dropped = self.dropped.saturating_add(1);
            false
        }
    }

    /// Takes the next batch off the front of the queue.
    fn take_batch(&mut self) -> (r: Vec<T>)
        requires
            old(self).wf(),
        ensures
            final(self).wf(),
            final(self).same_bookkeeping(old(self)),
            r@ == old(self).queued().take(
                batch_len(old(self).queued().len(), old(self).batch_size()) as int,
            ),
            final(self).queued() == old(self).queued().skip(
                batch_len(old(self).queued().len(), old(self).batch_size()) as int,
            ),
    {
        let ghost q0 = self.queue@;
        let limit = self.config.max_export_batch_size;
        let mut batch: Vec<T> = Vec::new();
        while batch.len() < limit && self.queue.len() > 0
            invariant
                batch@ + self.queue@ == q0,
                batch.len() <= limit,
                limit == self.config.max_export_batch_size,
                self.config == old(self).config,
                self.dropped == old(self).dropped,
                self.failed_exports == old(self).failed_exports,
                self.shut_down == old(self).shut_down,
                self.in_flight == old(self).in_flight,
                q0 == old(self).queue@,
                old(self).wf(),
            decreases self.queue@.len(),
        {
            let ghost before = self.queue@;
            match self.queue.pop_front() {
                Some(x) => {
                    batch.push(x);
                    assert(batch@ + self.queue@ =~= q0) by {
                        assert(before =~= seq![x] + self.queue@);
                    }
                },
                None => {},
            }
        }
        let ghost k = batch_len(q0.len(), limit as nat) as int;
        assert(batch@.len() == k);
        assert(batch@ =~= q0.take(k));
        assert(self.queue@ =~= q0.skip(k));
        batch
    }

    /// Hands out the next batch when an export is due, `elapsed_ms` after the
    /// last one. No other batch is handed out until its outcome is recorded.
    pub fn poll(&mut self, elapsed_ms: u64) -> (r: Option<Vec<T>>)
        requires
            old(self).wf(),
        ensures
            final(self).wf(),
            old(self).export_due(elapsed_ms) ==> {
                let k = batch_len(old(self).queued().len(), old(self).batch_size()) as int;
                &&& r is Some
                &&& final(self).export_in_flight()
                &&& final(self).config_spec() == old(self).config_spec()
                &&& final(self).dropped_spec() == old(self).dropped_spec()
                &&& final(self).failed_exports_spec() == old(self).failed_exports_spec()
                &&& final(self).is_shut_down() == old(self).is_shut_down()
                &&& r->0@ == old(self).queued().take(k)
                &&& final(self).queued() == old(self).queued().skip(k)
            },
            !old(self).export_due(elapsed_ms) ==> r is None && *final(self) == *old(self),
    {
        if self.shut_down || self.in_flight || self.queue.len() == 0 {
            return None;
        }
        if self.queue.len() >= self.config.max_export_batch_size || elapsed_ms
            >= self.config.scheduled_delay_ms {
            let batch = self.take_batch();
            self.in_flight = true;
            Some(batch)
        } else {
            None
        }
    }

    /// Drains the whole queue, in order, into consecutive batches.
    pub fn force_flush(&mut self) -> (r: Vec<Vec<T>>)
        requires
            old(self).wf(),
        ensures
            final(self).wf(),
            final(self).same_bookkeeping(old(self)),
            final(self).queued() == Seq::<T>::empty(),
            batch_views(r@) == batches(old(self).queued(), old(self).batch_size()),
    {
        let ghost q0 = self.queue@;
        let ghost n = self.batch_size();
        let mut out: Vec<Vec<T>> = Vec::new();
        while self.queue.len() > 0
            invariant
                self.wf(),
                self.same_bookkeeping(old(self)),
                n == old(self).batch_size(),
                n > 0,
                q0 == old(self).queued(),
                batch_views(out@) + batches(self.queued(), n) == batches(q0, n),
            decreases self.queued().len(),
        {
            let ghost q = self.queued();
            let b = self.take_batch();
            let ghost rest = self.queued();
            assert(batches(q, n) == seq![b@] + batches(rest, n));
            let ghost prev = out@;
            out.push(b);
            assert(batch_views(out@) =~= batch_views(prev).push(b@));
            assert(batch_views(out@) + batches(rest, n) =~= batch_views(prev) + batches(q, n));
        }
        assert(self.queued() =~= Seq::<T>::empty());
        assert(batch_views(out@) + batches(self.queued(), n) =~= batch_views(out@));
        out
    }

    /// Stops the processor. The first call returns the remaining records in
    /// batches, to be exported before the exporter itself is shut down; a
    /// later call returns `None` and changes nothing.
    pub fn shutdown(&mut self) -> (r: Option<Vec<Vec<T>>>)
        requires
            old(self).wf(),
        ensures
            final(self).wf(),
            Self::shutdown_step(
                old(self),
                final(self),
                match r {
                    Some(bs) => Some(batch_views(bs@)),
                    None => None,
                },
            ),
    {
        if self.shut_down {
            return None;
        }
        let out = self.force_flush();
        self.shut_down = true;
        Some(out)
    }

    /// Records the outcome of the export in flight; a failed batch is not
    /// retried.
    pub fn record_export_result(&mut self, succeeded: bool)
        requires
            old(self).wf(),
        ensures
            final(self).wf(),
            final(self).queued() == old(self).queued(),
            final(self).config_spec() == old(self).config_spec(),
            final(self).dropped_spec() == old(self).dropped_spec(),
            final(self).is_shut_down() == old(self).is_shut_down(),
            !final(self).export_in_flight(),
            final(self).failed_exports_spec() == if succeeded {
                old(self).failed_exports_spec()
            } else {
                bumped(old(self).failed_exports_spec())
            },
    {
        if !succeeded {
            self.failed_exports = self.failed_exports.saturating_add(1);
        }
        self.in_flight = false;
    }

    pub fn config(&self) -> (r: BatchConfig)
        ensures
            r == self.config_spec(),
    {
        self.config
    }

    /// The number of records waiting for export.
    pub fn queue_len(&self) -> (r: usize)
        ensures
            r == self.queued().len(),
    {
        self.queue.len()
    }

    /// Records refused because the queue was full.
    pub fn dropped_count(&self) -> (r: u64)
        ensures
            r == self.dropped_spec(),
    {
        self.dropped
    }

    /// Exports that reported a failure.
    pub fn failed_export_count(&self) -> (r: u64)
        ensures
            r == self.failed_exports_spec(),
    {
        self.failed_exports
    }

    pub fn is_shutdown(&self) -> (r: bool)
        ensures
            r == self.is_shut_down(),
    {
        self.shut_down
    }

    pub fn is_export_in_flight(&self) -> (r: bool)
        ensures
            r == self.export_in_flight(),
    {
        self.in_flight
    }
}

/// Splitting a queue into batches loses, adds and reorders nothing, and every
/// batch holds between one and `n` records.
pub proof fn lemma_batches_partition<T>(q: Seq<T>, n: nat)
    requires
        n > 0,
    ensures
        batches(q, n).flatten() == q,
        forall|i: int|
            0 <= i < batches(q, n).len() ==> 0 < #[trigger] batches(q, n)[i].len() <= n,
    decreases q.len(),
{
    let bs = batches(q, n);
    if q.len() > 0 {
        let k = batch_len(q.len(), n) as int;
        let rest = batches(q.skip(k), n);
        lemma_batches_partition(q.skip(k), n);
        assert(bs.first() == q.take(k));
        assert(bs.drop_first() =~= rest);
        assert(q.take(k) + q.skip(k) =~= q);
        assert forall|i: int| 0 <= i < bs.len() implies 0 < #[trigger] bs[i].len() <= n by {
            if i > 0 {
                assert(bs[i] == rest[i - 1]);
            }
        }
    } else {
        assert(bs =~= Seq::<Seq<T>>::empty());
    }
}

/// Offering records to a queue that has room for `cap` keeps the oldest ones
/// in order, up to the capacity, and drops the rest.
pub proof fn lemma_enqueue_all_keeps_oldest<T>(q: Seq<T>, records: Seq<T>, cap: nat)
    requires
        q.len() <= cap,
    ensures
        enqueue_all(q, records, cap) == (q + records).take(
            batch_len(q.len() + records.len(), cap) as int,
        ),
        enqueue_all(q, records, cap).len() <= cap,
    decreases records.len(),
{
    if records.len() > 0 {
        let init = records.drop_last();
        lemma_enqueue_all_keeps_oldest(q, init, cap);
        let e = enqueue_all(q, init, cap);
        assert(q + records =~= (q + init).push(records.last()));
        if e.len() < cap {
            assert(e =~= q + init);
            assert(enqueue(e, records.last(), cap) =~= q + records);
        } else {
            assert(e =~= (q + records).take(cap as int));
        }
    }
}

/// Records emitted into an empty running processor, no more of them than its
/// queue holds, are all kept; a flush then hands out exactly those records, in
/// the order they were emitted, in batches of at most the batch size.
pub proof fn lemma_flush_returns_emitted<T>(records: Seq<T>, config: BatchConfig)
    requires
        config.wf(),
        records.len() <= config.max_queue_size,
    ensures
        enqueue_all(Seq::empty(), records, config.max_queue_size as nat) == records,
        batches(records, config.max_export_batch_size as nat).flatten() == records,
        forall|i: int|
            0 <= i < batches(records, config.max_export_batch_size as nat).len() ==> 0
                < #[trigger] batches(records, config.max_export_batch_size as nat)[i].len()
                <= config.max_export_batch_size,
{
    let cap = config.max_queue_size as nat;
    lemma_enqueue_all_keeps_oldest(Seq::<T>::empty(), records, cap);
    assert(Seq::<T>::empty() + records =~= records);
    assert(records.take(records.len() as int) =~= records);
    lemma_batches_partition(records, config.max_export_batch_size as nat);
}

/// Emitting more records than the queue holds keeps the first `cap` of them
/// and drops the newer excess: the queue never grows past its capacity.
pub proof fn lemma_excess_records_dropped<T>(records: Seq<T>, cap: nat)
    requires
        records.len() > cap,
    ensures
        enqueue_all(Seq::empty(), records, cap) == records.take(cap as int),
        enqueue_all(Seq::empty(), records, cap).len() == cap,
{
    lemma_enqueue_all_keeps_oldest(Seq::<T>::empty(), records, cap);
    assert(Seq::<T>::empty() + records =~= records);
}

/// Shutting a processor down twice: the second call asks for no export and
/// leaves the processor as the first call left it.
pub proof fn lemma_shutdown_idempotent<T>(
    p0: BatchLogProcessor<T>,
    p1: BatchLogProcessor<T>,
    p2: BatchLogProcessor<T>,
    r1: Option<Seq<Seq<T>>>,
    r2: Option<Seq<Seq<T>>>,
)
    requires
        BatchLogProcessor::shutdown_step(&p0, &p1, r1),
        BatchLogProcessor::shutdown_step(&p1, &p2, r2),
    ensures
        r2 is None,
        p2 == p1,
{
}

} // verus!
