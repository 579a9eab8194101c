//! Worker batches and cross-thread round aggregation.
//!
//! Every simulation worker fills a batch for a fixed wall-clock interval
//! and hands it over a channel to the single aggregator.  The aggregator
//! appends each batch to the round accumulator; as soon as one batch from
//! every worker has arrived, the round is closed: the accumulated records
//! and the current output index are handed to the encoder, the accumulator
//! is cleared, and the index moves up by exactly one.  Round boundaries
//! are defined by the count of contributions, not by wall-clock time.

use vstd::prelude::*;
use crate::codec::SimResult;

verus! {

/// One worker's batch for one interval: the records it produced, and the
/// simulated ticks they add to the throughput counter.
pub struct WorkerBatch {
    pub records: Vec<SimResult>,
    pub ticks: u64,
}

impl WorkerBatch {
    /// An empty batch whose capacity is preallocated from the previous
    /// interval's final size.
    pub fn with_capacity(hint: usize) -> (b: WorkerBatch)
        ensures
            b.records@ == Seq::<SimResult>::empty(),
            b.ticks == 0,
    {
        WorkerBatch { records: Vec::with_capacity(hint), ticks: 0 }
    }

    /// Collects one successful record together with the simulated ticks
    /// its scenario took.
    pub fn push(&mut self, r: SimResult, elapsed_ticks: u32)
        requires
            old(self).ticks + elapsed_ticks <= u64::MAX,
        ensures
            final(self).records@ == old(self).records@.push(r),
            final(self).ticks == old(self).ticks + elapsed_ticks,
    {
        self.records.push(r);
        self.ticks = self.ticks + elapsed_ticks as u64;
    }

    /// The records gathered so far; at interval expiry this is the next
    /// interval's capacity hint.
    pub fn len(&self) -> (n: usize)
        ensures
            n == self.records@.len(),
    {
        self.records.len()
    }
}

/// One closed round, ready for the encoder: the accumulated records in
/// append order and the output index the resulting file takes.
pub struct ClosedRound {
    pub records: Vec<SimResult>,
    pub file_index: u64,
}

/// The round accumulator owned by the consumer thread: it counts one
/// contribution per worker, accumulates their records, tracks total
/// simulated ticks for throughput reporting, and owns the monotone
/// output-file index.
pub struct Aggregator {
    pub worker_count: usize,
    pub contributors: usize,
    pub round: Vec<SimResult>,
    pub total_ticks: u64,
    pub next_file_index: u64,
}

impl Aggregator {
    /// There is at least one worker, and a round never holds a full
    /// complement of contributions (it is flushed the moment it would).
    pub open spec fn wf(self) -> bool {
        1 <= self.worker_count && self.contributors < self.worker_count
    }

    /// A fresh aggregator for `worker_count` workers, its output index
    /// seeded from the count of pre-existing output files.
    pub fn new(worker_count: usize, initial_index: u64) -> (a: Aggregator)
        requires
            worker_count >= 1,
        ensures
            a.wf(),
            a.worker_count == worker_count,
            a.contributors == 0,
            a.round@ == Seq::<SimResult>::empty(),
            a.total_ticks == 0,
            a.next_file_index == initial_index,
    {
        Aggregator {
            worker_count,
            contributors: 0,
            round: Vec::new(),
            total_ticks: 0,
            next_file_index: initial_index,
        }
    }

    /// Takes one received batch.  Its records are appended to the round in
    /// arrival order and its ticks are added to the throughput counter.
    /// Exactly when this batch is the `worker_count`-th contribution the
    /// round closes: the full accumulator and the current index are
    /// returned, the accumulator is left empty for the next round, and the
    /// index moves up by one; otherwise nothing is flushed and the index
    /// does not move.
    pub fn receive_batch(&mut self, batch: WorkerBatch) -> (flushed: Option<ClosedRound>)
        requires
            old(self).wf(),
            old(self).total_ticks + batch.ticks <= u64::MAX,
            old(self).next_file_index < u64::MAX,
        ensures
            final(self).wf(),
            final(self).worker_count == old(self).worker_count,
            final(self).total_ticks == old(self).total_ticks + batch.ticks,
            match flushed {
                Some(closed) => {
                    &&& old(self).contributors + 1 == old(self).worker_count
                    &&& closed.records@ == old(self).round@ + batch.records@
                    &&& closed.file_index == old(self).next_file_index
                    &&& final(self).round@ == Seq::<SimResult>::empty()
                    &&& final(self).contributors == 0
                    &&& final(self).next_file_index == old(self).next_file_index + 1
                },
                None => {
                    &&& old(self).contributors + 1 < old(self).worker_count
                    &&& final(self).round@ == old(self).round@ + batch.records@
                    &&& final(self).contributors == old(self).contributors + 1
                    &&& final(self).next_file_index == old(self).next_file_index
                },
            },
    {
        let mut incoming = batch;
        self.total_ticks = self.total_ticks + incoming.ticks;
        self.round.append(&mut incoming.records);
        if self.contributors + 1 == self.worker_count {
            self.contributors = 0;
            let mut full: Vec<SimResult> = Vec::new();
            core::mem::swap(&mut full, &mut self.round);
            let idx = self.next_file_index;
            self.next_file_index = idx + 1;
            Some(ClosedRound { records: full, file_index: idx })
        } else {
            self.contributors = self.contributors + 1;
            None
        }
    }

    /// Total simulated ticks received so far, for throughput reporting.
    pub fn total_ticks(&self) -> (t: u64)
        ensures
            t == self.total_ticks,
    {
        self.total_ticks
    }
}

} // verus!
