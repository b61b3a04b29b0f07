//! The batch indexer: the core cycle algorithm.
//!
//! A cycle derives the next height from the store, asks the upstream
//! for its latest height, and then closes the whole gap in bounded
//! batches: fetch at most `b` consecutive heights, write them in one
//! atomic statement, advance, repeat.  `next_step` is the per-batch
//! decision an I/O loop drives; `run_cycle` is the whole algorithm run
//! against an in-memory snapshot of the chain.

use vstd::prelude::*;
use crate::errors::IndexError;
use crate::records::IndexedRecord;
use crate::store::StoreModel;
use crate::store::claims_height;

verus! {

/// The exclusive end of a batch starting at `next`: `next + b` capped
/// at `latest`.
pub open spec fn spec_batch_end(next: int, latest: int, b: int) -> int {
    if next + b <= latest {
        next + b
    } else {
        latest
    }
}

/// How many batches one cycle performs before it is caught up.
pub open spec fn spec_num_batches(next: int, latest: int, b: int) -> int
    decreases latest - next,
{
    if next >= latest || b < 1 {
        0
    } else {
        1 + spec_num_batches(spec_batch_end(next, latest, b), latest, b)
    }
}

/// Computes where the batch starting at `next` ends: `b` heights, or
/// fewer when the chain tip is closer.
pub fn batch_end(next: i64, latest: i64, b: i64) -> (r: i64)
    requires
        0 <= next < latest,
        1 <= b,
    ensures
        r == spec_batch_end(next as int, latest as int, b as int),
        next < r <= latest,
        r - next <= b,
{
    if latest - next > b {
        next + b
    } else {
        latest
    }
}

/// What one step of the cycle should do.
#[derive(Clone, Copy, Debug, PartialEq, Eq, Structural)]
pub enum CycleStep {
    /// Fetch the heights `[start, end)` concurrently, then insert all
    /// of them in one statement.
    FetchBatch { start: i64, end: i64 },
    /// Caught up: the cycle ends as a no-op success.
    Done,
}

/// Decides the next step of a cycle: a no-op once `next` has reached
/// `latest`, otherwise one more bounded batch.  A cycle whose first
/// decision is `Done` performs zero fetches and zero writes.
pub fn next_step(next: i64, latest: i64, b: i64) -> (r: CycleStep)
    requires
        0 <= next,
        1 <= b,
    ensures
        next >= latest ==> r == CycleStep::Done,
        next < latest ==> (r matches CycleStep::FetchBatch { start, end } && start == next && end
            == spec_batch_end(next as int, latest as int, b as int)),
{
    if next >= latest {
        CycleStep::Done
    } else {
        let end = batch_end(next, latest, b);
        CycleStep::FetchBatch { start: next, end }
    }
}

/// The row-count guard of the atomic batch write: the store must
/// report exactly one inserted row per fetched record; any smaller
/// count means a concurrent writer or a checkpoint inconsistency, and
/// the cycle aborts instead of advancing.
pub fn check_inserted_count(count: u64, expected: usize) -> (r: Result<(), IndexError>)
    ensures
        r is Ok <==> count == expected as u64,
        r is Err ==> r->Err_0 == IndexError::InsertedIncorrectNumberOfRows,
{
    if count == expected as u64 {
        Ok(())
    } else {
        Err(IndexError::InsertedIncorrectNumberOfRows)
    }
}

/// An in-memory snapshot of the chain: the proposer of every height in
/// `[base, base + proposers.len())`.
pub struct ChainView {
    /// First height the snapshot covers.
    pub base: i64,
    /// `proposers[i]` produced the block at height `base + i`.
    pub proposers: Vec<String>,
}

impl ChainView {
    /// Heights are non-negative chain positions and stay within `i64`.
    pub open spec fn wf(self) -> bool {
        0 <= self.base && self.base + self.proposers@.len() <= i64::MAX
    }

    /// One past the last height the snapshot covers.
    pub open spec fn spec_end(self) -> int {
        self.base + self.proposers@.len()
    }

    /// The proposer of the block at height `h`.
    pub open spec fn proposer_at(self, h: int) -> Seq<char> {
        self.proposers@[h - self.base]@
    }

    /// The fan-out of one batch: one fetch per height of `[start,
    /// end)`.  Whatever order the fetches complete in, every record
    /// carries the height it was requested for, so the result is fully
    /// determined by the range.
    pub fn fetch_range(&self, start: i64, end: i64) -> (r: Vec<IndexedRecord>)
        requires
            self.wf(),
            self.base <= start <= end <= self.spec_end(),
        ensures
            r@.len() == end - start,
            forall|i: int|
                0 <= i < r@.len() ==> (#[trigger] r@[i]).height == start + i
                    && r@[i].proposer@ == self.proposer_at(start + i),
    {
        let total = self.proposers.len();
        proof {
            assert(end - start <= total);
            assert(start - self.base <= total);
        }
        let n = (end - start) as usize;
        let off = (start - self.base) as usize;
        let mut out: Vec<IndexedRecord> = Vec::new();
        let mut i: usize = 0;
        while i < n
            invariant
                n == end - start,
                off == start - self.base,
                off + n <= self.proposers@.len(),
                self.proposers@.len() <= usize::MAX,
                self.wf(),
                self.base <= start <= end <= self.spec_end(),
                0 <= i <= n,
                out@.len() == i,
                forall|k: int|
                    0 <= k < i ==> (#[trigger] out@[k]).height == start + k
                        && out@[k].proposer@ == self.proposer_at(start + k),
            decreases n - i,
        {
            let h = start + (i as i64);
            let proposer = self.proposers[off + i].clone();
            out.push(IndexedRecord { height: h, proposer });
            i = i + 1;
        }
        out
    }
}

/// One full indexing cycle against a chain snapshot.
///
/// Starting from the store-derived next height, performs bounded
/// batches until caught up to `latest` and returns how many batches it
/// took.  When the store is already at or past `latest` the cycle is a
/// no-op success of zero batches.  On success the store holds exactly
/// the old rows plus one row per height of `[next, latest)`, each
/// mapped to the proposer the chain reports for it: no gaps, no
/// duplicates.
pub fn run_cycle(store: &mut StoreModel, chain: &ChainView, latest: i64, b: i64) -> (r: Result<
    u64,
    IndexError,
>)
    requires
        old(store).wf(),
        chain.wf(),
        1 <= b,
        old(store).spec_next_height() < latest ==> chain.base <= old(store).spec_next_height()
            && latest <= chain.spec_end(),
    ensures
        final(store).wf(),
        final(store).lowest == old(store).lowest,
        r is Ok,
        r->Ok_0 == spec_num_batches(old(store).spec_next_height(), latest as int, b as int),
        old(store).spec_next_height() >= latest ==> final(store).rows@ == old(store).rows@
            && r->Ok_0 == 0,
        forall|i: int|
            0 <= i < old(store).rows@.len() ==> (#[trigger] final(store).rows@[i]) == old(
                store,
            ).rows@[i],
        final(store).rows@.len() == if old(store).spec_next_height() < latest {
            old(store).rows@.len() + (latest - old(store).spec_next_height())
        } else {
            old(store).rows@.len() as int
        },
        forall|i: int|
            old(store).rows@.len() <= i < final(store).rows@.len()
                ==> (#[trigger] final(store).rows@[i]).height == old(store).lowest + i
                && final(store).rows@[i].proposer@ == chain.proposer_at(old(store).lowest + i),
{
    let mut next = store.next_height();
    let ghost first = next as int;
    let ghost lowest0 = store.lowest as int;
    let ghost len0 = store.rows@.len() as int;
    if next >= latest {
        return Ok(0);
    }
    let mut batches: u64 = 0;
    while next < latest
        invariant
            store.wf(),
            chain.wf(),
            1 <= b,
            store.lowest == old(store).lowest,
            lowest0 == store.lowest,
            len0 == old(store).rows@.len(),
            first == old(store).spec_next_height(),
            first < latest,
            chain.base <= first,
            latest <= chain.spec_end(),
            next == store.spec_next_height(),
            first <= next <= latest,
            forall|i: int|
                0 <= i < len0 ==> (#[trigger] store.rows@[i]) == old(store).rows@[i],
            store.rows@.len() == len0 + (next - first),
            forall|i: int|
                len0 <= i < store.rows@.len() ==> (#[trigger] store.rows@[i]).height == lowest0 + i
                    && store.rows@[i].proposer@ == chain.proposer_at(lowest0 + i),
            batches <= next - first,
            batches + spec_num_batches(next as int, latest as int, b as int)
                == spec_num_batches(first, latest as int, b as int),
        decreases latest - next,
    {
        let end = batch_end(next, latest, b);
        let records = chain.fetch_range(next, end);
        let ghost pre = store.rows@;
        proof {
            assert forall|k: int| 0 <= k < records@.len() implies #[trigger] claims_height(
                records@,
                next as int + k,
            ) by {
                assert(records@[k].height == next as int + k);
            }
        }
        let res = store.insert_batch(&records);
        match res {
            Err(e) => {
                proof {
                    assert(false);
                }
                return Err(e);
            },
            Ok(()) => {},
        }
        proof {
            assert forall|i: int|
                pre.len() <= i < store.rows@.len() implies (#[trigger] store.rows@[i]).proposer@
                == chain.proposer_at(lowest0 + i) by {
                let j = choose|j: int|
                    0 <= j < records@.len() && #[trigger] records@[j].height == lowest0 + i
                        && records@[j].proposer@ == store.rows@[i].proposer@;
                assert(records@[j].height == next as int + j);
            }
        }
        batches = batches + 1;
        next = end;
    }
    Ok(batches)
}

} // verus!
