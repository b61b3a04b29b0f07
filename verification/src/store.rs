//! A model of the record store.
//!
//! The persisted table holds one row per height, and committed heights
//! are contiguous from the lowest indexed height: a gap is a detectable
//! anomaly, never a committed state.  `StoreModel` carries that
//! invariant in `wf`, and `insert_batch` is the atomic multi-row write
//! with the row-count guard: it either appends exactly the next
//! contiguous run of heights or leaves the store untouched.

use vstd::prelude::*;
use crate::checkpoint::checkpoint_value;
use crate::errors::IndexError;
use crate::records::IndexedRecord;

verus! {

/// Some record in `rs` reports height `h`.
pub open spec fn claims_height(rs: Seq<IndexedRecord>, h: int) -> bool {
    exists|j: int| 0 <= j < rs.len() && #[trigger] rs[j].height == h
}

/// A batch is complete for `next` when every height of the contiguous
/// run `[next, next + len)` is claimed by some fetched record.  With
/// `len` records this is exactly "the insert would touch `len` new
/// rows"; anything less is the row-count mismatch.
pub open spec fn batch_complete(rs: Seq<IndexedRecord>, next: int) -> bool {
    forall|k: int| 0 <= k < rs.len() ==> #[trigger] claims_height(rs, next + k)
}

/// The heights of the rows whose proposer is `p`, in store order.
pub open spec fn matching_heights(rows: Seq<IndexedRecord>, p: Seq<char>) -> Seq<i64>
    decreases rows.len(),
{
    if rows.len() == 0 {
        Seq::empty()
    } else {
        let rest = matching_heights(rows.drop_last(), p);
        if rows.last().proposer@ == p {
            rest.push(rows.last().height)
        } else {
            rest
        }
    }
}

/// The record table: rows hold consecutive heights starting at
/// `lowest`, so row `i` always has height `lowest + i`.
pub struct StoreModel {
    /// The configured lowest indexable height.
    pub lowest: i64,
    /// The committed rows, in height order.
    pub rows: Vec<IndexedRecord>,
}

impl StoreModel {
    /// The store invariant: heights are contiguous from `lowest`, and
    /// the next height to assign still fits in an `i64`.
    pub open spec fn wf(self) -> bool {
        &&& 0 <= self.lowest
        &&& self.lowest + self.rows@.len() <= i64::MAX
        &&& forall|i: int|
            0 <= i < self.rows@.len() ==> #[trigger] self.rows@[i].height == self.lowest + i
    }

    /// One past the highest committed height; `lowest` when empty.
    pub open spec fn spec_next_height(self) -> int {
        self.lowest + self.rows@.len()
    }

    /// The store's `max(height)` aggregate: `None` when empty.
    pub open spec fn spec_max_height(self) -> Option<i64> {
        if self.rows@.len() == 0 {
            None
        } else {
            Some(self.rows@.last().height)
        }
    }

    /// `h` is a committed height.
    pub open spec fn contains_height(self, h: int) -> bool {
        self.lowest <= h < self.spec_next_height()
    }

    /// An empty store for a configured lowest height.
    pub fn new(lowest: i64) -> (r: StoreModel)
        requires
            0 <= lowest,
        ensures
            r.wf(),
            r.lowest == lowest,
            r.rows@.len() == 0,
    {
        StoreModel { lowest, rows: Vec::new() }
    }

    /// The `max(height)` aggregation over the table.
    pub fn max_height(&self) -> (r: Option<i64>)
        requires
            self.wf(),
        ensures
            r == self.spec_max_height(),
    {
        let n = self.rows.len();
        if n == 0 {
            None
        } else {
            Some(self.rows[n - 1].height)
        }
    }

    /// The height the next cycle starts from, derived from the store
    /// contents alone: the checkpoint plus one.
    pub fn next_height(&self) -> (r: i64)
        requires
            self.wf(),
        ensures
            r == self.spec_next_height(),
            r == checkpoint_value(self.spec_max_height(), self.lowest as int) + 1,
    {
        let last = match self.max_height() {
            Some(k) => k,
            None => self.lowest - 1,
        };
        last + 1
    }

    /// The atomic multi-row insert with the row-count guard.
    ///
    /// Succeeds exactly when the fetched records, in whatever
    /// completion order they arrived, claim every height of the next
    /// contiguous run `[next, next + len)`; it then appends one row per
    /// height, each carrying the proposer of the record that claimed
    /// that height.  Otherwise the insert would touch fewer rows than
    /// the batch size: it reports `InsertedIncorrectNumberOfRows` and
    /// leaves the store exactly as it was — no partial credit.
    pub fn insert_batch(&mut self, records: &Vec<IndexedRecord>) -> (r: Result<(), IndexError>)
        requires
            old(self).wf(),
            old(self).spec_next_height() + records@.len() <= i64::MAX,
        ensures
            final(self).wf(),
            final(self).lowest == old(self).lowest,
            r is Ok <==> batch_complete(records@, old(self).spec_next_height()),
            r is Err ==> final(self).rows@ == old(self).rows@
                && r->Err_0 == IndexError::InsertedIncorrectNumberOfRows,
            r is Ok ==> final(self).rows@.len() == old(self).rows@.len() + records@.len(),
            r is Ok ==> forall|i: int|
                0 <= i < old(self).rows@.len() ==> final(self).rows@[i] == old(self).rows@[i],
            r is Ok ==> forall|i: int|
                old(self).rows@.len() <= i < final(self).rows@.len()
                    ==> (#[trigger] final(self).rows@[i]).height == old(self).lowest + i
                    && exists|j: int|
                        0 <= j < records@.len()
                        && #[trigger] records@[j].height == old(self).lowest + i
                        && records@[j].proposer@ == final(self).rows@[i].proposer@,
    {
        let n = records.len();
        let next = self.next_height();
        let ghost next0 = next as int;
        let mut additions: Vec<IndexedRecord> = Vec::new();
        let mut i: usize = 0;
        while i < n
            invariant
                n == records@.len(),
                0 <= i <= n,
                0 <= next0,
                next0 + n <= i64::MAX,
                next == next0,
                *self == *old(self),
                self.wf(),
                next0 == self.spec_next_height(),
                additions@.len() == i,
                forall|k: int|
                    0 <= k < i ==> (#[trigger] additions@[k]).height == next0 + k
                        && exists|j: int|
                            0 <= j < records@.len()
                            && #[trigger] records@[j].height == next0 + k
                            && records@[j].proposer@ == additions@[k].proposer@,
            decreases n - i,
        {
            let target = next + (i as i64);
            let mut j: usize = 0;
            let mut hit: Option<usize> = None;
            while j < n
                invariant
                    n == records@.len(),
                    0 <= j <= n,
                    hit is None ==> forall|jj: int|
                        0 <= jj < j ==> #[trigger] records@[jj].height != target,
                    hit is Some ==> 0 <= hit->0 < n && records@[hit->0 as int].height == target,
                decreases n - j,
            {
                if records[j].height == target {
                    hit = Some(j);
                    j = n;
                } else {
                    j = j + 1;
                }
            }
            match hit {
                None => {
                    proof {
                        assert(!claims_height(records@, next0 + i));
                        assert(!batch_complete(records@, next0));
                    }
                    return Err(IndexError::InsertedIncorrectNumberOfRows);
                },
                Some(jf) => {
                    proof {
                        assert(records@[jf as int].height == next0 + i);
                    }
                    let proposer = records[jf].proposer.clone();
                    additions.push(IndexedRecord { height: target, proposer });
                    proof {
                        assert(additions@[i as int].height == next0 + i);
                        assert(records@[jf as int].proposer@ == additions@[i as int].proposer@);
                    }
                },
            }
            i = i + 1;
        }
        proof {
            assert forall|k: int| 0 <= k < records@.len() implies #[trigger] claims_height(
                records@,
                next0 + k,
            ) by {
                assert(additions@[k].height == next0 + k);
            }
        }
        self.rows.append(&mut additions);
        Ok(())
    }

    /// At most one record per height: two distinct rows of a
    /// well-formed store never share a height.
    pub proof fn lemma_heights_unique(self)
        requires
            self.wf(),
        ensures
            forall|i: int, j: int|
                0 <= i < j < self.rows@.len() ==> (#[trigger] self.rows@[i]).height
                    != (#[trigger] self.rows@[j]).height,
    {
    }

    /// Resuming is idempotent: a store holding records for the heights
    /// `[L, K]` derives `K + 1` as the next height to index, however
    /// many cycles ran or crashed to put those records there.
    pub proof fn lemma_idempotent_resume(self)
        requires
            self.wf(),
            self.rows@.len() > 0,
        ensures
            self.spec_next_height() == self.rows@.last().height + 1,
            self.spec_next_height() == checkpoint_value(self.spec_max_height(), self.lowest as int)
                + 1,
    {
    }

    /// The read-side query: every height at which `proposer` produced
    /// a block, in ascending order.
    pub fn heights_for(&self, proposer: &String) -> (r: Vec<i64>)
        requires
            self.wf(),
        ensures
            r@ == matching_heights(self.rows@, proposer@),
    {
        let n = self.rows.len();
        let mut out: Vec<i64> = Vec::new();
        let mut i: usize = 0;
        while i < n
            invariant
                n == self.rows@.len(),
                0 <= i <= n,
                out@ == matching_heights(self.rows@.subrange(0, i as int), proposer@),
            decreases n - i,
        {
            proof {
                let p = self.rows@.subrange(0, i as int);
                let q = self.rows@.subrange(0, i as int + 1);
                assert(q.drop_last() =~= p);
                assert(q.last() == self.rows@[i as int]);
            }
            if self.rows[i].proposer == *proposer {
                let h = self.rows[i].height;
                out.push(h);
            }
            i = i + 1;
        }
        proof {
            assert(self.rows@.subrange(0, n as int) =~= self.rows@);
        }
        out
    }
}

} // verus!
