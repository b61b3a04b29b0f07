//! The data model: one observed block.

use vstd::prelude::*;

verus! {

/// One observed block: its chain height and the opaque identifier of
/// the proposer that produced it.  Created only by a successful batch
/// write; never updated, never deleted.
#[derive(Debug)]
pub struct IndexedRecord {
    /// Position of the block in the chain, assigned monotonically.
    pub height: i64,
    /// Opaque identifier of the block's proposer.
    pub proposer: String,
}

impl IndexedRecord {
    /// Builds a record from its two fields.
    pub fn new(height: i64, proposer: String) -> (r: IndexedRecord)
        ensures
            r.height == height,
            r.proposer == proposer,
    {
        IndexedRecord { height, proposer }
    }
}

} // verus!
