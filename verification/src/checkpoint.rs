//! Checkpoint derivation.
//!
//! The checkpoint is not stored separately: it is `max(height)` over
//! the indexed records, or the configured lowest height minus one when
//! the store is empty.  It is recomputed from the store at the start of
//! every cycle, so a restart can never skip work.

use vstd::prelude::*;

verus! {

/// The checkpoint derived from the store's aggregation result:
/// `max_row` is `max(height)` over the record table (`None` when the
/// table is empty), `lowest` the configured lowest indexable height.
pub open spec fn checkpoint_value(max_row: Option<i64>, lowest: int) -> int {
    match max_row {
        Some(k) => k as int,
        None => lowest - 1,
    }
}

/// Turns the store's `max(height)` aggregation result into the
/// checkpoint, treating an empty table as "one before the lowest
/// indexable height".
pub fn last_indexed_height(max_row: Option<i64>, lowest: i64) -> (r: i64)
    requires
        i64::MIN < lowest,
    ensures
        r == checkpoint_value(max_row, lowest as int),
{
    match max_row {
        Some(k) => k,
        None => lowest - 1,
    }
}

/// The first height the next cycle must index: one past the
/// checkpoint.  A store holding heights up to `K` always yields
/// `K + 1`, however many cycles ran or crashed before.
pub fn next_height_to_index(max_row: Option<i64>, lowest: i64) -> (r: i64)
    requires
        i64::MIN < lowest,
        checkpoint_value(max_row, lowest as int) < i64::MAX,
    ensures
        r == checkpoint_value(max_row, lowest as int) + 1,
{
    let last = last_indexed_height(max_row, lowest);
    last + 1
}

} // verus!
