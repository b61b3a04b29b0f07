use chain_indexer::errors::IndexError;
use chain_indexer::indexer::{batch_end, check_inserted_count, next_step, run_cycle, ChainView, CycleStep};
use chain_indexer::records::IndexedRecord;
use chain_indexer::store::StoreModel;

fn chain(base: i64, proposers: &[&str]) -> ChainView {
    ChainView {
        base,
        proposers: proposers.iter().map(|p| p.to_string()).collect(),
    }
}

#[test]
fn batch_end_is_capped_by_width_and_tip() {
    assert_eq!(batch_end(100, 107, 5), 105);
    assert_eq!(batch_end(105, 107, 5), 107);
    assert_eq!(batch_end(0, 1, 5), 1);
    assert_eq!(batch_end(10, 15, 5), 15);
}

#[test]
fn next_step_is_done_when_caught_up() {
    assert_eq!(next_step(200, 199, 5), CycleStep::Done);
    assert_eq!(next_step(199, 199, 5), CycleStep::Done);
    assert_eq!(
        next_step(100, 107, 5),
        CycleStep::FetchBatch { start: 100, end: 105 }
    );
}

#[test]
fn cycle_closes_the_gap_in_two_batches() {
    // nextHeight = 100, latest = 107, B = 5: two batches, [100,105)
    // and [105,107), and afterwards exactly heights 100..=106.
    let mut store = StoreModel::new(100);
    let proposers: Vec<String> = (100..107).map(|h| format!("v{}", h)).collect();
    let snapshot = ChainView {
        base: 100,
        proposers,
    };
    let batches = run_cycle(&mut store, &snapshot, 107, 5);
    assert_eq!(batches, Ok(2));
    assert_eq!(store.rows.len(), 7);
    for (i, row) in store.rows.iter().enumerate() {
        assert_eq!(row.height, 100 + i as i64);
        assert_eq!(row.proposer, format!("v{}", 100 + i as i64));
    }
}

#[test]
fn cycle_is_a_noop_when_caught_up() {
    // Checkpoint at height 200, latest reported as 199: a successful
    // cycle of zero batches, zero writes.
    let mut store = StoreModel {
        lowest: 195,
        rows: (195..=200)
            .map(|h| IndexedRecord::new(h, format!("v{}", h)))
            .collect(),
    };
    assert_eq!(store.next_height(), 201);
    let snapshot = chain(0, &[]);
    let batches = run_cycle(&mut store, &snapshot, 199, 5);
    assert_eq!(batches, Ok(0));
    assert_eq!(store.rows.len(), 6);
}

#[test]
fn insert_is_atomic_on_a_partial_batch() {
    // The store already holds heights 100..=105; the batch claims
    // 105..=109, so only four of its five records are new.  The insert
    // reports the row-count mismatch and the checkpoint stays put.
    let mut store = StoreModel {
        lowest: 100,
        rows: (100..=105)
            .map(|h| IndexedRecord::new(h, format!("v{}", h)))
            .collect(),
    };
    let records: Vec<IndexedRecord> = (105..=109)
        .map(|h| IndexedRecord::new(h, format!("v{}", h)))
        .collect();
    let r = store.insert_batch(&records);
    assert_eq!(r, Err(IndexError::InsertedIncorrectNumberOfRows));
    assert_eq!(store.rows.len(), 6);
    assert_eq!(store.next_height(), 106);
}

#[test]
fn row_count_mismatch_is_surfaced() {
    assert_eq!(
        check_inserted_count(4, 5),
        Err(IndexError::InsertedIncorrectNumberOfRows)
    );
    assert_eq!(check_inserted_count(5, 5), Ok(()));
    assert_eq!(
        check_inserted_count(6, 5),
        Err(IndexError::InsertedIncorrectNumberOfRows)
    );
}

#[test]
fn fetch_completion_order_does_not_matter() {
    // Fetches for heights 10, 11, 12 complete out of order; every
    // stored row still carries the proposer of its own height.
    let mut store = StoreModel::new(10);
    let records = vec![
        IndexedRecord::new(12, "carol".to_string()),
        IndexedRecord::new(10, "alice".to_string()),
        IndexedRecord::new(11, "bob".to_string()),
    ];
    assert_eq!(store.insert_batch(&records), Ok(()));
    assert_eq!(store.rows.len(), 3);
    assert_eq!(store.rows[0].height, 10);
    assert_eq!(store.rows[0].proposer, "alice");
    assert_eq!(store.rows[1].height, 11);
    assert_eq!(store.rows[1].proposer, "bob");
    assert_eq!(store.rows[2].height, 12);
    assert_eq!(store.rows[2].proposer, "carol");
}

#[test]
fn fetch_range_pairs_heights_with_proposers() {
    let snapshot = chain(10, &["alice", "bob", "carol"]);
    let records = snapshot.fetch_range(10, 13);
    assert_eq!(records.len(), 3);
    assert_eq!(records[0].height, 10);
    assert_eq!(records[0].proposer, "alice");
    assert_eq!(records[2].height, 12);
    assert_eq!(records[2].proposer, "carol");
}

#[test]
fn gapped_batch_is_rejected() {
    // Records claim 0, 1 and 3: height 2 is missing, so the batch
    // would insert fewer rows than its size.
    let mut store = StoreModel::new(0);
    let records = vec![
        IndexedRecord::new(0, "a".to_string()),
        IndexedRecord::new(1, "b".to_string()),
        IndexedRecord::new(3, "d".to_string()),
    ];
    assert_eq!(
        store.insert_batch(&records),
        Err(IndexError::InsertedIncorrectNumberOfRows)
    );
    assert_eq!(store.rows.len(), 0);
}

#[test]
fn read_api_lists_heights_by_proposer() {
    let mut store = StoreModel::new(5);
    let records = vec![
        IndexedRecord::new(5, "alice".to_string()),
        IndexedRecord::new(6, "bob".to_string()),
        IndexedRecord::new(7, "alice".to_string()),
        IndexedRecord::new(8, "alice".to_string()),
    ];
    assert_eq!(store.insert_batch(&records), Ok(()));
    assert_eq!(store.heights_for(&"alice".to_string()), vec![5, 7, 8]);
    assert_eq!(store.heights_for(&"bob".to_string()), vec![6]);
    assert_eq!(store.heights_for(&"dave".to_string()), Vec::<i64>::new());
}
