use chain_indexer::checkpoint::{last_indexed_height, next_height_to_index};
use chain_indexer::records::IndexedRecord;
use chain_indexer::store::StoreModel;

fn store_with_heights(lowest: i64, upto: i64) -> StoreModel {
    let mut rows = Vec::new();
    let mut h = lowest;
    while h <= upto {
        rows.push(IndexedRecord::new(h, format!("val{}", h)));
        h += 1;
    }
    StoreModel { lowest, rows }
}

#[test]
fn empty_store_starts_one_below_lowest() {
    assert_eq!(last_indexed_height(None, 9558628), 9558627);
    assert_eq!(next_height_to_index(None, 9558628), 9558628);
}

#[test]
fn checkpoint_is_the_stored_maximum() {
    assert_eq!(last_indexed_height(Some(100), 10), 100);
    assert_eq!(next_height_to_index(Some(100), 10), 101);
}

#[test]
fn resume_is_idempotent() {
    // A store holding heights [L, K] always yields K + 1 as the next
    // height, however many cycles ran or crashed before.
    let store = store_with_heights(50, 75);
    assert_eq!(store.max_height(), Some(75));
    assert_eq!(store.next_height(), 76);
    // Re-deriving it changes nothing: the checkpoint is read, not kept.
    assert_eq!(store.next_height(), 76);
    assert_eq!(
        next_height_to_index(store.max_height(), store.lowest),
        76
    );
}

#[test]
fn empty_model_store_agrees_with_aggregate() {
    let store = StoreModel::new(9558628);
    assert_eq!(store.max_height(), None);
    assert_eq!(store.next_height(), 9558628);
}
