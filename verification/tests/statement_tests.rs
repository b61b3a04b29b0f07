use chain_indexer::statement::build_insert_statement;
use chain_indexer::errors::IndexError;

#[test]
fn statement_for_one_record() {
    assert_eq!(
        build_insert_statement(1),
        "INSERT INTO proposer_to_height(proposer, height) VALUES ($1,$2)"
    );
}

#[test]
fn statement_for_a_full_batch() {
    assert_eq!(
        build_insert_statement(5),
        "INSERT INTO proposer_to_height(proposer, height) VALUES \
         ($1,$2),($3,$4),($5,$6),($7,$8),($9,$10)"
    );
}

#[test]
fn statement_placeholders_reach_two_digits() {
    let text = build_insert_statement(12);
    assert!(text.ends_with("($23,$24)"));
    assert_eq!(text.matches("($").count(), 12);
}

#[test]
fn error_descriptions_are_not_empty() {
    let errors = [
        IndexError::RequestBuildError,
        IndexError::TransportError,
        IndexError::DecodeError,
        IndexError::CouldNotProcessResponsesInParallel,
        IndexError::StoreQueryError,
        IndexError::InsertedIncorrectNumberOfRows,
        IndexError::StoreUnavailable,
    ];
    for e in errors {
        assert!(!e.describe().is_empty());
    }
}
