use module_host::events::{next_step, Received, StreamStep, BACKLOG};
use module_host::module_ctx::{argument_error_message, rollback_failed_message, transaction_end, TransactionEnd};

#[test]
fn work_that_succeeds_commits_and_work_that_fails_rolls_back() {
    assert_eq!(transaction_end(&Ok::<i32, String>(1)), TransactionEnd::Commit);
    assert_eq!(transaction_end(&Err::<i32, String>("conflict".to_owned())), TransactionEnd::Rollback);
}

#[test]
fn a_failed_rollback_is_appended_to_the_callers_error() {
    assert_eq!(
        rollback_failed_message("digest mismatch", "connection lost"),
        "digest mismatch; the transaction also failed to roll back: connection lost",
    );
}

#[test]
fn an_unreadable_argument_names_the_field_and_the_argument() {
    assert_eq!(
        argument_error_message("documentsSave", "expectedDigest", "expected String"),
        "documentsSave: could not read argument expectedDigest: expected String",
    );
}

#[test]
fn a_lagging_subscriber_skips_ahead_and_only_a_closed_channel_ends_the_stream() {
    assert!(matches!(next_step(Received::Event(7)), StreamStep::Yield(7)));
    assert!(matches!(next_step(Received::<i32>::Lagged(3)), StreamStep::Skip));
    assert!(matches!(next_step(Received::<i32>::Closed), StreamStep::End));
    assert_eq!(BACKLOG, 64);
}
