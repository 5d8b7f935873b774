use book_manager::command::{
    check_create, check_return, check_rows_affected, CheckoutTransaction, Command, Progress,
    NOTHING_CREATED, NOTHING_DELETED, NOTHING_RETURNED,
};
use book_manager::database::Database;
use book_manager::error::AppError;
use book_manager::id::{BookId, CheckoutId, UserId};
use book_manager::model::{
    Book, CheckoutRecord, CheckoutStateRow, CreateCheckout, UpdateReturned,
};
use book_manager::protocol::{StoreRequest, StoreResponse};

fn is_random_uuid_value(raw: u128) -> bool {
    raw & 0x0000_0000_0000_f000_c000_0000_0000_0000 == 0x0000_0000_0000_4000_8000_0000_0000_0000
}

fn lending() -> CreateCheckout {
    CreateCheckout {
        book_id: BookId::from_raw(1),
        checked_out_by: UserId::from_raw(11),
        checked_out_at: 100,
    }
}

fn returning() -> UpdateReturned {
    UpdateReturned {
        checkout_id: CheckoutId::from_raw(21),
        book_id: BookId::from_raw(1),
        returned_by: UserId::from_raw(11),
        returned_at: 200,
    }
}

fn free_book() -> StoreResponse {
    StoreResponse::CheckoutState(Some(CheckoutStateRow {
        book_id: BookId::from_raw(1),
        checkout_id: None,
        user_id: None,
    }))
}

fn lent_book(checkout: u128, user: Option<u128>) -> StoreResponse {
    StoreResponse::CheckoutState(Some(CheckoutStateRow {
        book_id: BookId::from_raw(1),
        checkout_id: Some(CheckoutId::from_raw(checkout)),
        user_id: user.map(UserId::from_raw),
    }))
}

fn next(progress: Progress) -> (CheckoutTransaction, StoreRequest) {
    match progress {
        Progress::Continue(transaction, request) => (transaction, request),
        Progress::Finished(outcome) => panic!("the transaction is over: {:?}", outcome),
    }
}

fn end(progress: Progress) -> Result<(), AppError> {
    match progress {
        Progress::Finished(outcome) => outcome,
        Progress::Continue(_, request) => panic!("the transaction goes on with {:?}", request),
    }
}

fn failed(text: &str) -> StoreResponse {
    StoreResponse::Failed(text.to_string())
}

#[test]
fn lending_runs_begin_isolate_read_insert_commit() {
    let (transaction, request) = CheckoutTransaction::create_with_id(lending(), CheckoutId::from_raw(21));
    assert_eq!(request, StoreRequest::Begin);
    let (transaction, request) = next(transaction.advance(StoreResponse::Done));
    assert_eq!(request, StoreRequest::SetSerializable);
    let (transaction, request) = next(transaction.advance(StoreResponse::Done));
    assert_eq!(
        request,
        StoreRequest::ReadCheckoutState { book_id: BookId::from_raw(1), with_holder: false }
    );
    let (transaction, request) = next(transaction.advance(free_book()));
    assert_eq!(
        request,
        StoreRequest::InsertCheckout {
            record: CheckoutRecord {
                checkout_id: CheckoutId::from_raw(21),
                book_id: BookId::from_raw(1),
                user_id: UserId::from_raw(11),
                checked_out_at: 100,
            }
        }
    );
    let (transaction, request) = next(transaction.advance(StoreResponse::RowsAffected(1)));
    assert_eq!(request, StoreRequest::Commit);
    assert_eq!(end(transaction.advance(StoreResponse::Done)), Ok(()));
}

#[test]
fn returning_runs_begin_isolate_read_insert_delete_commit() {
    let (transaction, request) = CheckoutTransaction::update_returned(returning());
    assert_eq!(request, StoreRequest::Begin);
    let (transaction, request) = next(transaction.advance(StoreResponse::Done));
    assert_eq!(request, StoreRequest::SetSerializable);
    let (transaction, request) = next(transaction.advance(StoreResponse::Done));
    assert_eq!(
        request,
        StoreRequest::ReadCheckoutState { book_id: BookId::from_raw(1), with_holder: true }
    );
    let (transaction, request) = next(transaction.advance(lent_book(21, Some(11))));
    assert_eq!(
        request,
        StoreRequest::InsertReturned { checkout_id: CheckoutId::from_raw(21), returned_at: 200 }
    );
    let (transaction, request) = next(transaction.advance(StoreResponse::RowsAffected(1)));
    assert_eq!(request, StoreRequest::DeleteCheckout { checkout_id: CheckoutId::from_raw(21) });
    let (transaction, request) = next(transaction.advance(StoreResponse::RowsAffected(1)));
    assert_eq!(request, StoreRequest::Commit);
    assert_eq!(end(transaction.advance(StoreResponse::Done)), Ok(()));
}

#[test]
fn a_fresh_lending_gets_a_random_checkout_id() {
    let (first, request) = CheckoutTransaction::create(lending());
    let (second, _) = CheckoutTransaction::create(lending());
    assert_eq!(request, StoreRequest::Begin);
    let first_id = match first.command() {
        Command::Create { event, checkout_id } => {
            assert_eq!(event, lending());
            checkout_id
        }
        Command::Return { .. } => panic!("a lending was started"),
    };
    let second_id = match second.command() {
        Command::Create { checkout_id, .. } => checkout_id,
        Command::Return { .. } => panic!("a lending was started"),
    };
    assert_ne!(first_id, second_id);
    assert!(is_random_uuid_value(first_id.raw()));
    assert!(is_random_uuid_value(second_id.raw()));
}

#[test]
fn a_store_that_cannot_begin_is_a_transaction_error_without_rollback() {
    let (transaction, _) = CheckoutTransaction::create_with_id(lending(), CheckoutId::from_raw(21));
    let outcome = end(transaction.advance(failed("connection refused")));
    assert_eq!(outcome, Err(AppError::TransactionError("connection refused".to_string())));
    assert!(outcome.unwrap_err().is_retryable());
}

#[test]
fn a_store_that_cannot_commit_is_a_transaction_error() {
    let (transaction, _) = CheckoutTransaction::create_with_id(lending(), CheckoutId::from_raw(21));
    let (transaction, _) = next(transaction.advance(StoreResponse::Done));
    let (transaction, _) = next(transaction.advance(StoreResponse::Done));
    let (transaction, _) = next(transaction.advance(free_book()));
    let (transaction, request) = next(transaction.advance(StoreResponse::RowsAffected(1)));
    assert_eq!(request, StoreRequest::Commit);
    let outcome = end(transaction.advance(failed("could not serialize access")));
    assert_eq!(outcome, Err(AppError::TransactionError("could not serialize access".to_string())));
    assert!(outcome.unwrap_err().is_retryable());
}

#[test]
fn failing_to_raise_isolation_rolls_back() {
    let (transaction, _) = CheckoutTransaction::update_returned(returning());
    let (transaction, _) = next(transaction.advance(StoreResponse::Done));
    let (transaction, request) = next(transaction.advance(failed("syntax error")));
    assert_eq!(request, StoreRequest::Rollback);
    assert_eq!(
        end(transaction.advance(StoreResponse::Done)),
        Err(AppError::SpecificOperationError("syntax error".to_string()))
    );
}

#[test]
fn a_failed_read_rolls_back() {
    let (transaction, _) = CheckoutTransaction::create_with_id(lending(), CheckoutId::from_raw(21));
    let (transaction, _) = next(transaction.advance(StoreResponse::Done));
    let (transaction, _) = next(transaction.advance(StoreResponse::Done));
    let (transaction, request) = next(transaction.advance(failed("timeout")));
    assert_eq!(request, StoreRequest::Rollback);
    let outcome = end(transaction.advance(failed("rollback failed too")));
    assert_eq!(outcome, Err(AppError::SpecificOperationError("timeout".to_string())));
    assert!(!outcome.unwrap_err().is_retryable());
}

#[test]
fn an_unknown_book_rolls_back_with_not_found() {
    let (transaction, _) = CheckoutTransaction::create_with_id(lending(), CheckoutId::from_raw(21));
    let (transaction, _) = next(transaction.advance(StoreResponse::Done));
    let (transaction, _) = next(transaction.advance(StoreResponse::Done));
    let (transaction, request) = next(transaction.advance(StoreResponse::CheckoutState(None)));
    assert_eq!(request, StoreRequest::Rollback);
    assert_eq!(
        end(transaction.advance(StoreResponse::Done)),
        Err(AppError::EntityNotFound(format!(
            "Book not found: book_id={}",
            BookId::from_raw(1).to_string()
        )))
    );
}

#[test]
fn a_lent_book_rolls_back_with_unprocessable() {
    let (transaction, _) = CheckoutTransaction::create_with_id(lending(), CheckoutId::from_raw(21));
    let (transaction, _) = next(transaction.advance(StoreResponse::Done));
    let (transaction, _) = next(transaction.advance(StoreResponse::Done));
    let (transaction, request) = next(transaction.advance(lent_book(33, None)));
    assert_eq!(request, StoreRequest::Rollback);
    assert!(matches!(
        end(transaction.advance(StoreResponse::Done)),
        Err(AppError::UnprocessableEntity(_))
    ));
}

#[test]
fn a_failed_insert_after_validation_rolls_back() {
    let (transaction, _) = CheckoutTransaction::create_with_id(lending(), CheckoutId::from_raw(21));
    let (transaction, _) = next(transaction.advance(StoreResponse::Done));
    let (transaction, _) = next(transaction.advance(StoreResponse::Done));
    let (transaction, request) = next(transaction.advance(free_book()));
    assert!(matches!(request, StoreRequest::InsertCheckout { .. }));
    let (transaction, request) = next(transaction.advance(failed("disk full")));
    assert_eq!(request, StoreRequest::Rollback);
    assert_eq!(
        end(transaction.advance(StoreResponse::Done)),
        Err(AppError::SpecificOperationError("disk full".to_string()))
    );
}

#[test]
fn an_insert_that_changes_no_row_rolls_back() {
    let (transaction, _) = CheckoutTransaction::create_with_id(lending(), CheckoutId::from_raw(21));
    let (transaction, _) = next(transaction.advance(StoreResponse::Done));
    let (transaction, _) = next(transaction.advance(StoreResponse::Done));
    let (transaction, _) = next(transaction.advance(free_book()));
    let (transaction, request) = next(transaction.advance(StoreResponse::RowsAffected(0)));
    assert_eq!(request, StoreRequest::Rollback);
    let outcome = end(transaction.advance(StoreResponse::Done));
    assert_eq!(
        outcome,
        Err(AppError::NoRowsAffectedError("No checkout record has been created".to_string()))
    );
    assert_eq!(
        outcome.unwrap_err().to_string(),
        "No rows affected: No checkout record has been created"
    );
}

#[test]
fn a_return_that_copies_no_row_rolls_back() {
    let (transaction, _) = CheckoutTransaction::update_returned(returning());
    let (transaction, _) = next(transaction.advance(StoreResponse::Done));
    let (transaction, _) = next(transaction.advance(StoreResponse::Done));
    let (transaction, _) = next(transaction.advance(lent_book(21, Some(11))));
    let (transaction, request) = next(transaction.advance(StoreResponse::RowsAffected(0)));
    assert_eq!(request, StoreRequest::Rollback);
    assert_eq!(
        end(transaction.advance(StoreResponse::Done)),
        Err(AppError::NoRowsAffectedError("No returning record has been updated".to_string()))
    );
}

#[test]
fn a_return_that_deletes_no_row_rolls_back() {
    let (transaction, _) = CheckoutTransaction::update_returned(returning());
    let (transaction, _) = next(transaction.advance(StoreResponse::Done));
    let (transaction, _) = next(transaction.advance(StoreResponse::Done));
    let (transaction, _) = next(transaction.advance(lent_book(21, Some(11))));
    let (transaction, _) = next(transaction.advance(StoreResponse::RowsAffected(1)));
    let (transaction, request) = next(transaction.advance(StoreResponse::RowsAffected(0)));
    assert_eq!(request, StoreRequest::Rollback);
    assert_eq!(
        end(transaction.advance(StoreResponse::Done)),
        Err(AppError::NoRowsAffectedError("No checkout record has been deleted".to_string()))
    );
}

#[test]
fn an_answer_of_the_wrong_kind_counts_as_a_failure() {
    let (transaction, _) = CheckoutTransaction::create_with_id(lending(), CheckoutId::from_raw(21));
    let outcome = end(transaction.advance(StoreResponse::RowsAffected(1)));
    assert_eq!(
        outcome,
        Err(AppError::TransactionError("Unexpected answer from the store.".to_string()))
    );

    let (transaction, _) = CheckoutTransaction::create_with_id(lending(), CheckoutId::from_raw(21));
    let (transaction, _) = next(transaction.advance(StoreResponse::Done));
    let (transaction, _) = next(transaction.advance(StoreResponse::Done));
    let (transaction, request) = next(transaction.advance(StoreResponse::Done));
    assert_eq!(request, StoreRequest::Rollback);
    assert_eq!(
        end(transaction.advance(StoreResponse::Done)),
        Err(AppError::SpecificOperationError("Unexpected answer from the store.".to_string()))
    );
}

#[test]
fn the_texts_of_writes_without_rows() {
    assert_eq!(NOTHING_CREATED, "No checkout record has been created");
    assert_eq!(NOTHING_RETURNED, "No returning record has been updated");
    assert_eq!(NOTHING_DELETED, "No checkout record has been deleted");
    assert_eq!(check_rows_affected(1, NOTHING_CREATED), Ok(()));
    assert_eq!(check_rows_affected(u64::MAX, NOTHING_CREATED), Ok(()));
    assert_eq!(
        check_rows_affected(0, NOTHING_DELETED),
        Err(AppError::NoRowsAffectedError(NOTHING_DELETED.to_string()))
    );
}

#[test]
fn who_may_lend() {
    let event = lending();
    let free = CheckoutStateRow { book_id: event.book_id, checkout_id: None, user_id: None };
    let lent = CheckoutStateRow {
        book_id: event.book_id,
        checkout_id: Some(CheckoutId::from_raw(5)),
        user_id: None,
    };
    assert_eq!(check_create(Some(free), &event), Ok(()));
    assert!(matches!(check_create(Some(lent), &event), Err(AppError::UnprocessableEntity(_))));
    assert!(matches!(check_create(None, &event), Err(AppError::EntityNotFound(_))));
}

#[test]
fn who_may_return() {
    let event = returning();
    let row = |checkout: Option<u128>, user: Option<u128>| {
        Some(CheckoutStateRow {
            book_id: event.book_id,
            checkout_id: checkout.map(CheckoutId::from_raw),
            user_id: user.map(UserId::from_raw),
        })
    };
    assert_eq!(check_return(row(Some(21), Some(11)), &event), Ok(()));
    assert!(matches!(check_return(row(Some(22), Some(11)), &event), Err(AppError::UnprocessableEntity(_))));
    assert!(matches!(check_return(row(Some(21), Some(12)), &event), Err(AppError::UnprocessableEntity(_))));
    assert!(matches!(check_return(row(Some(21), None), &event), Err(AppError::UnprocessableEntity(_))));
    assert!(matches!(check_return(row(None, None), &event), Err(AppError::UnprocessableEntity(_))));
    assert!(matches!(check_return(None, &event), Err(AppError::EntityNotFound(_))));
}

fn database_with_book() -> Database {
    let mut database = Database::new();
    assert!(database.insert_book(Book {
        book_id: BookId::from_raw(1),
        title: "Title".to_string(),
        author: "Author".to_string(),
        isbn: "isbn".to_string(),
    }));
    database
}

fn run(database: &mut Database, start: (CheckoutTransaction, StoreRequest)) -> Result<(), AppError> {
    let (mut transaction, mut request) = start;
    loop {
        let response = database.execute(request);
        match transaction.advance(response) {
            Progress::Continue(moved, asked) => {
                transaction = moved;
                request = asked;
            }
            Progress::Finished(outcome) => return outcome,
        }
    }
}

#[test]
fn a_write_that_fails_after_validation_leaves_no_active_row() {
    let mut database = database_with_book();
    let (transaction, request) = CheckoutTransaction::create_with_id(lending(), CheckoutId::from_raw(21));
    let (transaction, request) = next(transaction.advance(database.execute(request)));
    let (transaction, request) = next(transaction.advance(database.execute(request)));
    let (transaction, request) = next(transaction.advance(database.execute(request)));
    assert!(matches!(request, StoreRequest::InsertCheckout { .. }));
    assert_eq!(database.execute(request), StoreResponse::RowsAffected(1));

    let (transaction, request) = next(transaction.advance(failed("the connection broke")));
    assert_eq!(request, StoreRequest::Rollback);
    let outcome = end(transaction.advance(database.execute(request)));

    assert_eq!(outcome, Err(AppError::SpecificOperationError("the connection broke".to_string())));
    assert!(!database.in_transaction());
    assert!(database.select_unreturned_all().is_empty());
    assert!(database.select_unreturned_by_book(BookId::from_raw(1)).is_none());
}

#[test]
fn a_return_that_fails_half_way_keeps_the_loan_and_adds_no_record() {
    let mut database = database_with_book();
    assert_eq!(
        run(&mut database, CheckoutTransaction::create_with_id(lending(), CheckoutId::from_raw(21))),
        Ok(())
    );
    let (transaction, request) = CheckoutTransaction::update_returned(returning());
    let (transaction, request) = next(transaction.advance(database.execute(request)));
    let (transaction, request) = next(transaction.advance(database.execute(request)));
    let (transaction, request) = next(transaction.advance(database.execute(request)));
    assert!(matches!(request, StoreRequest::InsertReturned { .. }));
    let (transaction, request) = next(transaction.advance(database.execute(request)));
    assert!(matches!(request, StoreRequest::DeleteCheckout { .. }));

    let (transaction, request) = next(transaction.advance(StoreResponse::RowsAffected(0)));
    assert_eq!(request, StoreRequest::Rollback);
    let outcome = end(transaction.advance(database.execute(request)));

    assert!(matches!(outcome, Err(AppError::NoRowsAffectedError(_))));
    assert_eq!(database.select_unreturned_all().len(), 1);
    assert!(database.select_returned_by_book(BookId::from_raw(1)).is_empty());
}

#[test]
fn the_machine_against_the_store_lends_and_takes_back() {
    let mut database = database_with_book();
    assert_eq!(
        run(&mut database, CheckoutTransaction::create_with_id(lending(), CheckoutId::from_raw(21))),
        Ok(())
    );
    let active = database.select_unreturned_all();
    assert_eq!(active.len(), 1);
    assert_eq!(active[0].checkout_id, CheckoutId::from_raw(21));
    assert_eq!(active[0].title, "Title");

    assert_eq!(run(&mut database, CheckoutTransaction::update_returned(returning())), Ok(()));
    assert!(database.select_unreturned_all().is_empty());
    let returned = database.select_returned_by_book(BookId::from_raw(1));
    assert_eq!(returned.len(), 1);
    assert_eq!(returned[0].checkout_id, CheckoutId::from_raw(21));
    assert_eq!(returned[0].user_id, UserId::from_raw(11));
    assert_eq!(returned[0].checked_out_at, 100);
    assert_eq!(returned[0].returned_at, 200);
    assert_eq!(returned[0].author, "Author");
}

#[test]
fn of_two_lendings_at_once_one_gets_through() {
    let mut database = database_with_book();
    let first = CreateCheckout {
        book_id: BookId::from_raw(1),
        checked_out_by: UserId::from_raw(11),
        checked_out_at: 100,
    };
    let second = CreateCheckout {
        book_id: BookId::from_raw(1),
        checked_out_by: UserId::from_raw(12),
        checked_out_at: 101,
    };
    let (first_tx, first_request) = CheckoutTransaction::create_with_id(first, CheckoutId::from_raw(21));
    let (second_tx, second_request) = CheckoutTransaction::create_with_id(second, CheckoutId::from_raw(22));

    let (first_tx, first_request) = next(first_tx.advance(database.execute(first_request)));
    let turned_away = end(second_tx.advance(database.execute(second_request)));
    let (first_tx, first_request) = next(first_tx.advance(database.execute(first_request)));
    let (first_tx, first_request) = next(first_tx.advance(database.execute(first_request)));
    let (first_tx, first_request) = next(first_tx.advance(database.execute(first_request)));
    let lent = end(first_tx.advance(database.execute(first_request)));

    assert_eq!(lent, Ok(()));
    assert!(matches!(turned_away, Err(AppError::TransactionError(_))));
    assert!(turned_away.unwrap_err().is_retryable());

    let retried = run(&mut database, CheckoutTransaction::create_with_id(second, CheckoutId::from_raw(22)));
    assert!(matches!(retried, Err(AppError::UnprocessableEntity(_))));
    assert!(!retried.unwrap_err().is_retryable());
    let active = database.select_unreturned_all();
    assert_eq!(active.len(), 1);
    assert_eq!(active[0].user_id, UserId::from_raw(11));
}
