use book_manager::database::Database;
use book_manager::error::AppError;
use book_manager::id::{BookId, CheckoutId, UserId};
use book_manager::ledger::DUPLICATE_CHECKOUT;
use book_manager::model::{Book, Checkout, CreateCheckout, UpdateReturned};
use book_manager::repository::CheckoutRepositoryImpl;

fn book(raw: u128, title: &str) -> Book {
    Book {
        book_id: BookId::from_raw(raw),
        title: title.to_string(),
        author: format!("Author of {}", title),
        isbn: format!("isbn-{}", raw),
    }
}

fn repository_with_books(ids: &[u128]) -> CheckoutRepositoryImpl {
    let mut database = Database::new();
    for id in ids {
        assert!(database.insert_book(book(*id, &format!("Book {}", id))));
    }
    CheckoutRepositoryImpl::new(database)
}

fn lend(book: u128, user: u128, at: i64) -> CreateCheckout {
    CreateCheckout {
        book_id: BookId::from_raw(book),
        checked_out_by: UserId::from_raw(user),
        checked_out_at: at,
    }
}

fn give_back(checkout: u128, book: u128, user: u128, at: i64) -> UpdateReturned {
    UpdateReturned {
        checkout_id: CheckoutId::from_raw(checkout),
        book_id: BookId::from_raw(book),
        returned_by: UserId::from_raw(user),
        returned_at: at,
    }
}

fn ids(checkouts: &[Checkout]) -> Vec<u128> {
    checkouts.iter().map(|checkout| checkout.id.raw()).collect()
}

#[test]
fn lend_refuse_return_lend_again() {
    let b1 = BookId::from_raw(1);
    let u1 = UserId::from_raw(11);
    let u2 = UserId::from_raw(12);
    let mut repository = repository_with_books(&[1]);

    let lent = repository.create(CreateCheckout { book_id: b1, checked_out_by: u1, checked_out_at: 100 });
    assert_eq!(lent, Ok(()));
    let active = repository.find_unreturned_all().unwrap();
    assert_eq!(active.len(), 1);
    let c1 = active[0].id;
    assert_eq!(active[0].checked_out_by, u1);
    assert_eq!(active[0].checked_out_at, 100);
    assert_eq!(active[0].returned_at, None);

    let second = repository.create(CreateCheckout { book_id: b1, checked_out_by: u2, checked_out_at: 200 });
    assert!(matches!(second, Err(AppError::UnprocessableEntity(_))));
    assert_eq!(repository.find_unreturned_all().unwrap().len(), 1);

    let returned = repository.update_returned(UpdateReturned {
        checkout_id: c1,
        book_id: b1,
        returned_by: u1,
        returned_at: 300,
    });
    assert_eq!(returned, Ok(()));
    assert!(repository.find_unreturned_all().unwrap().is_empty());
    assert_eq!(repository.find_unreturned_by_book_id(b1), Ok(None));
    let history = repository.find_history_by_book_id(b1).unwrap();
    assert_eq!(history.len(), 1);
    assert_eq!(history[0].id, c1);
    assert_eq!(history[0].book.book_id, b1);
    assert_eq!(history[0].checked_out_by, u1);
    assert_eq!(history[0].checked_out_at, 100);
    assert_eq!(history[0].returned_at, Some(300));

    let again = repository.create(CreateCheckout { book_id: b1, checked_out_by: u2, checked_out_at: 400 });
    assert_eq!(again, Ok(()));
    let history = repository.find_history_by_book_id(b1).unwrap();
    assert_eq!(history.len(), 2);
    assert_eq!(history[0].checked_out_by, u2);
    assert_eq!(history[0].returned_at, None);
    assert_eq!(history[1].id, c1);
}

#[test]
fn return_by_another_user_is_unprocessable() {
    let mut repository = repository_with_books(&[1]);
    assert_eq!(repository.create_with_id(lend(1, 11, 100), CheckoutId::from_raw(21)), Ok(()));

    let outcome = repository.update_returned(give_back(21, 1, 12, 200));

    let book_text = BookId::from_raw(1).to_string();
    let checkout_text = CheckoutId::from_raw(21).to_string();
    let user_text = UserId::from_raw(12).to_string();
    assert_eq!(
        outcome,
        Err(AppError::UnprocessableEntity(format!(
            "Book not checked out by the user: book_id={}, checkout_id={}, user_id={}",
            book_text, checkout_text, user_text
        )))
    );
    assert_eq!(ids(&repository.find_unreturned_all().unwrap()), vec![21]);
    assert!(repository.find_history_by_book_id(BookId::from_raw(1)).unwrap()[0].returned_at.is_none());
}

#[test]
fn lending_an_unknown_book_is_not_found() {
    let mut repository = repository_with_books(&[1]);

    let outcome = repository.create(lend(2, 11, 100));

    assert_eq!(
        outcome,
        Err(AppError::EntityNotFound(format!(
            "Book not found: book_id={}",
            BookId::from_raw(2).to_string()
        )))
    );
    assert!(repository.find_unreturned_all().unwrap().is_empty());
}

#[test]
fn lending_a_lent_book_is_unprocessable() {
    let mut repository = repository_with_books(&[1]);
    assert_eq!(repository.create_with_id(lend(1, 11, 100), CheckoutId::from_raw(21)), Ok(()));

    let outcome = repository.create_with_id(lend(1, 11, 150), CheckoutId::from_raw(22));

    assert_eq!(
        outcome,
        Err(AppError::UnprocessableEntity(format!(
            "Book already checked out: book_id={}",
            BookId::from_raw(1).to_string()
        )))
    );
    assert_eq!(ids(&repository.find_unreturned_all().unwrap()), vec![21]);
}

#[test]
fn returning_an_unknown_book_is_not_found() {
    let mut repository = repository_with_books(&[1]);
    assert_eq!(repository.create_with_id(lend(1, 11, 100), CheckoutId::from_raw(21)), Ok(()));

    let outcome = repository.update_returned(give_back(21, 9, 11, 200));

    assert_eq!(
        outcome,
        Err(AppError::EntityNotFound(format!(
            "Book not found: book_id={}",
            BookId::from_raw(9).to_string()
        )))
    );
    assert_eq!(ids(&repository.find_unreturned_all().unwrap()), vec![21]);
}

#[test]
fn return_under_another_checkout_id_is_unprocessable() {
    let mut repository = repository_with_books(&[1, 2]);
    assert_eq!(repository.create_with_id(lend(1, 11, 100), CheckoutId::from_raw(21)), Ok(()));
    assert_eq!(repository.create_with_id(lend(2, 11, 110), CheckoutId::from_raw(22)), Ok(()));

    let unknown = repository.update_returned(give_back(99, 1, 11, 200));
    let of_other_book = repository.update_returned(give_back(22, 1, 11, 200));

    assert!(matches!(unknown, Err(AppError::UnprocessableEntity(_))));
    assert!(matches!(of_other_book, Err(AppError::UnprocessableEntity(_))));
    assert_eq!(ids(&repository.find_unreturned_all().unwrap()), vec![21, 22]);
    assert!(repository.find_history_by_book_id(BookId::from_raw(2)).unwrap()[0].returned_at.is_none());
}

#[test]
fn returning_a_book_that_is_not_lent_is_unprocessable() {
    let mut repository = repository_with_books(&[1]);

    let never_lent = repository.update_returned(give_back(21, 1, 11, 200));
    assert!(matches!(never_lent, Err(AppError::UnprocessableEntity(_))));

    assert_eq!(repository.create_with_id(lend(1, 11, 100), CheckoutId::from_raw(21)), Ok(()));
    assert_eq!(repository.update_returned(give_back(21, 1, 11, 200)), Ok(()));
    let twice = repository.update_returned(give_back(21, 1, 11, 300));
    assert!(matches!(twice, Err(AppError::UnprocessableEntity(_))));
    let history = repository.find_history_by_book_id(BookId::from_raw(1)).unwrap();
    assert_eq!(history.len(), 1);
    assert_eq!(history[0].returned_at, Some(200));
}

#[test]
fn return_succeeds_on_the_exact_match_only() {
    let mut repository = repository_with_books(&[1]);
    assert_eq!(repository.create_with_id(lend(1, 11, 100), CheckoutId::from_raw(21)), Ok(()));

    assert!(repository.update_returned(give_back(22, 1, 11, 200)).is_err());
    assert!(repository.update_returned(give_back(21, 1, 12, 200)).is_err());
    assert!(repository.update_returned(give_back(22, 1, 12, 200)).is_err());
    assert_eq!(repository.update_returned(give_back(21, 1, 11, 200)), Ok(()));
}

#[test]
fn a_book_never_has_two_active_checkouts() {
    let mut repository = repository_with_books(&[1, 2, 3]);
    let mut next_id: u128 = 100;
    let mut clock: i64 = 0;
    for round in 0..6u128 {
        for book in 1..=3u128 {
            for user in 11..=13u128 {
                next_id += 1;
                clock += 1;
                let _ = repository.create_with_id(lend(book, user, clock), CheckoutId::from_raw(next_id));
            }
            let active = repository.find_unreturned_all().unwrap();
            for id in 1..=3u128 {
                let of_book = active.iter().filter(|c| c.book.book_id == BookId::from_raw(id)).count();
                assert!(of_book <= 1);
            }
            if (round + book) % 2 == 0 {
                let holder = repository
                    .find_unreturned_by_book_id(BookId::from_raw(book))
                    .unwrap()
                    .unwrap();
                clock += 1;
                let returned = repository.update_returned(UpdateReturned {
                    checkout_id: holder.id,
                    book_id: BookId::from_raw(book),
                    returned_by: holder.checked_out_by,
                    returned_at: clock,
                });
                assert_eq!(returned, Ok(()));
            }
        }
    }
    let active = repository.find_unreturned_all().unwrap();
    assert!(active.len() <= 3);
    for id in 1..=3u128 {
        let history = repository.find_history_by_book_id(BookId::from_raw(id)).unwrap();
        let open = history.iter().filter(|c| c.returned_at.is_none()).count();
        assert!(open <= 1);
    }
}

#[test]
fn a_taken_checkout_id_fails_the_write_and_leaves_no_row() {
    let mut repository = repository_with_books(&[1, 2]);
    assert_eq!(repository.create_with_id(lend(1, 11, 100), CheckoutId::from_raw(21)), Ok(()));
    let before = repository.find_unreturned_all().unwrap();

    let outcome = repository.create_with_id(lend(2, 12, 200), CheckoutId::from_raw(21));

    assert_eq!(outcome, Err(AppError::SpecificOperationError(DUPLICATE_CHECKOUT.to_string())));
    assert_eq!(repository.find_unreturned_all().unwrap(), before);
    assert_eq!(repository.find_unreturned_by_book_id(BookId::from_raw(2)), Ok(None));
    assert!(repository.find_history_by_book_id(BookId::from_raw(2)).unwrap().is_empty());
    assert_eq!(repository.create_with_id(lend(2, 12, 200), CheckoutId::from_raw(22)), Ok(()));
}

#[test]
fn unreturned_all_is_oldest_first() {
    let mut repository = repository_with_books(&[1, 2, 3, 4]);
    assert_eq!(repository.create_with_id(lend(1, 11, 300), CheckoutId::from_raw(21)), Ok(()));
    assert_eq!(repository.create_with_id(lend(2, 12, 100), CheckoutId::from_raw(22)), Ok(()));
    assert_eq!(repository.create_with_id(lend(3, 11, 200), CheckoutId::from_raw(23)), Ok(()));
    assert_eq!(repository.create_with_id(lend(4, 13, 200), CheckoutId::from_raw(24)), Ok(()));

    let all = repository.find_unreturned_all().unwrap();

    assert_eq!(ids(&all), vec![22, 23, 24, 21]);
    assert_eq!(all[0].book.title, "Book 2");
    assert_eq!(all[0].book.author, "Author of Book 2");
    assert_eq!(all[0].book.isbn, "isbn-2");
    assert_eq!(all[3].book.book_id, BookId::from_raw(1));
}

#[test]
fn unreturned_by_user_is_that_users_loans_oldest_first() {
    let mut repository = repository_with_books(&[1, 2, 3]);
    assert_eq!(repository.create_with_id(lend(1, 11, 300), CheckoutId::from_raw(21)), Ok(()));
    assert_eq!(repository.create_with_id(lend(2, 12, 100), CheckoutId::from_raw(22)), Ok(()));
    assert_eq!(repository.create_with_id(lend(3, 11, 200), CheckoutId::from_raw(23)), Ok(()));

    let of_11 = repository.find_unreturned_by_user_id(UserId::from_raw(11)).unwrap();
    let of_12 = repository.find_unreturned_by_user_id(UserId::from_raw(12)).unwrap();
    let of_13 = repository.find_unreturned_by_user_id(UserId::from_raw(13)).unwrap();

    assert_eq!(ids(&of_11), vec![23, 21]);
    assert!(of_11.iter().all(|c| c.checked_out_by == UserId::from_raw(11) && c.returned_at.is_none()));
    assert_eq!(ids(&of_12), vec![22]);
    assert!(of_13.is_empty());
}

#[test]
fn reading_twice_gives_the_same() {
    let mut repository = repository_with_books(&[1, 2]);
    assert_eq!(repository.create_with_id(lend(1, 11, 300), CheckoutId::from_raw(21)), Ok(()));
    assert_eq!(repository.create_with_id(lend(2, 12, 100), CheckoutId::from_raw(22)), Ok(()));

    let first = repository.find_unreturned_all();
    let second = repository.find_unreturned_all();

    assert_eq!(first, second);
    assert_eq!(first.unwrap().len(), 2);
    assert_eq!(
        repository.find_history_by_book_id(BookId::from_raw(1)),
        repository.find_history_by_book_id(BookId::from_raw(1))
    );
    assert_eq!(
        repository.find_unreturned_by_user_id(UserId::from_raw(12)),
        repository.find_unreturned_by_user_id(UserId::from_raw(12))
    );
}

#[test]
fn history_is_the_active_loan_then_the_returned_ones_oldest_first() {
    let mut repository = repository_with_books(&[1, 2]);
    assert_eq!(repository.create_with_id(lend(1, 11, 500), CheckoutId::from_raw(21)), Ok(()));
    assert_eq!(repository.update_returned(give_back(21, 1, 11, 600)), Ok(()));
    assert_eq!(repository.create_with_id(lend(1, 12, 100), CheckoutId::from_raw(22)), Ok(()));
    assert_eq!(repository.update_returned(give_back(22, 1, 12, 700)), Ok(()));
    assert_eq!(repository.create_with_id(lend(1, 13, 300), CheckoutId::from_raw(23)), Ok(()));
    assert_eq!(repository.update_returned(give_back(23, 1, 13, 800)), Ok(()));
    assert_eq!(repository.create_with_id(lend(2, 11, 50), CheckoutId::from_raw(24)), Ok(()));
    assert_eq!(repository.update_returned(give_back(24, 2, 11, 60)), Ok(()));
    assert_eq!(repository.create_with_id(lend(1, 11, 200), CheckoutId::from_raw(25)), Ok(()));

    let history = repository.find_history_by_book_id(BookId::from_raw(1)).unwrap();

    assert_eq!(ids(&history), vec![25, 22, 23, 21]);
    assert_eq!(history[0].returned_at, None);
    assert_eq!(history[1].returned_at, Some(700));
    assert_eq!(history[2].returned_at, Some(800));
    assert_eq!(history[3].returned_at, Some(600));
    assert!(history.iter().all(|c| c.book.book_id == BookId::from_raw(1)));
    assert_eq!(history[1].checked_out_by, UserId::from_raw(12));
    assert_eq!(history[1].book.title, "Book 1");

    let other = repository.find_history_by_book_id(BookId::from_raw(2)).unwrap();
    assert_eq!(ids(&other), vec![24]);
    assert_eq!(other[0].returned_at, Some(60));
}

#[test]
fn history_of_a_book_without_loans_is_empty() {
    let repository = repository_with_books(&[1]);

    assert_eq!(repository.find_history_by_book_id(BookId::from_raw(1)), Ok(vec![]));
    assert_eq!(repository.find_history_by_book_id(BookId::from_raw(7)), Ok(vec![]));
    assert_eq!(repository.find_unreturned_all(), Ok(vec![]));
    assert_eq!(repository.find_unreturned_by_user_id(UserId::from_raw(11)), Ok(vec![]));
}

#[test]
fn the_same_checkout_id_may_return_in_history() {
    let mut repository = repository_with_books(&[1]);
    assert_eq!(repository.create_with_id(lend(1, 11, 100), CheckoutId::from_raw(21)), Ok(()));
    assert_eq!(repository.update_returned(give_back(21, 1, 11, 150)), Ok(()));
    assert_eq!(repository.create_with_id(lend(1, 12, 200), CheckoutId::from_raw(21)), Ok(()));
    assert_eq!(repository.update_returned(give_back(21, 1, 12, 250)), Ok(()));

    let history = repository.find_history_by_book_id(BookId::from_raw(1)).unwrap();

    assert_eq!(ids(&history), vec![21, 21]);
    assert_eq!(history[0].checked_out_by, UserId::from_raw(11));
    assert_eq!(history[1].checked_out_by, UserId::from_raw(12));
}

#[test]
fn a_repository_gives_up_a_transaction_left_open() {
    let mut database = Database::new();
    assert!(database.insert_book(book(1, "Book 1")));
    let _ = database.execute(book_manager::protocol::StoreRequest::Begin);
    assert!(database.in_transaction());

    let mut repository = CheckoutRepositoryImpl::new(database);

    assert_eq!(repository.create_with_id(lend(1, 11, 100), CheckoutId::from_raw(21)), Ok(()));
    assert_eq!(ids(&repository.find_unreturned_all().unwrap()), vec![21]);
}

#[test]
fn registering_a_book_twice_is_turned_away() {
    let mut repository = repository_with_books(&[1]);

    assert!(!repository.register_book(book(1, "Another")));
    assert!(repository.register_book(book(2, "Book 2")));

    assert_eq!(repository.create_with_id(lend(1, 11, 100), CheckoutId::from_raw(21)), Ok(()));
    assert_eq!(repository.find_unreturned_all().unwrap()[0].book.title, "Book 1");
    assert_eq!(repository.create_with_id(lend(2, 11, 100), CheckoutId::from_raw(22)), Ok(()));
}
