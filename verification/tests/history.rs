use book_manager::id::{BookId, CheckoutId, UserId};
use book_manager::model::{Checkout, CheckoutBook, CheckoutRow, ReturnedCheckoutRow};
use book_manager::repository::{assemble_history, checkouts_from_active, checkouts_from_returned};

fn active_row(checkout: u128, at: i64) -> CheckoutRow {
    CheckoutRow {
        checkout_id: CheckoutId::from_raw(checkout),
        book_id: BookId::from_raw(1),
        user_id: UserId::from_raw(11),
        checked_out_at: at,
        title: "Title".to_string(),
        author: "Author".to_string(),
        isbn: "isbn".to_string(),
    }
}

fn returned_row(checkout: u128, at: i64, returned_at: i64) -> ReturnedCheckoutRow {
    ReturnedCheckoutRow {
        checkout_id: CheckoutId::from_raw(checkout),
        book_id: BookId::from_raw(1),
        user_id: UserId::from_raw(12),
        checked_out_at: at,
        returned_at,
        title: "Title".to_string(),
        author: "Author".to_string(),
        isbn: "isbn".to_string(),
    }
}

fn checkout(id: u128, user: u128, at: i64, returned_at: Option<i64>) -> Checkout {
    Checkout {
        id: CheckoutId::from_raw(id),
        checked_out_by: UserId::from_raw(user),
        checked_out_at: at,
        returned_at,
        book: CheckoutBook {
            book_id: BookId::from_raw(1),
            title: "Title".to_string(),
            author: "Author".to_string(),
            isbn: "isbn".to_string(),
        },
    }
}

#[test]
fn an_active_row_is_a_checkout_without_return() {
    assert_eq!(Checkout::from(active_row(21, 100)), checkout(21, 11, 100, None));
}

#[test]
fn a_returned_row_is_a_checkout_with_return() {
    assert_eq!(Checkout::from(returned_row(21, 100, 200)), checkout(21, 12, 100, Some(200)));
}

#[test]
fn rows_become_checkouts_one_for_one() {
    assert_eq!(checkouts_from_active(vec![]), vec![]);
    assert_eq!(
        checkouts_from_active(vec![active_row(21, 100), active_row(22, 50)]),
        vec![checkout(21, 11, 100, None), checkout(22, 11, 50, None)]
    );
    assert_eq!(checkouts_from_returned(vec![]), vec![]);
    assert_eq!(
        checkouts_from_returned(vec![returned_row(23, 10, 20), returned_row(24, 30, 40)]),
        vec![checkout(23, 12, 10, Some(20)), checkout(24, 12, 30, Some(40))]
    );
}

#[test]
fn the_active_loan_goes_in_front() {
    let returned = vec![checkout(23, 12, 10, Some(20)), checkout(24, 12, 30, Some(40))];

    let with_active = assemble_history(Some(checkout(21, 11, 5, None)), returned.clone());
    let without = assemble_history(None, returned.clone());
    let only_active = assemble_history(Some(checkout(21, 11, 5, None)), vec![]);
    let nothing = assemble_history(None, vec![]);

    assert_eq!(
        with_active,
        vec![
            checkout(21, 11, 5, None),
            checkout(23, 12, 10, Some(20)),
            checkout(24, 12, 30, Some(40))
        ]
    );
    assert_eq!(without, returned);
    assert_eq!(only_active, vec![checkout(21, 11, 5, None)]);
    assert_eq!(nothing, vec![]);
}
