//! The values that the lending ledger speaks of: the commands that change
//! it, the rows that a store hands out, and the checkout that callers see.
//!
//! A point in time is an `i64`: microseconds since the Unix epoch, UTC.
//! Rows are ordered and compared by that number alone.

use crate::id::{BookId, CheckoutId, UserId};
use vstd::prelude::*;
use vstd::std_specs::convert::FromSpecImpl;

verus! {

/// Command: lend a book to a user.
#[derive(Clone, Copy, Debug, PartialEq, Eq, Structural)]
pub struct CreateCheckout {
    pub book_id: BookId,
    pub checked_out_by: UserId,
    pub checked_out_at: i64,
}

/// Command: take a lent book back from the user who returns it.
#[derive(Clone, Copy, Debug, PartialEq, Eq, Structural)]
pub struct UpdateReturned {
    pub checkout_id: CheckoutId,
    pub book_id: BookId,
    pub returned_by: UserId,
    pub returned_at: i64,
}

/// A row of the table of active checkouts: one loan in progress.
#[derive(Clone, Copy, Debug, PartialEq, Eq, Structural)]
pub struct CheckoutRecord {
    pub checkout_id: CheckoutId,
    pub book_id: BookId,
    pub user_id: UserId,
    pub checked_out_at: i64,
}

/// A row of the table of returned checkouts: one loan that has ended.
#[derive(Clone, Copy, Debug, PartialEq, Eq, Structural)]
pub struct ReturnedRecord {
    pub checkout_id: CheckoutId,
    pub book_id: BookId,
    pub user_id: UserId,
    pub checked_out_at: i64,
    pub returned_at: i64,
}

impl CheckoutRecord {
    /// The record that remains of the loan once it has ended at
    /// `returned_at`: every field carried over, the time of return added.
    pub open spec fn closed_at(self, returned_at: i64) -> ReturnedRecord {
        ReturnedRecord {
            checkout_id: self.checkout_id,
            book_id: self.book_id,
            user_id: self.user_id,
            checked_out_at: self.checked_out_at,
            returned_at,
        }
    }
}

/// Where a book stands: the book joined with its active checkout, if it has
/// one. Read before every write, and never stored.
#[derive(Clone, Copy, Debug, PartialEq, Eq)]
pub struct CheckoutStateRow {
    pub book_id: BookId,
    pub checkout_id: Option<CheckoutId>,
    pub user_id: Option<UserId>,
}

/// What is registered of a book besides its identifier.
pub struct BookInfo {
    pub title: Seq<char>,
    pub author: Seq<char>,
    pub isbn: Seq<char>,
}

/// A registered book.
#[derive(Clone, Debug, PartialEq, Eq)]
pub struct Book {
    pub book_id: BookId,
    pub title: String,
    pub author: String,
    pub isbn: String,
}

impl Book {
    /// Title, author and ISBN of the book.
    pub open spec fn info(&self) -> BookInfo {
        BookInfo { title: self.title@, author: self.author@, isbn: self.isbn@ }
    }
}

/// An active checkout joined with its book, as a query hands it out.
#[derive(Clone, Debug, PartialEq, Eq)]
pub struct CheckoutRow {
    pub checkout_id: CheckoutId,
    pub book_id: BookId,
    pub user_id: UserId,
    pub checked_out_at: i64,
    pub title: String,
    pub author: String,
    pub isbn: String,
}

/// A returned checkout joined with its book, as a query hands it out.
#[derive(Clone, Debug, PartialEq, Eq)]
pub struct ReturnedCheckoutRow {
    pub checkout_id: CheckoutId,
    pub book_id: BookId,
    pub user_id: UserId,
    pub checked_out_at: i64,
    pub returned_at: i64,
    pub title: String,
    pub author: String,
    pub isbn: String,
}

/// The book of a checkout.
#[derive(Clone, Debug, PartialEq, Eq)]
pub struct CheckoutBook {
    pub book_id: BookId,
    pub title: String,
    pub author: String,
    pub isbn: String,
}

/// One loan of a book, in progress (`returned_at` is `None`) or ended.
#[derive(Clone, Debug, PartialEq, Eq)]
pub struct Checkout {
    pub id: CheckoutId,
    pub checked_out_by: UserId,
    pub checked_out_at: i64,
    pub returned_at: Option<i64>,
    pub book: CheckoutBook,
}

/// A [`Checkout`] with its texts as sequences of characters.
pub struct CheckoutView {
    pub id: CheckoutId,
    pub checked_out_by: UserId,
    pub checked_out_at: i64,
    pub returned_at: Option<i64>,
    pub book_id: BookId,
    pub book: BookInfo,
}

impl View for Checkout {
    type V = CheckoutView;

    open spec fn view(&self) -> CheckoutView {
        CheckoutView {
            id: self.id,
            checked_out_by: self.checked_out_by,
            checked_out_at: self.checked_out_at,
            returned_at: self.returned_at,
            book_id: self.book.book_id,
            book: BookInfo {
                title: self.book.title@,
                author: self.book.author@,
                isbn: self.book.isbn@,
            },
        }
    }
}

impl CheckoutRecord {
    /// The loan in progress as callers see it, with what is registered of
    /// its book.
    pub open spec fn shown_with(self, book: BookInfo) -> CheckoutView {
        CheckoutView {
            id: self.checkout_id,
            checked_out_by: self.user_id,
            checked_out_at: self.checked_out_at,
            returned_at: None,
            book_id: self.book_id,
            book,
        }
    }
}

impl ReturnedRecord {
    /// The ended loan as callers see it, with what is registered of its
    /// book.
    pub open spec fn shown_with(self, book: BookInfo) -> CheckoutView {
        CheckoutView {
            id: self.checkout_id,
            checked_out_by: self.user_id,
            checked_out_at: self.checked_out_at,
            returned_at: Some(self.returned_at),
            book_id: self.book_id,
            book,
        }
    }
}

impl CheckoutRow {
    /// The table row behind the joined row.
    pub open spec fn record(&self) -> CheckoutRecord {
        CheckoutRecord {
            checkout_id: self.checkout_id,
            book_id: self.book_id,
            user_id: self.user_id,
            checked_out_at: self.checked_out_at,
        }
    }

    /// The book's part of the joined row.
    pub open spec fn info(&self) -> BookInfo {
        BookInfo { title: self.title@, author: self.author@, isbn: self.isbn@ }
    }
}

impl ReturnedCheckoutRow {
    /// The table row behind the joined row.
    pub open spec fn record(&self) -> ReturnedRecord {
        ReturnedRecord {
            checkout_id: self.checkout_id,
            book_id: self.book_id,
            user_id: self.user_id,
            checked_out_at: self.checked_out_at,
            returned_at: self.returned_at,
        }
    }

    /// The book's part of the joined row.
    pub open spec fn info(&self) -> BookInfo {
        BookInfo { title: self.title@, author: self.author@, isbn: self.isbn@ }
    }
}

impl From<CheckoutRow> for Checkout {
    /// A loan in progress: every field of the row, and no time of return.
    fn from(row: CheckoutRow) -> (checkout: Checkout)
        ensures
            checkout@ == row.record().shown_with(row.info()),
    {
        Checkout {
            id: row.checkout_id,
            checked_out_by: row.user_id,
            checked_out_at: row.checked_out_at,
            returned_at: None,
            book: CheckoutBook {
                book_id: row.book_id,
                title: row.title,
                author: row.author,
                isbn: row.isbn,
            },
        }
    }
}

impl FromSpecImpl<CheckoutRow> for Checkout {
    open spec fn obeys_from_spec() -> bool {
        true
    }

    open spec fn from_spec(row: CheckoutRow) -> Checkout {
        Checkout {
            id: row.checkout_id,
            checked_out_by: row.user_id,
            checked_out_at: row.checked_out_at,
            returned_at: None,
            book: CheckoutBook {
                book_id: row.book_id,
                title: row.title,
                author: row.author,
                isbn: row.isbn,
            },
        }
    }
}

impl From<ReturnedCheckoutRow> for Checkout {
    /// An ended loan: every field of the row, the time of return among them.
    fn from(row: ReturnedCheckoutRow) -> (checkout: Checkout)
        ensures
            checkout@ == row.record().shown_with(row.info()),
    {
        Checkout {
            id: row.checkout_id,
            checked_out_by: row.user_id,
            checked_out_at: row.checked_out_at,
            returned_at: Some(row.returned_at),
            book: CheckoutBook {
                book_id: row.book_id,
                title: row.title,
                author: row.author,
                isbn: row.isbn,
            },
        }
    }
}

impl FromSpecImpl<ReturnedCheckoutRow> for Checkout {
    open spec fn obeys_from_spec() -> bool {
        true
    }

    open spec fn from_spec(row: ReturnedCheckoutRow) -> Checkout {
        Checkout {
            id: row.checkout_id,
            checked_out_by: row.user_id,
            checked_out_at: row.checked_out_at,
            returned_at: Some(row.returned_at),
            book: CheckoutBook {
                book_id: row.book_id,
                title: row.title,
                author: row.author,
                isbn: row.isbn,
            },
        }
    }
}

} // verus!
