//! What a write transaction asks of the store, and what the store answers.
//!
//! The transactions never touch a store themselves. They hand out one
//! [`StoreRequest`] at a time and take the [`StoreResponse`] to it; whoever
//! holds the store (a database driver, or the in-memory store of this
//! crate) carries the request out.

use crate::id::{BookId, CheckoutId};
use crate::model::{CheckoutRecord, CheckoutStateRow};
use vstd::prelude::*;

verus! {

/// One thing to do in the store.
#[derive(Clone, Copy, Debug, PartialEq, Eq)]
pub enum StoreRequest {
    /// Open a transaction.
    Begin,
    /// Raise the open transaction to serializable isolation.
    SetSerializable,
    /// Read where the book stands: the book joined with its active
    /// checkout. With `with_holder` unset the holder is left out of the row.
    ReadCheckoutState { book_id: BookId, with_holder: bool },
    /// Insert the row into the table of active checkouts.
    InsertCheckout { record: CheckoutRecord },
    /// Copy the active checkout with this identifier into the table of
    /// returned checkouts, with `returned_at` added.
    InsertReturned { checkout_id: CheckoutId, returned_at: i64 },
    /// Delete the active checkout with this identifier.
    DeleteCheckout { checkout_id: CheckoutId },
    /// Commit the open transaction.
    Commit,
    /// Give the open transaction up, with everything written in it.
    Rollback,
}

/// The store's answer to one request.
#[derive(Clone, Debug, PartialEq, Eq)]
pub enum StoreResponse {
    /// Done, with nothing to report: the answer to `Begin`,
    /// `SetSerializable`, `Commit` and `Rollback`.
    Done,
    /// The row read for `ReadCheckoutState`, or `None` where there is no
    /// such book.
    CheckoutState(Option<CheckoutStateRow>),
    /// How many rows a write changed.
    RowsAffected(u64),
    /// The store failed to carry the request out; the text says how.
    Failed(String),
}

/// A [`StoreResponse`] with its text as a sequence of characters.
pub enum StoreResponseView {
    Done,
    CheckoutState(Option<CheckoutStateRow>),
    RowsAffected(u64),
    Failed(Seq<char>),
}

impl View for StoreResponse {
    type V = StoreResponseView;

    open spec fn view(&self) -> StoreResponseView {
        match self {
            StoreResponse::Done => StoreResponseView::Done,
            StoreResponse::CheckoutState(row) => StoreResponseView::CheckoutState(*row),
            StoreResponse::RowsAffected(rows) => StoreResponseView::RowsAffected(*rows),
            StoreResponse::Failed(text) => StoreResponseView::Failed(text@),
        }
    }
}

impl StoreResponseView {
    /// What to report of an answer that is not the awaited one: the store's
    /// own words where it failed, and a fixed text where it answered
    /// something that the request did not ask for.
    pub open spec fn complaint(self) -> Seq<char> {
        match self {
            StoreResponseView::Failed(text) => text,
            _ => "Unexpected answer from the store."@,
        }
    }
}

impl StoreResponse {
    /// What to report of an answer that is not the awaited one.
    pub fn complaint(self) -> (text: String)
        ensures
            text@ == self@.complaint(),
    {
        match self {
            StoreResponse::Failed(text) => text,
            _ => "Unexpected answer from the store.".to_owned(),
        }
    }
}

} // verus!
