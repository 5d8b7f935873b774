//! The lending ledger as mathematics: three tables and what the requests of
//! a transaction do to them.
//!
//! Everything here is specification and proof. The executable store and
//! the repository are proved against these definitions.

use crate::command::{
    book_already_checked_out, book_not_checked_out_by, book_not_found, Command,
};
use crate::error::AppErrorView;
use crate::id::{BookId, CheckoutId, UserId};
use crate::model::{
    BookInfo, CheckoutRecord, CheckoutStateRow, CheckoutView, CreateCheckout, ReturnedRecord,
    UpdateReturned,
};
use crate::protocol::{StoreRequest, StoreResponseView};
use vstd::prelude::*;

verus! {

/// No two active checkouts share an identifier.
pub open spec fn distinct_checkout_ids(rows: Seq<CheckoutRecord>) -> bool {
    forall|i: int, j: int|
        0 <= i < j < rows.len() ==> rows[i].checkout_id != rows[j].checkout_id
}

/// No two active checkouts are of the same book.
pub open spec fn one_loan_per_book(rows: Seq<CheckoutRecord>) -> bool {
    forall|i: int, j: int| 0 <= i < j < rows.len() ==> rows[i].book_id != rows[j].book_id
}

/// The active checkouts stand in the order in which the loans began.
pub open spec fn active_in_order(rows: Seq<CheckoutRecord>) -> bool {
    forall|i: int, j: int|
        0 <= i < j < rows.len() ==> rows[i].checked_out_at <= rows[j].checked_out_at
}

/// The returned checkouts stand in the order in which the loans began.
pub open spec fn returned_in_order(rows: Seq<ReturnedRecord>) -> bool {
    forall|i: int, j: int|
        0 <= i < j < rows.len() ==> rows[i].checked_out_at <= rows[j].checked_out_at
}

/// The checkouts as callers see them stand in the order in which the loans
/// began.
pub open spec fn shown_in_order(rows: Seq<CheckoutView>) -> bool {
    forall|i: int, j: int|
        0 <= i < j < rows.len() ==> rows[i].checked_out_at <= rows[j].checked_out_at
}

/// Where a loan that began at `at` goes among the active checkouts: behind
/// every loan that began no later.
pub open spec fn active_slot(rows: Seq<CheckoutRecord>, at: i64) -> int
    decreases rows.len(),
{
    if rows.len() == 0 {
        0
    } else if rows.last().checked_out_at <= at {
        rows.len() as int
    } else {
        active_slot(rows.drop_last(), at)
    }
}

/// Where a loan that began at `at` goes among the returned checkouts:
/// behind every loan that began no later.
pub open spec fn returned_slot(rows: Seq<ReturnedRecord>, at: i64) -> int
    decreases rows.len(),
{
    if rows.len() == 0 {
        0
    } else if rows.last().checked_out_at <= at {
        rows.len() as int
    } else {
        returned_slot(rows.drop_last(), at)
    }
}

/// Selects the active checkouts of one book.
pub open spec fn of_book(book_id: BookId) -> spec_fn(CheckoutRecord) -> bool {
    |row: CheckoutRecord| row.book_id == book_id
}

/// Selects the active checkouts that one user holds.
pub open spec fn held_by(user_id: UserId) -> spec_fn(CheckoutRecord) -> bool {
    |row: CheckoutRecord| row.user_id == user_id
}

/// Selects the returned checkouts of one book.
pub open spec fn returned_of_book(book_id: BookId) -> spec_fn(ReturnedRecord) -> bool {
    |row: ReturnedRecord| row.book_id == book_id
}

/// The state of the store between transactions: the registered books, the
/// loans in progress and the loans that have ended.
#[verifier::ext_equal]
pub struct Ledger {
    pub books: Map<BookId, BookInfo>,
    pub checkouts: Seq<CheckoutRecord>,
    pub returned: Seq<ReturnedRecord>,
}

impl Ledger {
    /// A ledger without books and without loans.
    pub open spec fn empty() -> Ledger {
        Ledger { books: Map::empty(), checkouts: Seq::empty(), returned: Seq::empty() }
    }

    /// What the store keeps true of its tables: a checkout's identifier is
    /// its key, a book has at most one active checkout, every checkout is of
    /// a registered book, and both tables stand in the order in which the
    /// loans began.
    pub open spec fn wf(self) -> bool {
        &&& distinct_checkout_ids(self.checkouts)
        &&& one_loan_per_book(self.checkouts)
        &&& active_in_order(self.checkouts)
        &&& returned_in_order(self.returned)
        &&& forall|i: int|
            0 <= i < self.checkouts.len() ==> self.books.contains_key(
                #[trigger] self.checkouts[i].book_id,
            )
        &&& forall|i: int|
            0 <= i < self.returned.len() ==> self.books.contains_key(
                #[trigger] self.returned[i].book_id,
            )
    }

    /// Whether the book is registered.
    pub open spec fn has_book(self, book_id: BookId) -> bool {
        self.books.contains_key(book_id)
    }

    /// Whether the book is out on loan.
    pub open spec fn is_lent(self, book_id: BookId) -> bool {
        exists|i: int| 0 <= i < self.checkouts.len() && self.checkouts[i].book_id == book_id
    }

    /// Where the book's active checkout stands in the table.
    pub open spec fn loan_index(self, book_id: BookId) -> int {
        choose|i: int| 0 <= i < self.checkouts.len() && self.checkouts[i].book_id == book_id
    }

    /// The book's active checkout, if it is out on loan.
    pub open spec fn loan_of(self, book_id: BookId) -> Option<CheckoutRecord> {
        if self.is_lent(book_id) {
            Some(self.checkouts[self.loan_index(book_id)])
        } else {
            None
        }
    }

    /// How many active checkouts the book has.
    pub open spec fn active_count(self, book_id: BookId) -> nat {
        self.checkouts.filter(of_book(book_id)).len()
    }

    /// How many returned checkouts the book has.
    pub open spec fn returned_count(self, book_id: BookId) -> nat {
        self.returned.filter(returned_of_book(book_id)).len()
    }

    /// Whether an active checkout has this identifier.
    pub open spec fn has_checkout(self, checkout_id: CheckoutId) -> bool {
        exists|i: int|
            0 <= i < self.checkouts.len() && self.checkouts[i].checkout_id == checkout_id
    }

    /// Where the active checkout with this identifier stands in the table.
    pub open spec fn checkout_index(self, checkout_id: CheckoutId) -> int {
        choose|i: int|
            0 <= i < self.checkouts.len() && self.checkouts[i].checkout_id == checkout_id
    }

    /// Where the book stands: `None` where it is not registered, else the
    /// book with the identifier of its active checkout and, where
    /// `with_holder` is set, the user who holds it.
    pub open spec fn state_of(self, book_id: BookId, with_holder: bool) -> Option<
        CheckoutStateRow,
    > {
        if !self.has_book(book_id) {
            None
        } else {
            match self.loan_of(book_id) {
                Some(loan) => Some(
                    CheckoutStateRow {
                        book_id,
                        checkout_id: Some(loan.checkout_id),
                        user_id: if with_holder {
                            Some(loan.user_id)
                        } else {
                            None
                        },
                    },
                ),
                None => Some(CheckoutStateRow { book_id, checkout_id: None, user_id: None }),
            }
        }
    }

    /// Whether the table of active checkouts takes the row: its book is
    /// registered and not on loan, and its identifier is not in use.
    pub open spec fn admits(self, record: CheckoutRecord) -> bool {
        &&& !self.has_checkout(record.checkout_id)
        &&& !self.is_lent(record.book_id)
        &&& self.has_book(record.book_id)
    }

    /// The ledger with one more registered book.
    pub open spec fn with_book(self, book_id: BookId, book: BookInfo) -> Ledger {
        Ledger { books: self.books.insert(book_id, book), ..self }
    }

    /// The ledger with one more active checkout.
    pub open spec fn with_checkout(self, record: CheckoutRecord) -> Ledger {
        Ledger {
            checkouts: self.checkouts.insert(
                active_slot(self.checkouts, record.checked_out_at),
                record,
            ),
            ..self
        }
    }

    /// The ledger with one more returned checkout.
    pub open spec fn with_returned(self, record: ReturnedRecord) -> Ledger {
        Ledger {
            returned: self.returned.insert(
                returned_slot(self.returned, record.checked_out_at),
                record,
            ),
            ..self
        }
    }

    /// The ledger without the active checkout with this identifier.
    pub open spec fn without_checkout(self, checkout_id: CheckoutId) -> Ledger {
        if self.has_checkout(checkout_id) {
            Ledger {
                checkouts: self.checkouts.remove(self.checkout_index(checkout_id)),
                ..self
            }
        } else {
            self
        }
    }

    /// What lending does to the ledger, the new checkout under `checkout_id`.
    ///
    /// - The book is not registered: `EntityNotFound`.
    /// - The book is out on loan: `UnprocessableEntity`.
    /// - The identifier is that of an active checkout: the store turns the
    ///   row away, which is `SpecificOperationError`.
    /// - Else the book is lent: the checkout is one more active row.
    ///
    /// Every failure leaves the ledger as it was.
    pub open spec fn create(self, event: CreateCheckout, checkout_id: CheckoutId) -> (
        Ledger,
        Result<(), AppErrorView>,
    ) {
        if !self.has_book(event.book_id) {
            (self, Err(AppErrorView::EntityNotFound(book_not_found(event.book_id))))
        } else if self.is_lent(event.book_id) {
            (
                self,
                Err(AppErrorView::UnprocessableEntity(book_already_checked_out(event.book_id))),
            )
        } else if self.has_checkout(checkout_id) {
            (self, Err(AppErrorView::SpecificOperationError(DUPLICATE_CHECKOUT@)))
        } else {
            (self.with_checkout(Command::new_record(event, checkout_id)), Ok(()))
        }
    }

    /// Whether the return names the book's active checkout and its holder.
    pub open spec fn matches_loan(self, event: UpdateReturned) -> bool {
        match self.loan_of(event.book_id) {
            Some(loan) => loan.checkout_id == event.checkout_id && loan.user_id
                == event.returned_by,
            None => false,
        }
    }

    /// What taking a book back does to the ledger.
    ///
    /// - The book is not registered: `EntityNotFound`.
    /// - The book is not on loan, or its active checkout has another
    ///   identifier or another holder than the return names:
    ///   `UnprocessableEntity`.
    /// - Else the loan ends: its row leaves the active checkouts, and a copy
    ///   with the time of return is one more returned row.
    ///
    /// Every failure leaves the ledger as it was.
    pub open spec fn update_returned(self, event: UpdateReturned) -> (
        Ledger,
        Result<(), AppErrorView>,
    ) {
        if !self.has_book(event.book_id) {
            (self, Err(AppErrorView::EntityNotFound(book_not_found(event.book_id))))
        } else if !self.matches_loan(event) {
            (self, Err(AppErrorView::UnprocessableEntity(book_not_checked_out_by(event))))
        } else {
            (
                self.with_returned(
                    self.loan_of(event.book_id)->0.closed_at(event.returned_at),
                ).without_checkout(event.checkout_id),
                Ok(()),
            )
        }
    }

    /// What a write transaction does to the ledger.
    pub open spec fn apply(self, command: Command) -> (Ledger, Result<(), AppErrorView>) {
        match command {
            Command::Create { event, checkout_id } => self.create(event, checkout_id),
            Command::Return { event } => self.update_returned(event),
        }
    }

    /// The active checkout as callers see it, joined with its book.
    pub open spec fn show_active(self) -> spec_fn(CheckoutRecord) -> CheckoutView {
        |row: CheckoutRecord| row.shown_with(self.books[row.book_id])
    }

    /// The returned checkout as callers see it, joined with its book.
    pub open spec fn show_returned(self) -> spec_fn(ReturnedRecord) -> CheckoutView {
        |row: ReturnedRecord| row.shown_with(self.books[row.book_id])
    }

    /// Every loan in progress, oldest first.
    pub open spec fn unreturned_all(self) -> Seq<CheckoutView> {
        self.checkouts.map_values(self.show_active())
    }

    /// The loans in progress that one user holds, oldest first.
    pub open spec fn unreturned_by_user(self, user_id: UserId) -> Seq<CheckoutView> {
        self.checkouts.filter(held_by(user_id)).map_values(self.show_active())
    }

    /// The book's loan in progress, if it has one.
    pub open spec fn unreturned_by_book(self, book_id: BookId) -> Option<CheckoutView> {
        match self.loan_of(book_id) {
            Some(loan) => Some(loan.shown_with(self.books[book_id])),
            None => None,
        }
    }

    /// The book's ended loans, oldest first.
    pub open spec fn returned_by_book(self, book_id: BookId) -> Seq<CheckoutView> {
        self.returned.filter(returned_of_book(book_id)).map_values(self.show_returned())
    }

    /// Everything that happened to the book: its loan in progress, if it
    /// has one, and behind it the ended loans, oldest first.
    pub open spec fn history_of(self, book_id: BookId) -> Seq<CheckoutView> {
        match self.unreturned_by_book(book_id) {
            Some(active) => seq![active] + self.returned_by_book(book_id),
            None => self.returned_by_book(book_id),
        }
    }
}

/// The store's words for a request that needs an open transaction when none
/// is open.
pub const NO_TRANSACTION: &'static str = "There is no transaction in progress.";

/// The store's words for `Begin` while a transaction is open.
pub const TRANSACTION_OPEN: &'static str = "A transaction is already in progress.";

/// The store's words for a new checkout whose identifier is in use.
pub const DUPLICATE_CHECKOUT: &'static str = "A checkout with this identifier exists already.";

/// The store's words for a new checkout of a book that is out on loan.
pub const BOOK_ON_LOAN: &'static str = "The book has an active checkout already.";

/// The store's words for a new checkout of a book that is not registered.
pub const UNKNOWN_BOOK: &'static str = "The checkout names a book that is not registered.";

/// A transaction in progress: the ledger as the transaction sees it, with
/// its own writes, and the isolation it runs under.
#[verifier::ext_equal]
pub struct Workspace {
    pub ledger: Ledger,
    pub serializable: bool,
}

/// The state of the store: the committed ledger and the transaction in
/// progress, if there is one.
#[verifier::ext_equal]
pub struct StoreState {
    pub committed: Ledger,
    pub open: Option<Workspace>,
}

impl StoreState {
    /// The store at rest on this ledger.
    pub open spec fn idle(ledger: Ledger) -> StoreState {
        StoreState { committed: ledger, open: None }
    }

    /// The store in a transaction that sees `working`.
    pub open spec fn within(ledger: Ledger, working: Ledger, serializable: bool) -> StoreState {
        StoreState { committed: ledger, open: Some(Workspace { ledger: working, serializable }) }
    }

    /// The store with one more registered book. Books stand outside the
    /// transactions: an open one sees the new book at once.
    pub open spec fn with_book(self, book_id: BookId, book: BookInfo) -> StoreState {
        StoreState {
            committed: self.committed.with_book(book_id, book),
            open: match self.open {
                Some(workspace) => Some(
                    Workspace { ledger: workspace.ledger.with_book(book_id, book), ..workspace },
                ),
                None => None,
            },
        }
    }

    /// Both ledgers are well-formed, and a transaction sees the committed
    /// books.
    pub open spec fn wf(self) -> bool {
        &&& self.committed.wf()
        &&& match self.open {
            Some(workspace) => workspace.ledger.wf() && workspace.ledger.books
                == self.committed.books,
            None => true,
        }
    }

    /// What one request does to the store and what the store answers.
    ///
    /// Writes go to the open transaction only. `Commit` makes them the
    /// committed ledger; `Rollback` drops them. A request that needs a
    /// transaction fails where none is open, and changes nothing.
    pub open spec fn respond(self, request: StoreRequest) -> (StoreState, StoreResponseView) {
        match self.open {
            None => match request {
                StoreRequest::Begin => (
                    StoreState::within(self.committed, self.committed, false),
                    StoreResponseView::Done,
                ),
                StoreRequest::Rollback => (self, StoreResponseView::Done),
                _ => (self, StoreResponseView::Failed(NO_TRANSACTION@)),
            },
            Some(workspace) => {
                let working = workspace.ledger;
                match request {
                    StoreRequest::Begin => (self, StoreResponseView::Failed(TRANSACTION_OPEN@)),
                    StoreRequest::SetSerializable => (
                        StoreState::within(self.committed, working, true),
                        StoreResponseView::Done,
                    ),
                    StoreRequest::ReadCheckoutState { book_id, with_holder } => (
                        self,
                        StoreResponseView::CheckoutState(working.state_of(book_id, with_holder)),
                    ),
                    StoreRequest::InsertCheckout { record } => {
                        if working.has_checkout(record.checkout_id) {
                            (self, StoreResponseView::Failed(DUPLICATE_CHECKOUT@))
                        } else if working.is_lent(record.book_id) {
                            (self, StoreResponseView::Failed(BOOK_ON_LOAN@))
                        } else if !working.has_book(record.book_id) {
                            (self, StoreResponseView::Failed(UNKNOWN_BOOK@))
                        } else {
                            (
                                StoreState::within(
                                    self.committed,
                                    working.with_checkout(record),
                                    workspace.serializable,
                                ),
                                StoreResponseView::RowsAffected(1),
                            )
                        }
                    },
                    StoreRequest::InsertReturned { checkout_id, returned_at } => {
                        if working.has_checkout(checkout_id) {
                            let loan = working.checkouts[working.checkout_index(checkout_id)];
                            (
                                StoreState::within(
                                    self.committed,
                                    working.with_returned(loan.closed_at(returned_at)),
                                    workspace.serializable,
                                ),
                                StoreResponseView::RowsAffected(1),
                            )
                        } else {
                            (self, StoreResponseView::RowsAffected(0))
                        }
                    },
                    StoreRequest::DeleteCheckout { checkout_id } => {
                        if working.has_checkout(checkout_id) {
                            (
                                StoreState::within(
                                    self.committed,
                                    working.without_checkout(checkout_id),
                                    workspace.serializable,
                                ),
                                StoreResponseView::RowsAffected(1),
                            )
                        } else {
                            (self, StoreResponseView::RowsAffected(0))
                        }
                    },
                    StoreRequest::Commit => (StoreState::idle(working), StoreResponseView::Done),
                    StoreRequest::Rollback => (
                        StoreState::idle(self.committed),
                        StoreResponseView::Done,
                    ),
                }
            },
        }
    }
}

/// The slot of a new active checkout splits the table: no row before it
/// began later, every row from it on did.
pub proof fn lemma_active_slot(rows: Seq<CheckoutRecord>, at: i64)
    requires
        active_in_order(rows),
    ensures
        0 <= active_slot(rows, at) <= rows.len(),
        forall|i: int| 0 <= i < active_slot(rows, at) ==> rows[i].checked_out_at <= at,
        forall|i: int| active_slot(rows, at) <= i < rows.len() ==> rows[i].checked_out_at > at,
    decreases rows.len(),
{
    if rows.len() > 0 && rows.last().checked_out_at > at {
        let front = rows.drop_last();
        assert(active_in_order(front)) by {
            assert forall|i: int, j: int| 0 <= i < j < front.len() implies front[i].checked_out_at
                <= front[j].checked_out_at by {
                assert(front[i] == rows[i] && front[j] == rows[j]);
            }
        }
        lemma_active_slot(front, at);
        assert forall|i: int| active_slot(rows, at) <= i < rows.len() implies rows[i].checked_out_at
            > at by {
            if i < front.len() {
                assert(front[i] == rows[i]);
            }
        }
        assert forall|i: int| 0 <= i < active_slot(rows, at) implies rows[i].checked_out_at
            <= at by {
            assert(front[i] == rows[i]);
        }
    }
}

/// The slot of a new returned checkout splits the table: no row before it
/// began later, every row from it on did.
pub proof fn lemma_returned_slot(rows: Seq<ReturnedRecord>, at: i64)
    requires
        returned_in_order(rows),
    ensures
        0 <= returned_slot(rows, at) <= rows.len(),
        forall|i: int| 0 <= i < returned_slot(rows, at) ==> rows[i].checked_out_at <= at,
        forall|i: int| returned_slot(rows, at) <= i < rows.len() ==> rows[i].checked_out_at > at,
    decreases rows.len(),
{
    if rows.len() > 0 && rows.last().checked_out_at > at {
        let front = rows.drop_last();
        assert(returned_in_order(front)) by {
            assert forall|i: int, j: int| 0 <= i < j < front.len() implies front[i].checked_out_at
                <= front[j].checked_out_at by {
                assert(front[i] == rows[i] && front[j] == rows[j]);
            }
        }
        lemma_returned_slot(front, at);
        assert forall|i: int|
            returned_slot(rows, at) <= i < rows.len() implies rows[i].checked_out_at > at by {
            if i < front.len() {
                assert(front[i] == rows[i]);
            }
        }
        assert forall|i: int| 0 <= i < returned_slot(rows, at) implies rows[i].checked_out_at
            <= at by {
            assert(front[i] == rows[i]);
        }
    }
}

/// What stands where after a row went into a table.
pub proof fn lemma_inserted<A>(rows: Seq<A>, slot: int, row: A)
    requires
        0 <= slot <= rows.len(),
    ensures
        rows.insert(slot, row).len() == rows.len() + 1,
        forall|k: int|
            0 <= k <= rows.len() ==> #[trigger] rows.insert(slot, row)[k] == (if k < slot {
                rows[k]
            } else if k == slot {
                row
            } else {
                rows[k - 1]
            }),
{
}

/// What stands where after a row left a table.
pub proof fn lemma_removed<A>(rows: Seq<A>, slot: int)
    requires
        0 <= slot < rows.len(),
    ensures
        rows.remove(slot).len() == rows.len() - 1,
        forall|k: int|
            0 <= k < rows.len() - 1 ==> #[trigger] rows.remove(slot)[k] == (if k < slot {
                rows[k]
            } else {
                rows[k + 1]
            }),
{
}

impl Ledger {
    /// In a well-formed ledger a row of the active checkouts is the only one
    /// of its book and the only one with its identifier.
    pub proof fn lemma_loan_at(self, i: int)
        requires
            self.wf(),
            0 <= i < self.checkouts.len(),
        ensures
            self.is_lent(self.checkouts[i].book_id),
            self.loan_index(self.checkouts[i].book_id) == i,
            self.loan_of(self.checkouts[i].book_id) == Some(self.checkouts[i]),
            self.has_checkout(self.checkouts[i].checkout_id),
            self.checkout_index(self.checkouts[i].checkout_id) == i,
            self.has_book(self.checkouts[i].book_id),
    {
        let book_id = self.checkouts[i].book_id;
        let checkout_id = self.checkouts[i].checkout_id;
        let by_book = self.loan_index(book_id);
        let by_id = self.checkout_index(checkout_id);
        assert(by_book == i) by {
            if by_book < i {
                assert(self.checkouts[by_book].book_id != self.checkouts[i].book_id);
            } else if i < by_book {
                assert(self.checkouts[i].book_id != self.checkouts[by_book].book_id);
            }
        }
        assert(by_id == i) by {
            if by_id < i {
                assert(self.checkouts[by_id].checkout_id != self.checkouts[i].checkout_id);
            } else if i < by_id {
                assert(self.checkouts[i].checkout_id != self.checkouts[by_id].checkout_id);
            }
        }
    }

    /// A row that the table admits leaves the ledger well-formed, becomes
    /// the loan of its book, and leaves every other book as it stood.
    pub proof fn lemma_with_checkout(self, record: CheckoutRecord)
        requires
            self.wf(),
            self.admits(record),
        ensures
            self.with_checkout(record).wf(),
            self.with_checkout(record).loan_of(record.book_id) == Some(record),
            self.with_checkout(record).has_checkout(record.checkout_id),
            self.with_checkout(record).checkouts.len() == self.checkouts.len() + 1,
            forall|other: BookId|
                other != record.book_id ==> #[trigger] self.with_checkout(record).loan_of(other)
                    == self.loan_of(other),
    {
        let slot = active_slot(self.checkouts, record.checked_out_at);
        let after = self.with_checkout(record);
        lemma_active_slot(self.checkouts, record.checked_out_at);
        lemma_inserted(self.checkouts, slot, record);
        assert(after.checkouts[slot] == record);
        assert(after.wf());
        after.lemma_loan_at(slot);
        assert forall|other: BookId| other != record.book_id implies #[trigger] after.loan_of(
            other,
        ) == self.loan_of(other) by {
            if self.is_lent(other) {
                let i = self.loan_index(other);
                let k = if i < slot {
                    i
                } else {
                    i + 1
                };
                assert(after.checkouts[k] == self.checkouts[i]);
                after.lemma_loan_at(k);
            } else if after.is_lent(other) {
                let k = after.loan_index(other);
                let i = if k < slot {
                    k
                } else {
                    k - 1
                };
                assert(self.checkouts[i] == after.checkouts[k]);
            }
        }
    }

    /// Taking an active checkout out leaves the ledger well-formed, its
    /// book free, and every other book as it stood.
    pub proof fn lemma_without_checkout(self, checkout_id: CheckoutId)
        requires
            self.wf(),
            self.has_checkout(checkout_id),
        ensures
            self.without_checkout(checkout_id).wf(),
            !self.without_checkout(checkout_id).has_checkout(checkout_id),
            !self.without_checkout(checkout_id).is_lent(
                self.checkouts[self.checkout_index(checkout_id)].book_id,
            ),
            self.without_checkout(checkout_id).checkouts.len() == self.checkouts.len() - 1,
            forall|other: BookId|
                other != self.checkouts[self.checkout_index(checkout_id)].book_id
                    ==> #[trigger] self.without_checkout(checkout_id).loan_of(other)
                    == self.loan_of(other),
    {
        let slot = self.checkout_index(checkout_id);
        let gone = self.checkouts[slot];
        let after = self.without_checkout(checkout_id);
        lemma_removed(self.checkouts, slot);
        assert(after.wf());
        assert(!after.has_checkout(checkout_id)) by {
            if after.has_checkout(checkout_id) {
                let k = after.checkout_index(checkout_id);
                let i = if k < slot {
                    k
                } else {
                    k + 1
                };
                assert(self.checkouts[i] == after.checkouts[k]);
                self.lemma_loan_at(i);
            }
        }
        assert(!after.is_lent(gone.book_id)) by {
            if after.is_lent(gone.book_id) {
                let k = after.loan_index(gone.book_id);
                let i = if k < slot {
                    k
                } else {
                    k + 1
                };
                assert(self.checkouts[i] == after.checkouts[k]);
                self.lemma_loan_at(i);
                self.lemma_loan_at(slot);
            }
        }
        assert forall|other: BookId| other != gone.book_id implies #[trigger] after.loan_of(other)
            == self.loan_of(other) by {
            if self.is_lent(other) {
                let i = self.loan_index(other);
                let k = if i < slot {
                    i
                } else {
                    i - 1
                };
                assert(after.checkouts[k] == self.checkouts[i]);
                after.lemma_loan_at(k);
            } else if after.is_lent(other) {
                let k = after.loan_index(other);
                let i = if k < slot {
                    k
                } else {
                    k + 1
                };
                assert(self.checkouts[i] == after.checkouts[k]);
            }
        }
    }

    /// A returned checkout of a registered book leaves the ledger
    /// well-formed and the active checkouts as they stood.
    pub proof fn lemma_with_returned(self, record: ReturnedRecord)
        requires
            self.wf(),
            self.has_book(record.book_id),
        ensures
            self.with_returned(record).wf(),
            self.with_returned(record).checkouts == self.checkouts,
            self.with_returned(record).returned.len() == self.returned.len() + 1,
    {
        let slot = returned_slot(self.returned, record.checked_out_at);
        lemma_returned_slot(self.returned, record.checked_out_at);
        lemma_inserted(self.returned, slot, record);
    }
}

/// Where at most one row passes, the filter holds that row or nothing.
pub proof fn lemma_filter_at_most_one<A>(rows: Seq<A>, pred: spec_fn(A) -> bool)
    requires
        forall|i: int, j: int| 0 <= i < j < rows.len() ==> !(pred(rows[i]) && pred(rows[j])),
    ensures
        rows.filter(pred).len() <= 1,
        rows.filter(pred).len() == 1 <==> exists|i: int| 0 <= i < rows.len() && pred(rows[i]),
        forall|i: int| 0 <= i < rows.len() && pred(rows[i]) ==> rows.filter(pred)[0] == rows[i],
    decreases rows.len(),
{
    reveal(Seq::filter);
    if rows.len() > 0 {
        let front = rows.drop_last();
        let last = rows.len() - 1;
        assert forall|i: int, j: int| 0 <= i < j < front.len() implies !(pred(front[i]) && pred(
            front[j],
        )) by {
            assert(front[i] == rows[i] && front[j] == rows[j]);
        }
        lemma_filter_at_most_one(front, pred);
        if pred(rows[last]) {
            assert forall|i: int| 0 <= i < front.len() implies !pred(front[i]) by {
                assert(front[i] == rows[i]);
                assert(!(pred(rows[i]) && pred(rows[last])));
            }
            assert(rows.filter(pred).len() == 1);
            assert forall|i: int| 0 <= i < rows.len() && pred(rows[i]) implies rows.filter(
                pred,
            )[0] == rows[i] by {
                if i < last {
                    assert(front[i] == rows[i]);
                }
            }
        } else {
            if exists|i: int| 0 <= i < rows.len() && pred(rows[i]) {
                let i = choose|i: int| 0 <= i < rows.len() && pred(rows[i]);
                assert(front[i] == rows[i]);
            }
            if exists|i: int| 0 <= i < front.len() && pred(front[i]) {
                let i = choose|i: int| 0 <= i < front.len() && pred(front[i]);
                assert(front[i] == rows[i]);
            }
            assert forall|i: int| 0 <= i < rows.len() && pred(rows[i]) implies rows.filter(
                pred,
            )[0] == rows[i] by {
                assert(front[i] == rows[i]);
            }
        }
    }
}

/// A filter keeps the order of the rows by any key, keeps only rows that
/// pass, and keeps only rows of the table.
pub proof fn lemma_filter_keeps_order<A>(
    rows: Seq<A>,
    pred: spec_fn(A) -> bool,
    key: spec_fn(A) -> int,
)
    requires
        forall|i: int, j: int| 0 <= i < j < rows.len() ==> key(rows[i]) <= key(rows[j]),
    ensures
        forall|i: int, j: int|
            0 <= i < j < rows.filter(pred).len() ==> key(rows.filter(pred)[i]) <= key(
                rows.filter(pred)[j],
            ),
        forall|k: int| 0 <= k < rows.filter(pred).len() ==> pred(#[trigger] rows.filter(pred)[k]),
        forall|k: int|
            0 <= k < rows.filter(pred).len() ==> rows.contains(#[trigger] rows.filter(pred)[k]),
    decreases rows.len(),
{
    reveal(Seq::filter);
    if rows.len() > 0 {
        let front = rows.drop_last();
        let last = rows.last();
        assert forall|i: int, j: int| 0 <= i < j < front.len() implies key(front[i]) <= key(
            front[j],
        ) by {
            assert(front[i] == rows[i] && front[j] == rows[j]);
        }
        lemma_filter_keeps_order(front, pred, key);
        let kept = front.filter(pred);
        assert forall|k: int| 0 <= k < kept.len() implies rows.contains(#[trigger] kept[k]) && key(
            kept[k],
        ) <= key(last) by {
            assert(front.contains(kept[k]));
            let i = choose|i: int| 0 <= i < front.len() && front[i] == kept[k];
            assert(rows[i] == kept[k]);
        }
        if pred(last) {
            assert(rows[rows.len() - 1] == last);
            assert forall|k: int| 0 <= k < rows.filter(pred).len() implies rows.contains(
                #[trigger] rows.filter(pred)[k],
            ) by {
                if k < kept.len() {
                    assert(rows.filter(pred)[k] == kept[k]);
                }
            }
            assert forall|i: int, j: int| 0 <= i < j < rows.filter(pred).len() implies key(
                rows.filter(pred)[i],
            ) <= key(rows.filter(pred)[j]) by {
                assert(rows.filter(pred)[i] == kept[i]);
                if j < kept.len() {
                    assert(rows.filter(pred)[j] == kept[j]);
                }
            }
        }
    }
}

/// The key by which the active checkouts are ordered.
pub open spec fn active_key() -> spec_fn(CheckoutRecord) -> int {
    |row: CheckoutRecord| row.checked_out_at as int
}

/// The key by which the returned checkouts are ordered.
pub open spec fn returned_key() -> spec_fn(ReturnedRecord) -> int {
    |row: ReturnedRecord| row.checked_out_at as int
}

impl Ledger {
    /// A well-formed ledger has one active checkout of a book that is out on
    /// loan, and none of any other book.
    pub proof fn lemma_active_count(self, book_id: BookId)
        requires
            self.wf(),
        ensures
            self.active_count(book_id) == (if self.is_lent(book_id) {
                1nat
            } else {
                0nat
            }),
            self.is_lent(book_id) ==> self.checkouts.filter(of_book(book_id))[0]
                == self.loan_of(book_id)->0,
    {
        lemma_filter_at_most_one(self.checkouts, of_book(book_id));
        if self.is_lent(book_id) {
            self.lemma_loan_at(self.loan_index(book_id));
        }
    }

    /// What a user holds stands in the order in which the loans began, and
    /// is held by that user.
    pub proof fn lemma_unreturned_by_user(self, user_id: UserId)
        requires
            self.wf(),
        ensures
            shown_in_order(self.unreturned_by_user(user_id)),
            forall|k: int|
                0 <= k < self.unreturned_by_user(user_id).len() ==> (
                #[trigger] self.unreturned_by_user(user_id)[k]).checked_out_by == user_id,
            forall|k: int|
                0 <= k < self.unreturned_by_user(user_id).len() ==> (
                #[trigger] self.unreturned_by_user(user_id)[k]).returned_at is None,
    {
        lemma_filter_keeps_order(self.checkouts, held_by(user_id), active_key());
        let kept = self.checkouts.filter(held_by(user_id));
        assert forall|i: int, j: int|
            0 <= i < j < self.unreturned_by_user(user_id).len() implies self.unreturned_by_user(
            user_id,
        )[i].checked_out_at <= self.unreturned_by_user(user_id)[j].checked_out_at by {
            assert(active_key()(kept[i]) <= active_key()(kept[j]));
        }
        assert forall|k: int| 0 <= k < self.unreturned_by_user(user_id).len() implies (
        #[trigger] self.unreturned_by_user(user_id)[k]).checked_out_by == user_id by {
            assert(held_by(user_id)(kept[k]));
        }
    }

    /// Everything on loan stands in the order in which the loans began.
    pub proof fn lemma_unreturned_all(self)
        requires
            self.wf(),
        ensures
            shown_in_order(self.unreturned_all()),
            self.unreturned_all().len() == self.checkouts.len(),
            forall|k: int|
                0 <= k < self.unreturned_all().len() ==> (#[trigger] self.unreturned_all()[k]).returned_at is None,
    {
    }

    /// The history of a book is complete and in order: the loan in progress,
    /// if there is one, is the first entry and the only one without a time of
    /// return; behind it stand the book's ended loans, all of them, in the
    /// order in which they began.
    pub proof fn lemma_history(self, book_id: BookId)
        requires
            self.wf(),
        ensures
            self.active_count(book_id) <= 1,
            self.history_of(book_id).len() == self.active_count(book_id) + self.returned_count(
                book_id,
            ),
            forall|k: int|
                0 <= k < self.history_of(book_id).len() ==> (#[trigger] self.history_of(
                    book_id,
                )[k]).book_id == book_id,
            forall|k: int|
                0 <= k < self.history_of(book_id).len() ==> ((#[trigger] self.history_of(
                    book_id,
                )[k]).returned_at is None <==> k < self.active_count(book_id)),
            forall|i: int, j: int|
                self.active_count(book_id) <= i < j < self.history_of(book_id).len()
                    ==> self.history_of(book_id)[i].checked_out_at <= self.history_of(
                    book_id,
                )[j].checked_out_at,
    {
        self.lemma_active_count(book_id);
        lemma_filter_keeps_order(self.returned, returned_of_book(book_id), returned_key());
        let kept = self.returned.filter(returned_of_book(book_id));
        let ended = self.returned_by_book(book_id);
        let history = self.history_of(book_id);
        let active = self.active_count(book_id) as int;
        assert(ended.len() == kept.len());
        if self.is_lent(book_id) {
            self.lemma_loan_at(self.loan_index(book_id));
        }
        assert forall|k: int| 0 <= k < history.len() implies (#[trigger] history[k]).book_id
            == book_id && (history[k].returned_at is None <==> k < active) by {
            if k >= active {
                assert(history[k] == ended[k - active]);
                assert(returned_of_book(book_id)(kept[k - active]));
            }
        }
        assert forall|i: int, j: int| active <= i < j < history.len() implies history[i].checked_out_at
            <= history[j].checked_out_at by {
            assert(history[i] == ended[i - active]);
            assert(history[j] == ended[j - active]);
            assert(returned_key()(kept[i - active]) <= returned_key()(kept[j - active]));
        }
    }

    /// A write transaction leaves a well-formed ledger well-formed, and a
    /// failed one leaves it as it was.
    pub proof fn lemma_apply(self, command: Command)
        requires
            self.wf(),
        ensures
            self.apply(command).0.wf(),
            self.apply(command).1 is Err ==> self.apply(command).0 == self,
            self.apply(command).0.books == self.books,
    {
        match command {
            Command::Create { event, checkout_id } => {
                if self.apply(command).1 is Ok {
                    self.lemma_with_checkout(Command::new_record(event, checkout_id));
                }
            },
            Command::Return { event } => {
                if self.apply(command).1 is Ok {
                    let loan = self.loan_of(event.book_id)->0;
                    self.lemma_loan_at(self.loan_index(event.book_id));
                    let ended = self.with_returned(loan.closed_at(event.returned_at));
                    self.lemma_with_returned(loan.closed_at(event.returned_at));
                    assert(ended.has_checkout(event.checkout_id));
                    ended.lemma_without_checkout(event.checkout_id);
                }
            },
        }
    }

    /// The ledger after a run of write transactions, one after the other.
    pub open spec fn apply_all(self, commands: Seq<Command>) -> Ledger
        decreases commands.len(),
    {
        if commands.len() == 0 {
            self
        } else {
            self.apply_all(commands.drop_last()).apply(commands.last()).0
        }
    }
}

} // verus!
