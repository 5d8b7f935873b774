//! An in-memory store with the tables of the lending ledger.
//!
//! [`Database`] keeps the registered books, the active checkouts and the
//! returned checkouts. It carries out the requests of a transaction one by
//! one, as [`StoreState::respond`] says, and answers the read queries from
//! what is committed. One transaction can be open at a time: its writes go
//! to a working copy of the two checkout tables, which `Commit` puts in
//! place and `Rollback` throws away.

use crate::id::{BookId, CheckoutId, UserId};
use crate::ledger::{
    active_slot, held_by, returned_of_book, returned_slot, Ledger, StoreState, Workspace,
    BOOK_ON_LOAN, DUPLICATE_CHECKOUT, NO_TRANSACTION, TRANSACTION_OPEN, UNKNOWN_BOOK,
};
use crate::model::{
    Book, BookInfo, CheckoutRecord, CheckoutRow, CheckoutStateRow, CheckoutView,
    ReturnedCheckoutRow, ReturnedRecord,
};
use crate::protocol::{StoreRequest, StoreResponse};
use vstd::prelude::*;

verus! {

/// No two books share an identifier.
pub open spec fn distinct_books(books: Seq<Book>) -> bool {
    forall|i: int, j: int| 0 <= i < j < books.len() ==> books[i].book_id != books[j].book_id
}

/// Whether a book in the table has this identifier.
pub open spec fn is_registered(books: Seq<Book>, book_id: BookId) -> bool {
    exists|i: int| 0 <= i < books.len() && books[i].book_id == book_id
}

/// The table of books as a map from each book's identifier to what is
/// registered of it.
pub open spec fn registered(books: Seq<Book>) -> Map<BookId, BookInfo> {
    Map::new(
        |book_id: BookId| is_registered(books, book_id),
        |book_id: BookId|
            books[choose|i: int| 0 <= i < books.len() && books[i].book_id == book_id].info(),
    )
}

/// The joined rows as callers see them.
pub open spec fn active_rows_shown(rows: Seq<CheckoutRow>) -> Seq<CheckoutView> {
    rows.map_values(|row: CheckoutRow| row.record().shown_with(row.info()))
}

/// The joined rows as callers see them.
pub open spec fn returned_rows_shown(rows: Seq<ReturnedCheckoutRow>) -> Seq<CheckoutView> {
    rows.map_values(|row: ReturnedCheckoutRow| row.record().shown_with(row.info()))
}

/// A book of the table is registered under its identifier, with its own
/// title, author and ISBN.
pub proof fn lemma_registered_at(books: Seq<Book>, i: int)
    requires
        distinct_books(books),
        0 <= i < books.len(),
    ensures
        registered(books).contains_key(books[i].book_id),
        registered(books)[books[i].book_id] == books[i].info(),
{
    let book_id = books[i].book_id;
    let found = choose|k: int| 0 <= k < books.len() && books[k].book_id == book_id;
    assert(found == i) by {
        if found < i {
            assert(books[found].book_id != books[i].book_id);
        } else if i < found {
            assert(books[i].book_id != books[found].book_id);
        }
    }
}

/// A new book at the end of the table is one more entry of the map.
pub proof fn lemma_registered_push(books: Seq<Book>, book: Book)
    requires
        distinct_books(books),
        !is_registered(books, book.book_id),
    ensures
        distinct_books(books.push(book)),
        registered(books.push(book)) == registered(books).insert(book.book_id, book.info()),
{
    let more = books.push(book);
    assert(distinct_books(more));
    assert forall|book_id: BookId| #[trigger]
        registered(more).contains_key(book_id) == registered(books).insert(
            book.book_id,
            book.info(),
        ).contains_key(book_id) by {
        if is_registered(books, book_id) {
            let k = choose|k: int| 0 <= k < books.len() && books[k].book_id == book_id;
            assert(more[k].book_id == book_id);
        } else if is_registered(more, book_id) {
            let k = choose|k: int| 0 <= k < more.len() && more[k].book_id == book_id;
            if k < books.len() {
                assert(books[k].book_id == book_id);
            }
        } else if book_id == book.book_id {
            assert(more[books.len() as int].book_id == book_id);
        }
    }
    assert forall|book_id: BookId| #[trigger] registered(more).contains_key(book_id) implies registered(
        more,
    )[book_id] == registered(books).insert(book.book_id, book.info())[book_id] by {
        let k = choose|k: int| 0 <= k < more.len() && more[k].book_id == book_id;
        lemma_registered_at(more, k);
        if k < books.len() {
            assert(more[k] == books[k]);
            lemma_registered_at(books, k);
        }
    }
    assert(registered(more) =~= registered(books).insert(book.book_id, book.info()));
}

/// The rows of a table up to and with row `i`, filtered, are the rows
/// before it, filtered, and row `i` if it passes.
pub proof fn lemma_filter_next<A>(rows: Seq<A>, i: int, pred: spec_fn(A) -> bool)
    requires
        0 <= i < rows.len(),
    ensures
        rows.take(i + 1).filter(pred) == if pred(rows[i]) {
            rows.take(i).filter(pred).push(rows[i])
        } else {
            rows.take(i).filter(pred)
        },
{
    reveal(Seq::filter);
    assert(rows.take(i + 1).drop_last() =~= rows.take(i));
}

/// The working copy of an open transaction.
struct OpenTransaction {
    checkouts: Vec<CheckoutRecord>,
    returned: Vec<ReturnedRecord>,
    serializable: bool,
}

impl OpenTransaction {
    /// Raises the transaction to serializable isolation, under which its
    /// reads and writes see one snapshot. The tables stay as they are.
    fn set_transaction_serializable(&mut self)
        ensures
            final(self).serializable,
            final(self).checkouts == old(self).checkouts,
            final(self).returned == old(self).returned,
    {
        self.serializable = true;
    }
}

/// The in-memory store.
pub struct Database {
    books: Vec<Book>,
    checkouts: Vec<CheckoutRecord>,
    returned: Vec<ReturnedRecord>,
    open: Option<OpenTransaction>,
}

impl View for Database {
    type V = StoreState;

    closed spec fn view(&self) -> StoreState {
        StoreState {
            committed: Ledger {
                books: registered(self.books@),
                checkouts: self.checkouts@,
                returned: self.returned@,
            },
            open: match self.open {
                Some(transaction) => Some(
                    Workspace {
                        ledger: Ledger {
                            books: registered(self.books@),
                            checkouts: transaction.checkouts@,
                            returned: transaction.returned@,
                        },
                        serializable: transaction.serializable,
                    },
                ),
                None => None,
            },
        }
    }
}

/// Where the first active checkout of the book stands, if there is one.
fn find_loan(table: &Vec<CheckoutRecord>, book_id: BookId) -> (found: Option<usize>)
    ensures
        match found {
            Some(i) => i < table.len() && table[i as int].book_id == book_id,
            None => forall|k: int| 0 <= k < table.len() ==> table[k].book_id != book_id,
        },
{
    let mut i: usize = 0;
    while i < table.len()
        invariant
            i <= table.len(),
            forall|k: int| 0 <= k < i ==> table[k].book_id != book_id,
        decreases table.len() - i,
    {
        if table[i].book_id == book_id {
            return Some(i);
        }
        i += 1;
    }
    None
}

/// Where the first active checkout with the identifier stands, if there is
/// one.
fn find_checkout(table: &Vec<CheckoutRecord>, checkout_id: CheckoutId) -> (found: Option<usize>)
    ensures
        match found {
            Some(i) => i < table.len() && table[i as int].checkout_id == checkout_id,
            None => forall|k: int| 0 <= k < table.len() ==> table[k].checkout_id != checkout_id,
        },
{
    let mut i: usize = 0;
    while i < table.len()
        invariant
            i <= table.len(),
            forall|k: int| 0 <= k < i ==> table[k].checkout_id != checkout_id,
        decreases table.len() - i,
    {
        if table[i].checkout_id == checkout_id {
            return Some(i);
        }
        i += 1;
    }
    None
}

/// Where a loan that began at `at` goes among the active checkouts.
fn slot_in_active(table: &Vec<CheckoutRecord>, at: i64) -> (slot: usize)
    ensures
        slot == active_slot(table@, at),
        slot <= table.len(),
{
    let mut slot: usize = table.len();
    assert(table@.take(slot as int) =~= table@);
    while slot > 0 && table[slot - 1].checked_out_at > at
        invariant
            slot <= table.len(),
            active_slot(table@, at) == active_slot(table@.take(slot as int), at),
        decreases slot,
    {
        assert(table@.take(slot as int).drop_last() =~= table@.take(slot - 1));
        slot -= 1;
    }
    slot
}

/// Where a loan that began at `at` goes among the returned checkouts.
fn slot_in_returned(table: &Vec<ReturnedRecord>, at: i64) -> (slot: usize)
    ensures
        slot == returned_slot(table@, at),
        slot <= table.len(),
{
    let mut slot: usize = table.len();
    assert(table@.take(slot as int) =~= table@);
    while slot > 0 && table[slot - 1].checked_out_at > at
        invariant
            slot <= table.len(),
            returned_slot(table@, at) == returned_slot(table@.take(slot as int), at),
        decreases slot,
    {
        assert(table@.take(slot as int).drop_last() =~= table@.take(slot - 1));
        slot -= 1;
    }
    slot
}

/// A copy of the table of active checkouts.
fn copy_active(table: &Vec<CheckoutRecord>) -> (copy: Vec<CheckoutRecord>)
    ensures
        copy@ == table@,
{
    let mut copy: Vec<CheckoutRecord> = Vec::new();
    let mut i: usize = 0;
    while i < table.len()
        invariant
            i <= table.len(),
            copy@ == table@.take(i as int),
        decreases table.len() - i,
    {
        copy.push(table[i]);
        assert(table@.take(i + 1) =~= table@.take(i as int).push(table@[i as int]));
        i += 1;
    }
    assert(table@.take(table.len() as int) =~= table@);
    copy
}

/// A copy of the table of returned checkouts.
fn copy_returned(table: &Vec<ReturnedRecord>) -> (copy: Vec<ReturnedRecord>)
    ensures
        copy@ == table@,
{
    let mut copy: Vec<ReturnedRecord> = Vec::new();
    let mut i: usize = 0;
    while i < table.len()
        invariant
            i <= table.len(),
            copy@ == table@.take(i as int),
        decreases table.len() - i,
    {
        copy.push(table[i]);
        assert(table@.take(i + 1) =~= table@.take(i as int).push(table@[i as int]));
        i += 1;
    }
    assert(table@.take(table.len() as int) =~= table@);
    copy
}

/// The table rows behind joined rows.
pub open spec fn active_records(rows: Seq<CheckoutRow>) -> Seq<CheckoutRecord> {
    rows.map_values(|row: CheckoutRow| row.record())
}

/// The table rows behind joined rows.
pub open spec fn returned_records(rows: Seq<ReturnedCheckoutRow>) -> Seq<ReturnedRecord> {
    rows.map_values(|row: ReturnedCheckoutRow| row.record())
}

impl Database {
    /// No two books of the table share an identifier.
    pub closed spec fn books_distinct(&self) -> bool {
        distinct_books(self.books@)
    }

    /// The store's tables are well-formed.
    pub open spec fn wf(&self) -> bool {
        self.books_distinct() && self@.wf()
    }

    /// A store without books and without loans, at rest.
    pub fn new() -> (database: Database)
        ensures
            database.wf(),
            database@ == StoreState::idle(Ledger::empty()),
    {
        let database = Database {
            books: Vec::new(),
            checkouts: Vec::new(),
            returned: Vec::new(),
            open: None,
        };
        assert(registered(database.books@) =~= Map::empty());
        database
    }

    /// Where the book stands in the table of books, if it is registered.
    fn find_book(&self, book_id: BookId) -> (found: Option<usize>)
        ensures
            match found {
                Some(i) => i < self.books.len() && self.books[i as int].book_id == book_id,
                None => !is_registered(self.books@, book_id),
            },
    {
        let mut i: usize = 0;
        while i < self.books.len()
            invariant
                i <= self.books.len(),
                forall|k: int| 0 <= k < i ==> self.books[k].book_id != book_id,
            decreases self.books.len() - i,
        {
            if self.books[i].book_id == book_id {
                return Some(i);
            }
            i += 1;
        }
        None
    }

    /// Where a registered book stands in the table of books.
    fn index_of_book(&self, book_id: BookId) -> (i: usize)
        requires
            is_registered(self.books@, book_id),
        ensures
            i < self.books.len(),
            self.books[i as int].book_id == book_id,
    {
        let ghost at = choose|k: int| 0 <= k < self.books.len() && self.books[k].book_id == book_id;
        let mut i: usize = 0;
        while self.books[i].book_id != book_id
            invariant
                i <= at < self.books.len(),
                self.books[at].book_id == book_id,
            decreases self.books.len() - i,
        {
            i += 1;
        }
        i
    }

    /// Registers a book. Answers whether it did: a book whose identifier is
    /// registered already is turned away, and nothing changes.
    pub fn insert_book(&mut self, book: Book) -> (inserted: bool)
        requires
            old(self).wf(),
        ensures
            final(self).wf(),
            inserted == !old(self)@.committed.has_book(book.book_id),
            inserted ==> final(self)@ == old(self)@.with_book(book.book_id, book.info()),
            !inserted ==> final(self)@ == old(self)@,
    {
        match self.find_book(book.book_id) {
            Some(_) => false,
            None => {
                proof {
                    lemma_registered_push(self.books@, book);
                }
                self.books.push(book);
                true
            },
        }
    }

    /// Whether the book is registered.
    pub fn has_book(&self, book_id: BookId) -> (registered: bool)
        ensures
            registered == self@.committed.has_book(book_id),
    {
        self.find_book(book_id).is_some()
    }

    /// Whether a transaction is open.
    pub fn in_transaction(&self) -> (open: bool)
        ensures
            open == self@.open is Some,
    {
        self.open.is_some()
    }

    /// Carries one request of a transaction out, and answers it.
    pub fn execute(&mut self, request: StoreRequest) -> (response: StoreResponse)
        requires
            old(self).wf(),
        ensures
            final(self).wf(),
            (final(self)@, response@) == old(self)@.respond(request),
    {
        let ghost before = self@;
        match self.open.take() {
            None => match request {
                StoreRequest::Begin => {
                    let transaction = OpenTransaction {
                        checkouts: copy_active(&self.checkouts),
                        returned: copy_returned(&self.returned),
                        serializable: false,
                    };
                    self.open = Some(transaction);
                    StoreResponse::Done
                },
                StoreRequest::Rollback => StoreResponse::Done,
                _ => StoreResponse::Failed(NO_TRANSACTION.to_owned()),
            },
            Some(mut transaction) => {
                let ghost working = before.open->0.ledger;
                match request {
                    StoreRequest::Begin => {
                        self.open = Some(transaction);
                        StoreResponse::Failed(TRANSACTION_OPEN.to_owned())
                    },
                    StoreRequest::SetSerializable => {
                        transaction.set_transaction_serializable();
                        self.open = Some(transaction);
                        StoreResponse::Done
                    },
                    StoreRequest::ReadCheckoutState { book_id, with_holder } => {
                        let state = match self.find_book(book_id) {
                            None => None,
                            Some(_) => match find_loan(&transaction.checkouts, book_id) {
                                None => Some(
                                    CheckoutStateRow { book_id, checkout_id: None, user_id: None },
                                ),
                                Some(i) => {
                                    proof {
                                        working.lemma_loan_at(i as int);
                                    }
                                    let loan = transaction.checkouts[i];
                                    Some(
                                        CheckoutStateRow {
                                            book_id,
                                            checkout_id: Some(loan.checkout_id),
                                            user_id: if with_holder {
                                                Some(loan.user_id)
                                            } else {
                                                None
                                            },
                                        },
                                    )
                                },
                            },
                        };
                        self.open = Some(transaction);
                        StoreResponse::CheckoutState(state)
                    },
                    StoreRequest::InsertCheckout { record } => {
                        if find_checkout(&transaction.checkouts, record.checkout_id).is_some() {
                            self.open = Some(transaction);
                            StoreResponse::Failed(DUPLICATE_CHECKOUT.to_owned())
                        } else if find_loan(&transaction.checkouts, record.book_id).is_some() {
                            self.open = Some(transaction);
                            StoreResponse::Failed(BOOK_ON_LOAN.to_owned())
                        } else if self.find_book(record.book_id).is_none() {
                            self.open = Some(transaction);
                            StoreResponse::Failed(UNKNOWN_BOOK.to_owned())
                        } else {
                            let slot = slot_in_active(&transaction.checkouts, record.checked_out_at);
                            proof {
                                working.lemma_with_checkout(record);
                            }
                            transaction.checkouts.insert(slot, record);
                            self.open = Some(transaction);
                            StoreResponse::RowsAffected(1)
                        }
                    },
                    StoreRequest::InsertReturned { checkout_id, returned_at } => {
                        match find_checkout(&transaction.checkouts, checkout_id) {
                            None => {
                                self.open = Some(transaction);
                                StoreResponse::RowsAffected(0)
                            },
                            Some(i) => {
                                let loan = transaction.checkouts[i];
                                let record = ReturnedRecord {
                                    checkout_id: loan.checkout_id,
                                    book_id: loan.book_id,
                                    user_id: loan.user_id,
                                    checked_out_at: loan.checked_out_at,
                                    returned_at,
                                };
                                let slot = slot_in_returned(
                                    &transaction.returned,
                                    record.checked_out_at,
                                );
                                proof {
                                    working.lemma_loan_at(i as int);
                                    working.lemma_with_returned(record);
                                }
                                transaction.returned.insert(slot, record);
                                self.open = Some(transaction);
                                StoreResponse::RowsAffected(1)
                            },
                        }
                    },
                    StoreRequest::DeleteCheckout { checkout_id } => {
                        match find_checkout(&transaction.checkouts, checkout_id) {
                            None => {
                                self.open = Some(transaction);
                                StoreResponse::RowsAffected(0)
                            },
                            Some(i) => {
                                proof {
                                    working.lemma_loan_at(i as int);
                                    working.lemma_without_checkout(checkout_id);
                                }
                                transaction.checkouts.remove(i);
                                self.open = Some(transaction);
                                StoreResponse::RowsAffected(1)
                            },
                        }
                    },
                    StoreRequest::Commit => {
                        self.checkouts = transaction.checkouts;
                        self.returned = transaction.returned;
                        StoreResponse::Done
                    },
                    StoreRequest::Rollback => StoreResponse::Done,
                }
            },
        }
    }
}

impl Database {
    /// An active checkout joined with its book.
    fn join_active(&self, record: CheckoutRecord) -> (row: CheckoutRow)
        requires
            self.books_distinct(),
            is_registered(self.books@, record.book_id),
        ensures
            row.record() == record,
            row.info() == registered(self.books@)[record.book_id],
    {
        let i = self.index_of_book(record.book_id);
        proof {
            lemma_registered_at(self.books@, i as int);
        }
        let book = &self.books[i];
        CheckoutRow {
            checkout_id: record.checkout_id,
            book_id: record.book_id,
            user_id: record.user_id,
            checked_out_at: record.checked_out_at,
            title: book.title.clone(),
            author: book.author.clone(),
            isbn: book.isbn.clone(),
        }
    }

    /// A returned checkout joined with its book.
    fn join_returned(&self, record: ReturnedRecord) -> (row: ReturnedCheckoutRow)
        requires
            self.books_distinct(),
            is_registered(self.books@, record.book_id),
        ensures
            row.record() == record,
            row.info() == registered(self.books@)[record.book_id],
    {
        let i = self.index_of_book(record.book_id);
        proof {
            lemma_registered_at(self.books@, i as int);
        }
        let book = &self.books[i];
        ReturnedCheckoutRow {
            checkout_id: record.checkout_id,
            book_id: record.book_id,
            user_id: record.user_id,
            checked_out_at: record.checked_out_at,
            returned_at: record.returned_at,
            title: book.title.clone(),
            author: book.author.clone(),
            isbn: book.isbn.clone(),
        }
    }

    /// Every committed active checkout joined with its book, oldest first.
    pub fn select_unreturned_all(&self) -> (rows: Vec<CheckoutRow>)
        requires
            self.wf(),
        ensures
            active_records(rows@) == self@.committed.checkouts,
            active_rows_shown(rows@) == self@.committed.unreturned_all(),
    {
        let ghost ledger = self@.committed;
        let mut rows: Vec<CheckoutRow> = Vec::new();
        let mut i: usize = 0;
        while i < self.checkouts.len()
            invariant
                self.wf(),
                ledger == self@.committed,
                i <= self.checkouts.len(),
                rows.len() == i,
                forall|k: int|
                    0 <= k < i ==> (#[trigger] rows[k]).record() == ledger.checkouts[k]
                        && rows[k].info() == ledger.books[ledger.checkouts[k].book_id],
            decreases self.checkouts.len() - i,
        {
            let record = self.checkouts[i];
            assert(ledger.books.contains_key(ledger.checkouts[i as int].book_id));
            let row = self.join_active(record);
            rows.push(row);
            i += 1;
        }
        assert(active_records(rows@) =~= ledger.checkouts);
        assert(active_rows_shown(rows@) =~= ledger.unreturned_all());
        rows
    }

    /// The committed active checkouts that the user holds, each joined with
    /// its book, oldest first.
    pub fn select_unreturned_by_user(&self, user_id: UserId) -> (rows: Vec<CheckoutRow>)
        requires
            self.wf(),
        ensures
            active_records(rows@) == self@.committed.checkouts.filter(held_by(user_id)),
            active_rows_shown(rows@) == self@.committed.unreturned_by_user(user_id),
    {
        let ghost ledger = self@.committed;
        let mut rows: Vec<CheckoutRow> = Vec::new();
        let mut i: usize = 0;
        assert(ledger.checkouts.take(0).filter(held_by(user_id)) =~= Seq::empty()) by {
            reveal(Seq::filter);
        }
        assert(active_records(rows@) =~= Seq::empty());
        while i < self.checkouts.len()
            invariant
                self.wf(),
                ledger == self@.committed,
                i <= self.checkouts.len(),
                active_records(rows@) == ledger.checkouts.take(i as int).filter(held_by(user_id)),
                forall|k: int|
                    0 <= k < rows.len() ==> (#[trigger] rows[k]).info()
                        == ledger.books[rows[k].book_id],
            decreases self.checkouts.len() - i,
        {
            let record = self.checkouts[i];
            proof {
                lemma_filter_next(ledger.checkouts, i as int, held_by(user_id));
            }
            if record.user_id == user_id {
                assert(ledger.books.contains_key(ledger.checkouts[i as int].book_id));
                let row = self.join_active(record);
                assert(active_records(rows@.push(row)) =~= active_records(rows@).push(record));
                rows.push(row);
            }
            i += 1;
        }
        assert(ledger.checkouts.take(i as int) =~= ledger.checkouts);
        assert(active_rows_shown(rows@) =~= ledger.unreturned_by_user(user_id)) by {
            let kept = ledger.checkouts.filter(held_by(user_id));
            assert forall|k: int| 0 <= k < rows.len() implies #[trigger] active_rows_shown(
                rows@,
            )[k] == ledger.unreturned_by_user(user_id)[k] by {
                assert(active_records(rows@)[k] == kept[k]);
            }
        }
        rows
    }

    /// The committed active checkout of the book joined with the book, if
    /// the book is out on loan.
    pub fn select_unreturned_by_book(&self, book_id: BookId) -> (row: Option<CheckoutRow>)
        requires
            self.wf(),
        ensures
            match row {
                Some(row) => self@.committed.loan_of(book_id) == Some(row.record())
                    && self@.committed.unreturned_by_book(book_id) == Some(
                    row.record().shown_with(row.info()),
                ),
                None => self@.committed.loan_of(book_id) is None,
            },
    {
        match find_loan(&self.checkouts, book_id) {
            None => None,
            Some(i) => {
                proof {
                    self@.committed.lemma_loan_at(i as int);
                }
                Some(self.join_active(self.checkouts[i]))
            },
        }
    }

    /// The committed returned checkouts of the book, each joined with the
    /// book, oldest first.
    pub fn select_returned_by_book(&self, book_id: BookId) -> (rows: Vec<ReturnedCheckoutRow>)
        requires
            self.wf(),
        ensures
            returned_records(rows@) == self@.committed.returned.filter(returned_of_book(book_id)),
            returned_rows_shown(rows@) == self@.committed.returned_by_book(book_id),
    {
        let ghost ledger = self@.committed;
        let mut rows: Vec<ReturnedCheckoutRow> = Vec::new();
        let mut i: usize = 0;
        assert(ledger.returned.take(0).filter(returned_of_book(book_id)) =~= Seq::empty()) by {
            reveal(Seq::filter);
        }
        assert(returned_records(rows@) =~= Seq::empty());
        while i < self.returned.len()
            invariant
                self.wf(),
                ledger == self@.committed,
                i <= self.returned.len(),
                returned_records(rows@) == ledger.returned.take(i as int).filter(
                    returned_of_book(book_id),
                ),
                forall|k: int|
                    0 <= k < rows.len() ==> (#[trigger] rows[k]).info()
                        == ledger.books[rows[k].book_id],
            decreases self.returned.len() - i,
        {
            let record = self.returned[i];
            proof {
                lemma_filter_next(ledger.returned, i as int, returned_of_book(book_id));
            }
            if record.book_id == book_id {
                assert(ledger.books.contains_key(ledger.returned[i as int].book_id));
                let row = self.join_returned(record);
                assert(returned_records(rows@.push(row)) =~= returned_records(rows@).push(
                    record,
                ));
                rows.push(row);
            }
            i += 1;
        }
        assert(ledger.returned.take(i as int) =~= ledger.returned);
        assert(returned_rows_shown(rows@) =~= ledger.returned_by_book(book_id)) by {
            let kept = ledger.returned.filter(returned_of_book(book_id));
            assert forall|k: int| 0 <= k < rows.len() implies #[trigger] returned_rows_shown(
                rows@,
            )[k] == ledger.returned_by_book(book_id)[k] by {
                assert(returned_records(rows@)[k] == kept[k]);
            }
        }
        rows
    }
}

} // verus!
