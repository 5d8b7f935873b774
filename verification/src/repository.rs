//! The repository of checkouts: the five operations that the rest of an
//! application calls.
//!
//! [`CheckoutRepositoryImpl`] holds a [`Database`]. Its two writes run a
//! [`CheckoutTransaction`] against it, request by request; its reads query
//! what is committed. What each of them does is stated over the
//! [`Ledger`] behind the store.

use crate::command::{
    book_already_checked_out, book_not_found, outcome_view, CheckoutTransaction, Command,
    PhaseView, Progress, TransactionView,
};
use crate::database::{active_rows_shown, returned_rows_shown, Database};
use crate::error::{AppErrorView, AppResult};
use crate::id::{is_random_uuid, BookId, CheckoutId, UserId};
use crate::ledger::{shown_in_order, Ledger, StoreState};
use crate::model::{
    Book, Checkout, CheckoutRow, CheckoutView, CreateCheckout, ReturnedCheckoutRow,
    UpdateReturned,
};
use crate::protocol::StoreRequest;
use vstd::prelude::*;

verus! {

/// The checkouts as mathematics.
pub open spec fn checkouts_shown(checkouts: Seq<Checkout>) -> Seq<CheckoutView> {
    checkouts.map_values(|checkout: Checkout| checkout@)
}

/// Turns the rows of a query for active checkouts into checkouts, one for
/// one and in the same order.
pub fn checkouts_from_active(rows: Vec<CheckoutRow>) -> (checkouts: Vec<Checkout>)
    ensures
        checkouts_shown(checkouts@) == active_rows_shown(rows@),
{
    let ghost all = rows@;
    let mut checkouts: Vec<Checkout> = Vec::new();
    for row in it: rows
        invariant
            it.seq() == all,
            checkouts.len() == it.index(),
            forall|k: int|
                0 <= k < checkouts.len() ==> (#[trigger] checkouts[k])@ == all[k].record().shown_with(
                    all[k].info(),
                ),
    {
        checkouts.push(Checkout::from(row));
    }
    assert(checkouts_shown(checkouts@) =~= active_rows_shown(all));
    checkouts
}

/// Turns the rows of a query for returned checkouts into checkouts, one for
/// one and in the same order.
pub fn checkouts_from_returned(rows: Vec<ReturnedCheckoutRow>) -> (checkouts: Vec<Checkout>)
    ensures
        checkouts_shown(checkouts@) == returned_rows_shown(rows@),
{
    let ghost all = rows@;
    let mut checkouts: Vec<Checkout> = Vec::new();
    for row in it: rows
        invariant
            it.seq() == all,
            checkouts.len() == it.index(),
            forall|k: int|
                0 <= k < checkouts.len() ==> (#[trigger] checkouts[k])@ == all[k].record().shown_with(
                    all[k].info(),
                ),
    {
        checkouts.push(Checkout::from(row));
    }
    assert(checkouts_shown(checkouts@) =~= returned_rows_shown(all));
    checkouts
}

/// The history of a book as mathematics: the loan in progress, if there is
/// one, and behind it the ended loans in the order given.
pub open spec fn history_shown(active: Option<CheckoutView>, returned: Seq<CheckoutView>) -> Seq<
    CheckoutView,
> {
    match active {
        Some(active) => seq![active] + returned,
        None => returned,
    }
}

/// Puts the history of a book together: the loan in progress, if there is
/// one, goes in front of the ended loans, which keep their order.
pub fn assemble_history(active: Option<Checkout>, returned: Vec<Checkout>) -> (history: Vec<
    Checkout,
>)
    ensures
        checkouts_shown(history@) == history_shown(
            match active {
                Some(checkout) => Some(checkout@),
                None => None,
            },
            checkouts_shown(returned@),
        ),
        history@.len() == returned@.len() + (if active is Some {
            1nat
        } else {
            0nat
        }),
{
    let mut history = returned;
    if let Some(checkout) = active {
        history.insert(0, checkout);
        assert(checkouts_shown(history@) =~= seq![checkout@] + checkouts_shown(returned@));
    }
    history
}

/// Whether a transaction that runs against the store stands where it
/// should: `before` is the ledger on which it began, `request` the request
/// that the store gets next.
spec fn on_course(
    before: Ledger,
    transaction: TransactionView,
    request: StoreRequest,
    store: StoreState,
) -> bool {
    let command = transaction.command;
    let after = before.apply(command).0;
    let outcome = before.apply(command).1;
    match transaction.phase {
        PhaseView::Beginning => request == StoreRequest::Begin && store == StoreState::idle(
            before,
        ),
        PhaseView::Isolating => request == StoreRequest::SetSerializable && store
            == StoreState::within(before, before, false),
        PhaseView::Reading => request == command.read_request() && store == StoreState::within(
            before,
            before,
            true,
        ),
        PhaseView::Creating => {
            &&& command is Create
            &&& request == command.first_write()
            &&& store == StoreState::within(before, before, true)
            &&& before.has_book(command.book_id())
            &&& !before.is_lent(command.book_id())
        },
        PhaseView::Returning => {
            &&& command matches Command::Return { event }
            &&& request == command.first_write()
            &&& store == StoreState::within(before, before, true)
            &&& before.has_book(event.book_id)
            &&& before.matches_loan(event)
        },
        PhaseView::Deleting => {
            &&& command matches Command::Return { event }
            &&& request == StoreRequest::DeleteCheckout { checkout_id: event.checkout_id }
            &&& before.has_book(event.book_id)
            &&& before.matches_loan(event)
            &&& store == StoreState::within(
                before,
                before.with_returned(before.loan_of(event.book_id)->0.closed_at(event.returned_at)),
                true,
            )
        },
        PhaseView::Committing => {
            &&& request == StoreRequest::Commit
            &&& outcome is Ok
            &&& store == StoreState::within(before, after, true)
        },
        PhaseView::RollingBack(error) => {
            &&& request == StoreRequest::Rollback
            &&& outcome == Err::<(), AppErrorView>(error)
            &&& after == before
            &&& store.committed == before
        },
    }
}

/// The repository of checkouts over an in-memory store.
pub struct CheckoutRepositoryImpl {
    db: Database,
}

impl View for CheckoutRepositoryImpl {
    type V = Ledger;

    /// The committed ledger of the store.
    closed spec fn view(&self) -> Ledger {
        self.db@.committed
    }
}

impl CheckoutRepositoryImpl {
    /// The store is well-formed and at rest: between two operations no
    /// transaction is open.
    pub closed spec fn wf(&self) -> bool {
        self.db.wf() && self.db@.open is None
    }

    /// A well-formed repository holds a well-formed ledger.
    pub proof fn lemma_wf(&self)
        requires
            self.wf(),
        ensures
            self@.wf(),
    {
    }

    /// A repository over the store. A transaction that was left open in the
    /// store is given up.
    pub fn new(db: Database) -> (repository: CheckoutRepositoryImpl)
        requires
            db.wf(),
        ensures
            repository.wf(),
            repository@ == db@.committed,
    {
        let mut db = db;
        db.execute(StoreRequest::Rollback);
        CheckoutRepositoryImpl { db }
    }

    /// Runs a write transaction against the store, request by request, to
    /// its end.
    fn run(&mut self, command: Command) -> (outcome: AppResult<()>)
        requires
            old(self).wf(),
        ensures
            final(self).wf(),
            final(self)@ == old(self)@.apply(command).0,
            outcome_view(outcome) == old(self)@.apply(command).1,
    {
        let ghost before = self@;
        let mut transaction = CheckoutTransaction::start(command);
        let mut request = StoreRequest::Begin;
        loop
            invariant
                self.db.wf(),
                before.wf(),
                before == old(self)@,
                transaction@.command == command,
                on_course(before, transaction@, request, self.db@),
            decreases transaction@.steps_left(),
        {
            let response = self.db.execute(request);
            match transaction.advance(response) {
                Progress::Continue(next, next_request) => {
                    transaction = next;
                    request = next_request;
                },
                Progress::Finished(outcome) => {
                    return outcome;
                },
            }
        }
    }
}

impl CheckoutRepositoryImpl {
    /// Registers a book in the store. Answers whether it did: a book whose
    /// identifier is registered already is turned away.
    pub fn register_book(&mut self, book: Book) -> (registered: bool)
        requires
            old(self).wf(),
        ensures
            final(self).wf(),
            registered == !old(self)@.has_book(book.book_id),
            registered ==> final(self)@ == old(self)@.with_book(book.book_id, book.info()),
            !registered ==> final(self)@ == old(self)@,
    {
        self.db.insert_book(book)
    }

    /// Lends a book, under a fresh random identifier for the new checkout.
    ///
    /// Fails with `EntityNotFound` where the book is not registered and with
    /// `UnprocessableEntity` where it is out on loan. Else the book is lent,
    /// unless the random identifier is that of an active checkout, which is
    /// `SpecificOperationError`. A failure leaves the ledger as it was.
    pub fn create(&mut self, event: CreateCheckout) -> (outcome: AppResult<()>)
        requires
            old(self).wf(),
        ensures
            final(self).wf(),
            exists|checkout_id: CheckoutId|
                {
                    &&& is_random_uuid(checkout_id.0)
                    &&& final(self)@ == (#[trigger] old(self)@.create(event, checkout_id)).0
                    &&& outcome_view(outcome) == old(self)@.create(event, checkout_id).1
                },
            outcome is Err ==> final(self)@ == old(self)@,
            !old(self)@.has_book(event.book_id) ==> outcome_view(outcome) == Err::<
                (),
                AppErrorView,
            >(AppErrorView::EntityNotFound(book_not_found(event.book_id))),
            old(self)@.has_book(event.book_id) && old(self)@.is_lent(event.book_id)
                ==> outcome_view(outcome) == Err::<(), AppErrorView>(
                AppErrorView::UnprocessableEntity(
                    book_already_checked_out(event.book_id),
                ),
            ),
    {
        let checkout_id = CheckoutId::new();
        proof {
            self.lemma_wf();
            self@.lemma_apply(Command::Create { event, checkout_id });
        }
        self.create_with_id(event, checkout_id)
    }

    /// Lends a book; the new checkout gets `checkout_id`.
    ///
    /// Does to the ledger what [`Ledger::create`] says, and fails as it
    /// says.
    pub fn create_with_id(&mut self, event: CreateCheckout, checkout_id: CheckoutId) -> (outcome:
        AppResult<()>)
        requires
            old(self).wf(),
        ensures
            final(self).wf(),
            final(self)@ == old(self)@.create(event, checkout_id).0,
            outcome_view(outcome) == old(self)@.create(event, checkout_id).1,
            outcome is Err ==> final(self)@ == old(self)@,
    {
        proof {
            self.lemma_wf();
            self@.lemma_apply(Command::Create { event, checkout_id });
        }
        self.run(Command::Create { event, checkout_id })
    }

    /// Takes a book back.
    ///
    /// Succeeds exactly where the book is registered and its active checkout
    /// has the identifier and the holder that the event names: then the
    /// loan leaves the active checkouts and joins the returned ones. Fails
    /// with `EntityNotFound` where the book is not registered and with
    /// `UnprocessableEntity` on every mismatch. A failure leaves the ledger
    /// as it was.
    pub fn update_returned(&mut self, event: UpdateReturned) -> (outcome: AppResult<()>)
        requires
            old(self).wf(),
        ensures
            final(self).wf(),
            final(self)@ == old(self)@.update_returned(event).0,
            outcome_view(outcome) == old(self)@.update_returned(event).1,
            outcome is Ok <==> old(self)@.has_book(event.book_id) && old(self)@.matches_loan(
                event,
            ),
            outcome is Err ==> final(self)@ == old(self)@,
    {
        proof {
            self.lemma_wf();
            self@.lemma_apply(Command::Return { event });
        }
        self.run(Command::Return { event })
    }

    /// Every loan in progress, oldest first.
    pub fn find_unreturned_all(&self) -> (found: AppResult<Vec<Checkout>>)
        requires
            self.wf(),
        ensures
            found matches Ok(checkouts) && checkouts_shown(checkouts@) == self@.unreturned_all(),
            shown_in_order(self@.unreturned_all()),
    {
        proof {
            self.lemma_wf();
            self@.lemma_unreturned_all();
        }
        Ok(checkouts_from_active(self.db.select_unreturned_all()))
    }

    /// The loans in progress that the user holds, oldest first.
    pub fn find_unreturned_by_user_id(&self, user_id: UserId) -> (found: AppResult<Vec<Checkout>>)
        requires
            self.wf(),
        ensures
            found matches Ok(checkouts) && checkouts_shown(checkouts@)
                == self@.unreturned_by_user(user_id),
            shown_in_order(self@.unreturned_by_user(user_id)),
    {
        proof {
            self.lemma_wf();
            self@.lemma_unreturned_by_user(user_id);
        }
        Ok(checkouts_from_active(self.db.select_unreturned_by_user(user_id)))
    }

    /// The book's loan in progress, if it has one.
    pub fn find_unreturned_by_book_id(&self, book_id: BookId) -> (found: AppResult<
        Option<Checkout>,
    >)
        requires
            self.wf(),
        ensures
            found matches Ok(checkout) && match checkout {
                Some(checkout) => self@.unreturned_by_book(book_id) == Some(checkout@),
                None => self@.unreturned_by_book(book_id) is None,
            },
    {
        match self.db.select_unreturned_by_book(book_id) {
            Some(row) => Ok(Some(Checkout::from(row))),
            None => Ok(None),
        }
    }

    /// Everything that happened to the book: its loan in progress, if it
    /// has one, and behind it its ended loans, oldest first.
    ///
    /// The history has one entry for each returned checkout of the book and
    /// one more where the book is out on loan. That one stands first and is
    /// the only entry without a time of return.
    pub fn find_history_by_book_id(&self, book_id: BookId) -> (found: AppResult<Vec<Checkout>>)
        requires
            self.wf(),
        ensures
            found matches Ok(history) && {
                &&& checkouts_shown(history@) == self@.history_of(book_id)
                &&& history@.len() == self@.active_count(book_id) + self@.returned_count(book_id)
                &&& self@.active_count(book_id) <= 1
                &&& forall|k: int|
                    0 <= k < history@.len() ==> ((#[trigger] history@[k]).returned_at is None
                        <==> k < self@.active_count(book_id))
                &&& forall|i: int, j: int|
                    self@.active_count(book_id) <= i < j < history@.len()
                        ==> history@[i].checked_out_at <= history@[j].checked_out_at
            },
    {
        let checkout = match self.find_unreturned_by_book_id(book_id) {
            Ok(checkout) => checkout,
            Err(error) => {
                return Err(error);
            },
        };
        let returned = checkouts_from_returned(self.db.select_returned_by_book(book_id));
        let history = assemble_history(checkout, returned);
        proof {
            self.lemma_wf();
            self@.lemma_history(book_id);
            let shown = self@.history_of(book_id);
            assert(checkouts_shown(history@) =~= shown);
            assert forall|k: int| 0 <= k < history@.len() implies ((
            #[trigger] history@[k]).returned_at is None <==> k < self@.active_count(book_id)) by {
                assert(checkouts_shown(history@)[k] == history@[k]@);
                assert(shown[k].returned_at == history@[k].returned_at);
            }
            assert forall|i: int, j: int|
                self@.active_count(book_id) <= i < j
                    < history@.len() implies history@[i].checked_out_at
                <= history@[j].checked_out_at by {
                assert(checkouts_shown(history@)[i] == history@[i]@);
                assert(checkouts_shown(history@)[j] == history@[j]@);
                assert(shown[i].checked_out_at <= shown[j].checked_out_at);
            }
        }
        Ok(history)
    }
}

} // verus!
