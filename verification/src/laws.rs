//! What holds of the lending ledger whatever is done to it.
//!
//! Each law is a proof over the definitions that the contracts of the
//! store, the transactions and the repository are stated in.

use crate::command::{
    book_already_checked_out, book_not_checked_out_by, book_not_found, Command, PhaseView,
    ProgressView, TransactionView,
};
use crate::error::AppErrorView;
use crate::id::{BookId, CheckoutId};
use crate::ledger::{lemma_inserted, lemma_returned_slot, returned_slot, Ledger, StoreState};
use crate::model::{Checkout, CreateCheckout, ReturnedRecord, UpdateReturned};
use crate::protocol::{StoreRequest, StoreResponseView};
use crate::repository::checkouts_shown;
use vstd::prelude::*;

verus! {

/// A book never has two loans in progress.
///
/// Whatever lendings and returns run on a well-formed ledger, one after the
/// other, in whatever order and whether they succeed or fail, the ledger
/// stays well-formed and every book has no active checkout or one.
pub proof fn law_single_active_loan(ledger: Ledger, commands: Seq<Command>, book_id: BookId)
    requires
        ledger.wf(),
    ensures
        ledger.apply_all(commands).wf(),
        ledger.apply_all(commands).active_count(book_id) <= 1,
    decreases commands.len(),
{
    if commands.len() > 0 {
        law_single_active_loan(ledger, commands.drop_last(), book_id);
        ledger.apply_all(commands.drop_last()).lemma_apply(commands.last());
    }
    ledger.apply_all(commands).lemma_active_count(book_id);
}

/// Of two lendings of one book, the second is refused.
///
/// Once a book has been lent, every further lending of it fails with
/// `UnprocessableEntity`, whoever asks and whatever identifier the new
/// checkout would get, until the book is returned.
pub proof fn law_lent_book_is_refused(
    ledger: Ledger,
    first: CreateCheckout,
    first_id: CheckoutId,
    second: CreateCheckout,
    second_id: CheckoutId,
)
    requires
        ledger.wf(),
        ledger.create(first, first_id).1 is Ok,
        second.book_id == first.book_id,
    ensures
        ledger.create(first, first_id).0.create(second, second_id).1 == Err::<(), AppErrorView>(
            AppErrorView::UnprocessableEntity(book_already_checked_out(second.book_id)),
        ),
        ledger.create(first, first_id).0.create(second, second_id).0 == ledger.create(
            first,
            first_id,
        ).0,
{
    ledger.lemma_with_checkout(Command::new_record(first, first_id));
}

/// Only the holder returns a book, and only under the checkout's own
/// identifier.
///
/// A return succeeds exactly where the book is registered, is out on loan,
/// and the return names the identifier and the holder of that loan. On a
/// registered book every other return fails with `UnprocessableEntity`;
/// on a book that is not registered it fails with `EntityNotFound`.
pub proof fn law_return_authorization(ledger: Ledger, event: UpdateReturned)
    requires
        ledger.wf(),
    ensures
        ledger.update_returned(event).1 is Ok <==> ledger.has_book(event.book_id) && (
        ledger.loan_of(event.book_id) matches Some(loan) && loan.checkout_id == event.checkout_id
            && loan.user_id == event.returned_by),
        (ledger.has_book(event.book_id) && !(ledger.loan_of(event.book_id) matches Some(loan)
            && loan.checkout_id == event.checkout_id && loan.user_id == event.returned_by))
            ==> ledger.update_returned(event).1 == Err::<(), AppErrorView>(
            AppErrorView::UnprocessableEntity(book_not_checked_out_by(event)),
        ),
        !ledger.has_book(event.book_id) ==> ledger.update_returned(event).1 == Err::<
            (),
            AppErrorView,
        >(AppErrorView::EntityNotFound(book_not_found(event.book_id))),
{
}

/// A return ends the loan and keeps its record.
///
/// After a return that succeeded the book is free, and its history holds
/// one more ended loan: the checkout that was active, with every field
/// carried over and the time of return added.
pub proof fn law_return_moves_the_loan(ledger: Ledger, event: UpdateReturned)
    requires
        ledger.wf(),
        ledger.update_returned(event).1 is Ok,
    ensures
        !ledger.update_returned(event).0.is_lent(event.book_id),
        ledger.update_returned(event).0.checkouts.len() == ledger.checkouts.len() - 1,
        ledger.update_returned(event).0.returned.len() == ledger.returned.len() + 1,
        ledger.update_returned(event).0.returned.contains(
            ledger.loan_of(event.book_id)->0.closed_at(event.returned_at),
        ),
{
    let loan = ledger.loan_of(event.book_id)->0;
    let ended = loan.closed_at(event.returned_at);
    let slot = returned_slot(ledger.returned, ended.checked_out_at);
    ledger.lemma_loan_at(ledger.loan_index(event.book_id));
    ledger.lemma_with_returned(ended);
    lemma_returned_slot(ledger.returned, ended.checked_out_at);
    lemma_inserted(ledger.returned, slot, ended);
    let between = ledger.with_returned(ended);
    assert(between.returned[slot] == ended);
    assert(between.has_checkout(event.checkout_id));
    between.lemma_loan_at(ledger.loan_index(event.book_id));
    between.lemma_without_checkout(event.checkout_id);
}

/// Reading twice gives the same.
///
/// Two lists of the loans in progress that were read from one ledger, with
/// no write between them, are equal entry by entry.
pub proof fn law_unreturned_all_repeats(ledger: Ledger, first: Seq<Checkout>, second: Seq<Checkout>)
    requires
        checkouts_shown(first) == ledger.unreturned_all(),
        checkouts_shown(second) == ledger.unreturned_all(),
    ensures
        first.len() == second.len(),
        forall|k: int| 0 <= k < first.len() ==> (#[trigger] first[k])@ == second[k]@,
{
    assert(checkouts_shown(first).len() == first.len());
    assert(checkouts_shown(second).len() == second.len());
    assert forall|k: int| 0 <= k < first.len() implies (#[trigger] first[k])@ == second[k]@ by {
        assert(checkouts_shown(first)[k] == first[k]@);
        assert(checkouts_shown(second)[k] == second[k]@);
    }
}

/// A failed write leaves nothing behind.
///
/// Where the store fails a write, or the write changes no row, the
/// transaction asks for a rollback before it does anything else, and the
/// rollback puts the store back on the ledger on which the transaction
/// began, whatever had been written.
pub proof fn law_failed_write_is_rolled_back(
    before: Ledger,
    working: Ledger,
    transaction: TransactionView,
    response: StoreResponseView,
)
    requires
        transaction.phase is Creating || transaction.phase is Returning
            || transaction.phase is Deleting,
        response is Failed || response == StoreResponseView::RowsAffected(0),
    ensures
        transaction.advance(response) matches ProgressView::Continue(rolling_back, request)
            && request == StoreRequest::Rollback && rolling_back.phase is RollingBack
            && rolling_back.advance(StoreResponseView::Done) is Finished
            && rolling_back.advance(StoreResponseView::Done)->Finished_0 is Err,
        StoreState::within(before, working, true).respond(StoreRequest::Rollback).0
            == StoreState::idle(before),
{
}

/// A transaction fails only when nothing of it can stay.
///
/// Whatever the store answers, a transaction ends in an error in three
/// places only: the store did not begin, the store did not commit, or the
/// rollback has been asked for.
pub proof fn law_errors_end_closed_transactions(
    transaction: TransactionView,
    response: StoreResponseView,
)
    requires
        transaction.advance(response) matches ProgressView::Finished(outcome) && outcome is Err,
    ensures
        transaction.phase is Beginning || transaction.phase is Committing
            || transaction.phase is RollingBack,
{
}

/// No write goes to the store before the transaction is serializable and
/// the book's state has been read in it.
///
/// A transaction asks for a write only as its answer to what the store
/// said to the read or to an earlier write, and it asks for the read only
/// once the store has confirmed the isolation level.
pub proof fn law_writes_follow_the_read(transaction: TransactionView, response: StoreResponseView)
    requires
        transaction.advance(response) matches ProgressView::Continue(_, request) && (request is InsertCheckout
            || request is InsertReturned || request is DeleteCheckout),
    ensures
        transaction.phase is Reading || transaction.phase is Returning,
        transaction.phase is Reading ==> (response matches StoreResponseView::CheckoutState(state)
            && transaction.command.verdict(state) is Ok),
{
}

/// While one transaction is open, no other gets in.
///
/// The store turns a second `Begin` away and stays as it is. The
/// transaction that asked ends at once with `TransactionError`, the one
/// error that is worth a retry, and has written nothing.
pub proof fn law_concurrent_attempt_is_turned_away(store: StoreState, second: Command)
    requires
        store.open is Some,
    ensures
        store.respond(StoreRequest::Begin).0 == store,
        store.respond(StoreRequest::Begin).1 is Failed,
        TransactionView::start(second).advance(store.respond(StoreRequest::Begin).1)
            matches ProgressView::Finished(Err(error)) && error is TransactionError
            && error.is_retryable(),
{
}

/// Only a refused transaction is worth a retry.
///
/// Of the errors in which a transaction can end, the retryable ones are
/// those of a store that did not begin or did not commit. A lending or a
/// return that was judged and refused is never among them.
pub proof fn law_refusals_are_final(transaction: TransactionView, response: StoreResponseView)
    requires
        transaction.advance(response) matches ProgressView::Finished(outcome) && outcome is Err,
    ensures
        transaction.advance(response)->Finished_0->Err_0.is_retryable() <==> (
        transaction.phase is Beginning || transaction.phase is Committing || (
        transaction.phase matches PhaseView::RollingBack(error) && error.is_retryable())),
{
}

/// What has been returned stays on record.
///
/// No lending and no return takes a returned checkout away or changes it:
/// every record that the ledger held before the transaction it holds after
/// it, and no book is ever dropped.
pub proof fn law_returned_records_stay(ledger: Ledger, command: Command, record: ReturnedRecord)
    requires
        ledger.wf(),
        ledger.returned.contains(record),
    ensures
        ledger.apply(command).0.returned.contains(record),
        ledger.apply(command).0.books == ledger.books,
{
    let after = ledger.apply(command).0;
    let i = choose|i: int| 0 <= i < ledger.returned.len() && ledger.returned[i] == record;
    if let Command::Return { event } = command {
        if ledger.apply(command).1 is Ok {
            let ended = ledger.loan_of(event.book_id)->0.closed_at(event.returned_at);
            let slot = returned_slot(ledger.returned, ended.checked_out_at);
            lemma_returned_slot(ledger.returned, ended.checked_out_at);
            lemma_inserted(ledger.returned, slot, ended);
            let k = if i < slot {
                i
            } else {
                i + 1
            };
            assert(ledger.with_returned(ended).returned[k] == record);
            assert(after.returned == ledger.with_returned(ended).returned);
        }
    }
}

/// A transaction that is given up leaves nothing behind.
///
/// At whatever point a caller abandons an open transaction, the rollback
/// puts the store at rest on the committed ledger, as if the transaction
/// had never begun.
pub proof fn law_abandoned_transaction_leaves_nothing(store: StoreState)
    requires
        store.open is Some,
    ensures
        store.respond(StoreRequest::Rollback).0 == StoreState::idle(store.committed),
        store.respond(StoreRequest::Rollback).1 is Done,
{
}

} // verus!
