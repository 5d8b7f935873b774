//! The two write transactions, lending a book and taking it back, as a
//! machine that a driver steps through.
//!
//! A [`CheckoutTransaction`] owns the rules and no store. It hands the
//! driver one [`StoreRequest`] at a time; the driver carries it out and
//! gives the [`StoreResponse`] to [`CheckoutTransaction::advance`], which
//! answers with the next request or with the outcome. Both transactions open
//! a transaction in the store, raise it to serializable isolation, read
//! where the book stands, decide, write, and commit. From the moment the
//! store's transaction is open, whatever goes wrong ends in a `Rollback`
//! before the error is handed out, so nothing written stays behind.

use crate::error::{AppError, AppErrorView, AppResult};
use crate::id::{is_random_uuid, uuid_text, BookId, CheckoutId};
use crate::model::{CheckoutRecord, CheckoutStateRow, CreateCheckout, UpdateReturned};
use crate::protocol::{StoreRequest, StoreResponse, StoreResponseView};
use vstd::prelude::*;
use vstd::string::*;

verus! {

/// Said of an insert into the active checkouts that changed no row.
pub const NOTHING_CREATED: &'static str = "No checkout record has been created";

/// Said of an insert into the returned checkouts that changed no row.
pub const NOTHING_RETURNED: &'static str = "No returning record has been updated";

/// Said of a delete from the active checkouts that changed no row.
pub const NOTHING_DELETED: &'static str = "No checkout record has been deleted";

/// Said of a book that is not registered.
pub open spec fn book_not_found(book_id: BookId) -> Seq<char> {
    "Book not found: book_id="@ + uuid_text(book_id.0)
}

/// Said of a book that is asked for while it is out on loan.
pub open spec fn book_already_checked_out(book_id: BookId) -> Seq<char> {
    "Book already checked out: book_id="@ + uuid_text(book_id.0)
}

/// Said of a return that does not match the book's active checkout.
pub open spec fn book_not_checked_out_by(event: UpdateReturned) -> Seq<char> {
    "Book not checked out by the user: book_id="@ + uuid_text(event.book_id.0)
        + ", checkout_id="@ + uuid_text(event.checkout_id.0) + ", user_id="@ + uuid_text(
        event.returned_by.0,
    )
}

/// A result with the error's texts as sequences of characters.
pub open spec fn outcome_view(outcome: AppResult<()>) -> Result<(), AppErrorView> {
    match outcome {
        Ok(_) => Ok(()),
        Err(error) => Err(error@),
    }
}

/// Whether a book that stands as `state` may be lent.
///
/// It may when it is registered and has no active checkout. A book that is
/// not registered is `EntityNotFound`; a book that is out is
/// `UnprocessableEntity`.
pub open spec fn create_verdict(state: Option<CheckoutStateRow>, event: CreateCheckout) -> Result<
    (),
    AppErrorView,
> {
    match state {
        None => Err(AppErrorView::EntityNotFound(book_not_found(event.book_id))),
        Some(row) => if row.checkout_id is Some {
            Err(AppErrorView::UnprocessableEntity(book_already_checked_out(event.book_id)))
        } else {
            Ok(())
        },
    }
}

/// Whether a book that stands as `state` may be taken back as `event` asks.
///
/// It may when its active checkout has the identifier that the event names
/// and is held by the user who returns it. A book that is not registered is
/// `EntityNotFound`; every other mismatch is `UnprocessableEntity`: another
/// checkout, another holder, or no active checkout at all.
pub open spec fn return_verdict(state: Option<CheckoutStateRow>, event: UpdateReturned) -> Result<
    (),
    AppErrorView,
> {
    match state {
        None => Err(AppErrorView::EntityNotFound(book_not_found(event.book_id))),
        Some(row) => if row.checkout_id == Some(event.checkout_id) && row.user_id == Some(
            event.returned_by,
        ) {
            Ok(())
        } else {
            Err(AppErrorView::UnprocessableEntity(book_not_checked_out_by(event)))
        },
    }
}

/// Whether a write that had to change a row did: `NoRowsAffectedError` with
/// `what` where it changed none.
pub open spec fn rows_verdict(rows: u64, what: Seq<char>) -> Result<(), AppErrorView> {
    if rows == 0 {
        Err(AppErrorView::NoRowsAffectedError(what))
    } else {
        Ok(())
    }
}

/// The text of [`book_not_found`].
fn book_not_found_text(book_id: BookId) -> (text: String)
    ensures
        text@ == book_not_found(book_id),
{
    let id = book_id.to_string();
    String::from_str("Book not found: book_id=").concat(id.as_str())
}

/// The text of [`book_already_checked_out`].
fn book_already_checked_out_text(book_id: BookId) -> (text: String)
    ensures
        text@ == book_already_checked_out(book_id),
{
    let id = book_id.to_string();
    String::from_str("Book already checked out: book_id=").concat(id.as_str())
}

/// The text of [`book_not_checked_out_by`].
fn book_not_checked_out_by_text(event: &UpdateReturned) -> (text: String)
    ensures
        text@ == book_not_checked_out_by(*event),
{
    let book = event.book_id.to_string();
    let checkout = event.checkout_id.to_string();
    let user = event.returned_by.to_string();
    let mut text = String::from_str("Book not checked out by the user: book_id=");
    text.append(book.as_str());
    text.append(", checkout_id=");
    text.append(checkout.as_str());
    text.append(", user_id=");
    text.append(user.as_str());
    text
}

/// Decides whether a book that stands as `state` may be lent.
pub fn check_create(state: Option<CheckoutStateRow>, event: &CreateCheckout) -> (verdict: AppResult<
    (),
>)
    ensures
        outcome_view(verdict) == create_verdict(state, *event),
{
    match state {
        None => Err(AppError::EntityNotFound(book_not_found_text(event.book_id))),
        Some(row) => {
            if row.checkout_id.is_some() {
                Err(AppError::UnprocessableEntity(book_already_checked_out_text(event.book_id)))
            } else {
                Ok(())
            }
        },
    }
}

/// Decides whether a book that stands as `state` may be taken back as
/// `event` asks.
pub fn check_return(state: Option<CheckoutStateRow>, event: &UpdateReturned) -> (verdict: AppResult<
    (),
>)
    ensures
        outcome_view(verdict) == return_verdict(state, *event),
{
    match state {
        None => Err(AppError::EntityNotFound(book_not_found_text(event.book_id))),
        Some(row) => {
            let same_checkout = match row.checkout_id {
                Some(checkout_id) => checkout_id == event.checkout_id,
                None => false,
            };
            let same_holder = match row.user_id {
                Some(user_id) => user_id == event.returned_by,
                None => false,
            };
            if same_checkout && same_holder {
                Ok(())
            } else {
                Err(AppError::UnprocessableEntity(book_not_checked_out_by_text(event)))
            }
        },
    }
}

/// Decides whether a write that had to change a row did.
pub fn check_rows_affected(rows: u64, what: &str) -> (verdict: AppResult<()>)
    ensures
        outcome_view(verdict) == rows_verdict(rows, what@),
{
    if rows == 0 {
        Err(AppError::NoRowsAffectedError(what.to_owned()))
    } else {
        Ok(())
    }
}

/// What a transaction is to do.
#[allow(inconsistent_fields)]
#[derive(Clone, Copy, Debug, PartialEq, Eq)]
pub enum Command {
    /// Lend the book; the new checkout gets `checkout_id`.
    Create { event: CreateCheckout, checkout_id: CheckoutId },
    /// Take the book back.
    Return { event: UpdateReturned },
}

impl Command {
    /// The book that the command is about.
    pub open spec fn book_id(self) -> BookId {
        match self {
            Command::Create { event, .. } => event.book_id,
            Command::Return { event } => event.book_id,
        }
    }

    /// The request that reads where the book stands. Lending asks for the
    /// checkout alone; a return needs the holder too.
    pub open spec fn read_request(self) -> StoreRequest {
        match self {
            Command::Create { event, .. } => StoreRequest::ReadCheckoutState {
                book_id: event.book_id,
                with_holder: false,
            },
            Command::Return { event } => StoreRequest::ReadCheckoutState {
                book_id: event.book_id,
                with_holder: true,
            },
        }
    }

    /// Whether the command may go ahead on a book that stands as `state`.
    pub open spec fn verdict(self, state: Option<CheckoutStateRow>) -> Result<(), AppErrorView> {
        match self {
            Command::Create { event, .. } => create_verdict(state, event),
            Command::Return { event } => return_verdict(state, event),
        }
    }

    /// The row that lending puts into the active checkouts.
    pub open spec fn new_record(event: CreateCheckout, checkout_id: CheckoutId) -> CheckoutRecord {
        CheckoutRecord {
            checkout_id,
            book_id: event.book_id,
            user_id: event.checked_out_by,
            checked_out_at: event.checked_out_at,
        }
    }

    /// The first write of the command.
    pub open spec fn first_write(self) -> StoreRequest {
        match self {
            Command::Create { event, checkout_id } => StoreRequest::InsertCheckout {
                record: Command::new_record(event, checkout_id),
            },
            Command::Return { event } => StoreRequest::InsertReturned {
                checkout_id: event.checkout_id,
                returned_at: event.returned_at,
            },
        }
    }

    /// The phase in which the answer to the first write is awaited.
    pub open spec fn first_write_phase(self) -> PhaseView {
        match self {
            Command::Create { .. } => PhaseView::Creating,
            Command::Return { .. } => PhaseView::Returning,
        }
    }

    /// The identifier of the checkout that a return deletes.
    pub open spec fn returned_checkout(self) -> CheckoutId {
        match self {
            Command::Create { checkout_id, .. } => checkout_id,
            Command::Return { event } => event.checkout_id,
        }
    }
}

/// How far a transaction has come: the request whose answer it awaits.
#[derive(Clone, Debug, PartialEq, Eq)]
pub enum Phase {
    /// Awaits the answer to `Begin`.
    Beginning,
    /// Awaits the answer to `SetSerializable`.
    Isolating,
    /// Awaits the answer to `ReadCheckoutState`.
    Reading,
    /// Awaits the answer to `InsertCheckout`.
    Creating,
    /// Awaits the answer to `InsertReturned`.
    Returning,
    /// Awaits the answer to `DeleteCheckout`.
    Deleting,
    /// Awaits the answer to `Commit`.
    Committing,
    /// Awaits the answer to `Rollback`, and then fails with the error.
    RollingBack(AppError),
}

/// A [`Phase`] with the error's texts as sequences of characters.
pub enum PhaseView {
    Beginning,
    Isolating,
    Reading,
    Creating,
    Returning,
    Deleting,
    Committing,
    RollingBack(AppErrorView),
}

impl View for Phase {
    type V = PhaseView;

    open spec fn view(&self) -> PhaseView {
        match self {
            Phase::Beginning => PhaseView::Beginning,
            Phase::Isolating => PhaseView::Isolating,
            Phase::Reading => PhaseView::Reading,
            Phase::Creating => PhaseView::Creating,
            Phase::Returning => PhaseView::Returning,
            Phase::Deleting => PhaseView::Deleting,
            Phase::Committing => PhaseView::Committing,
            Phase::RollingBack(error) => PhaseView::RollingBack(error@),
        }
    }
}

/// A write transaction under way.
#[derive(Clone, Debug, PartialEq, Eq)]
pub struct CheckoutTransaction {
    command: Command,
    phase: Phase,
}

/// A [`CheckoutTransaction`] as mathematics.
pub struct TransactionView {
    pub command: Command,
    pub phase: PhaseView,
}

/// What a transaction says to an answer of the store.
#[derive(Debug)]
pub enum Progress {
    /// Carry this request out next, and bring the answer to the transaction.
    Continue(CheckoutTransaction, StoreRequest),
    /// The transaction is over, and this is how it ended.
    Finished(AppResult<()>),
}

/// A [`Progress`] as mathematics.
pub enum ProgressView {
    Continue(TransactionView, StoreRequest),
    Finished(Result<(), AppErrorView>),
}

impl View for CheckoutTransaction {
    type V = TransactionView;

    closed spec fn view(&self) -> TransactionView {
        TransactionView { command: self.command, phase: self.phase@ }
    }
}

impl View for Progress {
    type V = ProgressView;

    open spec fn view(&self) -> ProgressView {
        match self {
            Progress::Continue(transaction, request) => ProgressView::Continue(
                transaction@,
                *request,
            ),
            Progress::Finished(outcome) => ProgressView::Finished(outcome_view(*outcome)),
        }
    }
}

impl TransactionView {
    /// The transaction as it starts: it has asked the store to begin.
    pub open spec fn start(command: Command) -> TransactionView {
        TransactionView { command, phase: PhaseView::Beginning }
    }

    /// The same transaction in another phase.
    pub open spec fn at(self, phase: PhaseView) -> TransactionView {
        TransactionView { command: self.command, phase }
    }

    /// Gives the store's transaction up, and keeps the error for the end.
    pub open spec fn abort(self, error: AppErrorView) -> ProgressView {
        ProgressView::Continue(self.at(PhaseView::RollingBack(error)), StoreRequest::Rollback)
    }

    /// Goes on with `request` where `verdict` allows it, and gives up with
    /// the verdict's error where it does not.
    pub open spec fn proceed(
        self,
        verdict: Result<(), AppErrorView>,
        phase: PhaseView,
        request: StoreRequest,
    ) -> ProgressView {
        match verdict {
            Ok(_) => ProgressView::Continue(self.at(phase), request),
            Err(error) => self.abort(error),
        }
    }

    /// What the transaction says to `response`.
    ///
    /// - The store could not begin: the transaction ends with
    ///   `TransactionError`; no rollback, for nothing is open.
    /// - Isolation could not be raised, the read or a write failed: rollback,
    ///   then `SpecificOperationError`.
    /// - The book may not be lent or taken back: rollback, then the
    ///   verdict's error.
    /// - A write changed no row: rollback, then `NoRowsAffectedError`.
    /// - The store could not commit: `TransactionError`.
    /// - The store committed: the transaction ends well.
    ///
    /// An answer of another kind than the awaited one counts as a failure
    /// of the request.
    pub open spec fn advance(self, response: StoreResponseView) -> ProgressView {
        match self.phase {
            PhaseView::Beginning => match response {
                StoreResponseView::Done => ProgressView::Continue(
                    self.at(PhaseView::Isolating),
                    StoreRequest::SetSerializable,
                ),
                _ => ProgressView::Finished(
                    Err(AppErrorView::TransactionError(response.complaint())),
                ),
            },
            PhaseView::Isolating => match response {
                StoreResponseView::Done => ProgressView::Continue(
                    self.at(PhaseView::Reading),
                    self.command.read_request(),
                ),
                _ => self.abort(AppErrorView::SpecificOperationError(response.complaint())),
            },
            PhaseView::Reading => match response {
                StoreResponseView::CheckoutState(state) => self.proceed(
                    self.command.verdict(state),
                    self.command.first_write_phase(),
                    self.command.first_write(),
                ),
                _ => self.abort(AppErrorView::SpecificOperationError(response.complaint())),
            },
            PhaseView::Creating => match response {
                StoreResponseView::RowsAffected(rows) => self.proceed(
                    rows_verdict(rows, NOTHING_CREATED@),
                    PhaseView::Committing,
                    StoreRequest::Commit,
                ),
                _ => self.abort(AppErrorView::SpecificOperationError(response.complaint())),
            },
            PhaseView::Returning => match response {
                StoreResponseView::RowsAffected(rows) => self.proceed(
                    rows_verdict(rows, NOTHING_RETURNED@),
                    PhaseView::Deleting,
                    StoreRequest::DeleteCheckout {
                        checkout_id: self.command.returned_checkout(),
                    },
                ),
                _ => self.abort(AppErrorView::SpecificOperationError(response.complaint())),
            },
            PhaseView::Deleting => match response {
                StoreResponseView::RowsAffected(rows) => self.proceed(
                    rows_verdict(rows, NOTHING_DELETED@),
                    PhaseView::Committing,
                    StoreRequest::Commit,
                ),
                _ => self.abort(AppErrorView::SpecificOperationError(response.complaint())),
            },
            PhaseView::Committing => match response {
                StoreResponseView::Done => ProgressView::Finished(Ok(())),
                _ => ProgressView::Finished(
                    Err(AppErrorView::TransactionError(response.complaint())),
                ),
            },
            PhaseView::RollingBack(error) => ProgressView::Finished(Err(error)),
        }
    }

    /// How many answers the transaction needs at most until it is over.
    pub open spec fn steps_left(self) -> nat {
        match self.phase {
            PhaseView::Beginning => 7,
            PhaseView::Isolating => 6,
            PhaseView::Reading => 5,
            PhaseView::Returning => 4,
            PhaseView::Creating => 3,
            PhaseView::Deleting => 3,
            PhaseView::Committing => 1,
            PhaseView::RollingBack(_) => 1,
        }
    }
}

impl CheckoutTransaction {
    /// Starts lending a book, under a fresh random identifier for the new
    /// checkout. The first request is `Begin`.
    pub fn create(event: CreateCheckout) -> (started: (CheckoutTransaction, StoreRequest))
        ensures
            started.1 == StoreRequest::Begin,
            started.0@.phase == PhaseView::Beginning,
            started.0@.command matches Command::Create { event: lent, checkout_id } && lent == event
                && is_random_uuid(checkout_id.0),
    {
        CheckoutTransaction::create_with_id(event, CheckoutId::new())
    }

    /// Starts lending a book; the new checkout gets `checkout_id`. The first
    /// request is `Begin`.
    pub fn create_with_id(event: CreateCheckout, checkout_id: CheckoutId) -> (started: (
        CheckoutTransaction,
        StoreRequest,
    ))
        ensures
            started.0@ == TransactionView::start(Command::Create { event, checkout_id }),
            started.1 == StoreRequest::Begin,
    {
        (
            CheckoutTransaction {
                command: Command::Create { event, checkout_id },
                phase: Phase::Beginning,
            },
            StoreRequest::Begin,
        )
    }

    /// Starts taking a book back. The first request is `Begin`.
    pub fn update_returned(event: UpdateReturned) -> (started: (CheckoutTransaction, StoreRequest))
        ensures
            started.0@ == TransactionView::start(Command::Return { event }),
            started.1 == StoreRequest::Begin,
    {
        (
            CheckoutTransaction { command: Command::Return { event }, phase: Phase::Beginning },
            StoreRequest::Begin,
        )
    }

    /// Starts a transaction on the command. The first request is `Begin`.
    pub fn start(command: Command) -> (transaction: CheckoutTransaction)
        ensures
            transaction@ == TransactionView::start(command),
    {
        CheckoutTransaction { command, phase: Phase::Beginning }
    }

    /// What the transaction is to do.
    pub fn command(&self) -> (command: Command)
        ensures
            command == self@.command,
    {
        self.command
    }

    /// The same transaction in another phase.
    fn at(self, phase: Phase) -> (moved: CheckoutTransaction)
        ensures
            moved@ == self@.at(phase@),
    {
        CheckoutTransaction { command: self.command, phase }
    }

    /// Asks for the rollback, and keeps the error for the end.
    fn abort(self, error: AppError) -> (progress: Progress)
        ensures
            progress@ == self@.abort(error@),
    {
        Progress::Continue(self.at(Phase::RollingBack(error)), StoreRequest::Rollback)
    }

    /// Goes on with `request` where `verdict` allows it, and gives up with
    /// the verdict's error where it does not.
    fn proceed(self, verdict: AppResult<()>, phase: Phase, request: StoreRequest) -> (progress:
        Progress)
        ensures
            progress@ == self@.proceed(outcome_view(verdict), phase@, request),
    {
        match verdict {
            Ok(_) => Progress::Continue(self.at(phase), request),
            Err(error) => self.abort(error),
        }
    }

    /// The request that reads where the book stands.
    fn read_request(&self) -> (request: StoreRequest)
        ensures
            request == self@.command.read_request(),
    {
        match self.command {
            Command::Create { event, .. } => StoreRequest::ReadCheckoutState {
                book_id: event.book_id,
                with_holder: false,
            },
            Command::Return { event } => StoreRequest::ReadCheckoutState {
                book_id: event.book_id,
                with_holder: true,
            },
        }
    }

    /// Judges the command on the state that was read, and asks for its
    /// first write where it may go ahead.
    fn decide(self, state: Option<CheckoutStateRow>) -> (progress: Progress)
        ensures
            progress@ == self@.proceed(
                self@.command.verdict(state),
                self@.command.first_write_phase(),
                self@.command.first_write(),
            ),
    {
        match self.command {
            Command::Create { event, checkout_id } => {
                let verdict = check_create(state, &event);
                let record = CheckoutRecord {
                    checkout_id,
                    book_id: event.book_id,
                    user_id: event.checked_out_by,
                    checked_out_at: event.checked_out_at,
                };
                self.proceed(verdict, Phase::Creating, StoreRequest::InsertCheckout { record })
            },
            Command::Return { event } => {
                let verdict = check_return(state, &event);
                self.proceed(
                    verdict,
                    Phase::Returning,
                    StoreRequest::InsertReturned {
                        checkout_id: event.checkout_id,
                        returned_at: event.returned_at,
                    },
                )
            },
        }
    }

    /// The identifier of the checkout that a return deletes.
    fn returned_checkout(&self) -> (checkout_id: CheckoutId)
        ensures
            checkout_id == self@.command.returned_checkout(),
    {
        match self.command {
            Command::Create { checkout_id, .. } => checkout_id,
            Command::Return { event } => event.checkout_id,
        }
    }

    /// Takes the store's answer to the request that was handed out last,
    /// and says what comes next.
    pub fn advance(self, response: StoreResponse) -> (progress: Progress)
        ensures
            progress@ == self@.advance(response@),
    {
        match self.phase {
            Phase::Beginning => match response {
                StoreResponse::Done => Progress::Continue(
                    self.at(Phase::Isolating),
                    StoreRequest::SetSerializable,
                ),
                other => Progress::Finished(Err(AppError::TransactionError(other.complaint()))),
            },
            Phase::Isolating => match response {
                StoreResponse::Done => {
                    let request = self.read_request();
                    Progress::Continue(self.at(Phase::Reading), request)
                },
                other => self.abort(AppError::SpecificOperationError(other.complaint())),
            },
            Phase::Reading => match response {
                StoreResponse::CheckoutState(state) => self.decide(state),
                other => self.abort(AppError::SpecificOperationError(other.complaint())),
            },
            Phase::Creating => match response {
                StoreResponse::RowsAffected(rows) => {
                    let verdict = check_rows_affected(rows, NOTHING_CREATED);
                    self.proceed(verdict, Phase::Committing, StoreRequest::Commit)
                },
                other => self.abort(AppError::SpecificOperationError(other.complaint())),
            },
            Phase::Returning => match response {
                StoreResponse::RowsAffected(rows) => {
                    let verdict = check_rows_affected(rows, NOTHING_RETURNED);
                    let checkout_id = self.returned_checkout();
                    self.proceed(
                        verdict,
                        Phase::Deleting,
                        StoreRequest::DeleteCheckout { checkout_id },
                    )
                },
                other => self.abort(AppError::SpecificOperationError(other.complaint())),
            },
            Phase::Deleting => match response {
                StoreResponse::RowsAffected(rows) => {
                    let verdict = check_rows_affected(rows, NOTHING_DELETED);
                    self.proceed(verdict, Phase::Committing, StoreRequest::Commit)
                },
                other => self.abort(AppError::SpecificOperationError(other.complaint())),
            },
            Phase::Committing => match response {
                StoreResponse::Done => Progress::Finished(Ok(())),
                other => Progress::Finished(Err(AppError::TransactionError(other.complaint()))),
            },
            Phase::RollingBack(error) => Progress::Finished(Err(error)),
        }
    }
}

} // verus!
