//! The errors of the application and how each one is reported.

use vstd::prelude::*;
use vstd::string::*;

verus! {

/// Everything that can go wrong in the application.
///
/// Where the cause is an error of another component (the database driver,
/// the key-value store, the validator, the password hasher, the UUID
/// parser), the variant carries that error's text.
#[derive(Debug, Clone, PartialEq, Eq)]
pub enum AppError {
    /// The request is understood but the current state forbids it.
    UnprocessableEntity(String),
    /// The entity that the request names does not exist.
    EntityNotFound(String),
    /// The request failed validation.
    ValidationError(String),
    /// A transaction could not be begun or committed.
    TransactionError(String),
    /// A statement failed in the store.
    SpecificOperationError(String),
    /// A write that had to change a row changed none.
    NoRowsAffectedError(String),
    /// The key-value store failed.
    KeyValueStoreError(String),
    /// Hashing or checking a password failed.
    BcyptError(String),
    /// A text is no UUID.
    ConvertToUuidError(String),
    /// The login failed.
    UnauthenticatedError,
    /// The caller's credentials are not valid.
    UnauthorizedError,
    /// The caller may not do this.
    ForbiddenError,
    /// A stored value could not be turned into an entity.
    ConversionEntityError(String),
}

/// An [`AppError`] with its texts as sequences of characters.
pub enum AppErrorView {
    UnprocessableEntity(Seq<char>),
    EntityNotFound(Seq<char>),
    ValidationError(Seq<char>),
    TransactionError(Seq<char>),
    SpecificOperationError(Seq<char>),
    NoRowsAffectedError(Seq<char>),
    KeyValueStoreError(Seq<char>),
    BcyptError(Seq<char>),
    ConvertToUuidError(Seq<char>),
    UnauthenticatedError,
    UnauthorizedError,
    ForbiddenError,
    ConversionEntityError(Seq<char>),
}

impl View for AppError {
    type V = AppErrorView;

    open spec fn view(&self) -> AppErrorView {
        match self {
            AppError::UnprocessableEntity(text) => AppErrorView::UnprocessableEntity(text@),
            AppError::EntityNotFound(text) => AppErrorView::EntityNotFound(text@),
            AppError::ValidationError(text) => AppErrorView::ValidationError(text@),
            AppError::TransactionError(text) => AppErrorView::TransactionError(text@),
            AppError::SpecificOperationError(text) => AppErrorView::SpecificOperationError(text@),
            AppError::NoRowsAffectedError(text) => AppErrorView::NoRowsAffectedError(text@),
            AppError::KeyValueStoreError(text) => AppErrorView::KeyValueStoreError(text@),
            AppError::BcyptError(text) => AppErrorView::BcyptError(text@),
            AppError::ConvertToUuidError(text) => AppErrorView::ConvertToUuidError(text@),
            AppError::UnauthenticatedError => AppErrorView::UnauthenticatedError,
            AppError::UnauthorizedError => AppErrorView::UnauthorizedError,
            AppError::ForbiddenError => AppErrorView::ForbiddenError,
            AppError::ConversionEntityError(text) => AppErrorView::ConversionEntityError(text@),
        }
    }
}

impl AppErrorView {
    /// The text shown for the error.
    pub open spec fn message(self) -> Seq<char> {
        match self {
            AppErrorView::UnprocessableEntity(text) => text,
            AppErrorView::EntityNotFound(text) => text,
            AppErrorView::ValidationError(text) => text,
            AppErrorView::TransactionError(_) => "Does not transaction."@,
            AppErrorView::SpecificOperationError(_) =>
                "Error occurred in processing the database operation."@,
            AppErrorView::NoRowsAffectedError(text) => "No rows affected: "@ + text,
            AppErrorView::KeyValueStoreError(text) => text,
            AppErrorView::BcyptError(text) => text,
            AppErrorView::ConvertToUuidError(text) => text,
            AppErrorView::UnauthenticatedError => "Failed to login."@,
            AppErrorView::UnauthorizedError => "Invalid authorization information."@,
            AppErrorView::ForbiddenError => "Forbidden operation."@,
            AppErrorView::ConversionEntityError(text) => text,
        }
    }

    /// The HTTP status that answers a request failing with the error.
    pub open spec fn status_code(self) -> u16 {
        match self {
            AppErrorView::UnprocessableEntity(_) => 422,
            AppErrorView::EntityNotFound(_) => 404,
            AppErrorView::ValidationError(_) | AppErrorView::ConvertToUuidError(_) => 400,
            AppErrorView::UnauthenticatedError | AppErrorView::ForbiddenError => 403,
            AppErrorView::UnauthorizedError => 401,
            AppErrorView::TransactionError(_)
            | AppErrorView::SpecificOperationError(_)
            | AppErrorView::NoRowsAffectedError(_)
            | AppErrorView::KeyValueStoreError(_)
            | AppErrorView::BcyptError(_)
            | AppErrorView::ConversionEntityError(_) => 500,
        }
    }

    /// Whether the error is a fault of the server rather than of the request:
    /// those answered with status 500, which are logged with their cause.
    pub open spec fn is_unexpected(self) -> bool {
        self.status_code() == 500
    }

    /// Whether the same request may succeed when sent again unchanged. Only a
    /// transaction that the store refused to begin or commit is such a case.
    pub open spec fn is_retryable(self) -> bool {
        self is TransactionError
    }
}

impl AppError {
    /// The text shown for the error.
    pub fn to_string(&self) -> (text: String)
        ensures
            text@ == self@.message(),
    {
        match self {
            AppError::UnprocessableEntity(text) => text.clone(),
            AppError::EntityNotFound(text) => text.clone(),
            AppError::ValidationError(text) => text.clone(),
            AppError::TransactionError(_) => String::from_str("Does not transaction."),
            AppError::SpecificOperationError(_) => String::from_str(
                "Error occurred in processing the database operation.",
            ),
            AppError::NoRowsAffectedError(text) => String::from_str("No rows affected: ").concat(
                text.as_str(),
            ),
            AppError::KeyValueStoreError(text) => text.clone(),
            AppError::BcyptError(text) => text.clone(),
            AppError::ConvertToUuidError(text) => text.clone(),
            AppError::UnauthenticatedError => String::from_str("Failed to login."),
            AppError::UnauthorizedError => String::from_str("Invalid authorization information."),
            AppError::ForbiddenError => String::from_str("Forbidden operation."),
            AppError::ConversionEntityError(text) => text.clone(),
        }
    }

    /// The HTTP status that answers a request failing with the error.
    pub fn status_code(&self) -> (code: u16)
        ensures
            code == self@.status_code(),
    {
        match self {
            AppError::UnprocessableEntity(_) => 422,
            AppError::EntityNotFound(_) => 404,
            AppError::ValidationError(_) | AppError::ConvertToUuidError(_) => 400,
            AppError::UnauthenticatedError | AppError::ForbiddenError => 403,
            AppError::UnauthorizedError => 401,
            AppError::TransactionError(_)
            | AppError::SpecificOperationError(_)
            | AppError::NoRowsAffectedError(_)
            | AppError::KeyValueStoreError(_)
            | AppError::BcyptError(_)
            | AppError::ConversionEntityError(_) => 500,
        }
    }

    /// Whether the error is a fault of the server, to be logged with its
    /// cause before it is answered.
    pub fn is_unexpected(&self) -> (unexpected: bool)
        ensures
            unexpected == self@.is_unexpected(),
    {
        self.status_code() == 500
    }

    /// Whether the same request may succeed when sent again unchanged.
    pub fn is_retryable(&self) -> (retryable: bool)
        ensures
            retryable == self@.is_retryable(),
    {
        match self {
            AppError::TransactionError(_) => true,
            _ => false,
        }
    }
}

/// The result of an operation of the application.
pub type AppResult<T> = Result<T, AppError>;

/// Said of an entity that a lookup did not find.
pub const NOT_FOUND: &'static str = "not found";

/// Lets administrators through: `ForbiddenError` for everybody else.
pub fn admin_only(is_admin: bool) -> (verdict: AppResult<()>)
    ensures
        is_admin ==> verdict is Ok,
        !is_admin ==> (verdict matches Err(error) && error@ == AppErrorView::ForbiddenError),
{
    if is_admin {
        Ok(())
    } else {
        Err(AppError::ForbiddenError)
    }
}

/// The entity that a lookup found, and `EntityNotFound` where it found
/// none.
pub fn found<T>(entity: Option<T>) -> (verdict: AppResult<T>)
    ensures
        match entity {
            Some(entity) => verdict == Ok::<T, AppError>(entity),
            None => verdict matches Err(error) && error@ == AppErrorView::EntityNotFound(
                NOT_FOUND@,
            ),
        },
{
    match entity {
        Some(entity) => Ok(entity),
        None => Err(AppError::EntityNotFound(NOT_FOUND.to_owned())),
    }
}

} // verus!
