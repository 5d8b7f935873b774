//! What the session store keeps of a login: the access token as the key,
//! and the user it stands for as the value.

use crate::error::AppError;
use crate::id::{uuid_parsed, uuid_text, UserId};
use vstd::pervasive::arbitrary;
use vstd::prelude::*;
use vstd::std_specs::convert::{FromSpecImpl, TryFromSpecImpl};

verus! {

/// The token that a client presents after login.
#[derive(Debug, Clone, PartialEq, Eq)]
pub struct AccessToken(pub String);

/// Event: a token was issued to a user.
#[derive(Debug, Clone, PartialEq, Eq)]
pub struct CreateToken {
    pub user_id: UserId,
    pub access_token: String,
}

/// What the user table keeps for a login: the user and the hash of the
/// password.
#[derive(Debug, Clone, PartialEq, Eq)]
pub struct UserItem {
    pub user_id: UserId,
    pub password_hash: String,
}

/// The key of a session in the key-value store: the access token.
#[derive(Debug, Clone, PartialEq, Eq)]
pub struct AuthorizationKey(String);

/// The value of a session in the key-value store: the user.
#[derive(Debug, Clone, Copy, PartialEq, Eq)]
pub struct AuthorizedUserId(UserId);

/// A key of the key-value store.
pub trait RedisKey {
    /// What is stored under keys of this kind.
    type Value: RedisValue + TryFrom<String, Error = AppError>;

    /// The key as the store takes it.
    fn inner(&self) -> String;
}

/// A value of the key-value store.
pub trait RedisValue {
    /// The value as the store takes it.
    fn inner(&self) -> String;
}

impl View for AuthorizationKey {
    type V = Seq<char>;

    /// The token.
    closed spec fn view(&self) -> Seq<char> {
        self.0@
    }
}

impl View for AuthorizedUserId {
    type V = UserId;

    /// The user.
    closed spec fn view(&self) -> UserId {
        self.0
    }
}

/// The session that the event opens: the token as the key, the user as the
/// value.
pub fn from(event: CreateToken) -> (session: (AuthorizationKey, AuthorizedUserId))
    ensures
        session.0@ == event.access_token@,
        session.1@ == event.user_id,
{
    (AuthorizationKey(event.access_token), AuthorizedUserId(event.user_id))
}

impl From<AuthorizationKey> for AccessToken {
    fn from(key: AuthorizationKey) -> (token: AccessToken)
        ensures
            token.0@ == key@,
    {
        AccessToken(key.0)
    }
}

impl FromSpecImpl<AuthorizationKey> for AccessToken {
    open spec fn obeys_from_spec() -> bool {
        true
    }

    closed spec fn from_spec(key: AuthorizationKey) -> AccessToken {
        AccessToken(key.0)
    }
}

impl From<AccessToken> for AuthorizationKey {
    fn from(token: AccessToken) -> (key: AuthorizationKey)
        ensures
            key@ == token.0@,
    {
        AuthorizationKey(token.0)
    }
}

impl FromSpecImpl<AccessToken> for AuthorizationKey {
    open spec fn obeys_from_spec() -> bool {
        true
    }

    closed spec fn from_spec(token: AccessToken) -> AuthorizationKey {
        AuthorizationKey(token.0)
    }
}

impl From<&AccessToken> for AuthorizationKey {
    fn from(token: &AccessToken) -> (key: AuthorizationKey)
        ensures
            key@ == token.0@,
    {
        AuthorizationKey(token.0.clone())
    }
}

impl FromSpecImpl<&AccessToken> for AuthorizationKey {
    open spec fn obeys_from_spec() -> bool {
        true
    }

    closed spec fn from_spec(token: &AccessToken) -> AuthorizationKey {
        AuthorizationKey(token.0)
    }
}

impl RedisKey for AuthorizationKey {
    type Value = AuthorizedUserId;

    /// The token.
    fn inner(&self) -> (key: String)
        ensures
            key@ == self@,
    {
        self.0.clone()
    }
}

impl RedisValue for AuthorizedUserId {
    /// The user's identifier in its hyphenated lower-case form.
    fn inner(&self) -> (value: String)
        ensures
            value@ == uuid_text(self@.0),
    {
        self.0.to_string()
    }
}

impl TryFrom<String> for AuthorizedUserId {
    type Error = AppError;

    /// Reads the user back from a stored value. Fails with
    /// `ConversionEntityError` exactly where the value is no UUID.
    fn try_from(value: String) -> (read: Result<AuthorizedUserId, AppError>)
        ensures
            match read {
                Ok(user) => uuid_parsed(value@) == Some(user@.0),
                Err(error) => uuid_parsed(value@) is None && error@ is ConversionEntityError,
            },
    {
        match UserId::from_str(value.as_str()) {
            Ok(user_id) => Ok(AuthorizedUserId(user_id)),
            Err(error) => Err(AppError::ConversionEntityError(error.to_string())),
        }
    }
}

/// The text of the error is the parser's own and is not specified, so the
/// conversion has no value in specifications: what it does is the contract
/// of `try_from`.
impl TryFromSpecImpl<String> for AuthorizedUserId {
    open spec fn obeys_try_from_spec() -> bool {
        false
    }

    open spec fn try_from_spec(value: String) -> Result<AuthorizedUserId, AppError> {
        arbitrary()
    }
}

impl AuthorizedUserId {
    /// The user.
    pub fn into_inner(self) -> (user_id: UserId)
        ensures
            user_id == self@,
    {
        self.0
    }
}

} // verus!
