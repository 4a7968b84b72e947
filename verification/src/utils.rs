//! What an operation of the gateway reports when it fails.

use vstd::prelude::*;

verus! {

/// Why an operation failed.
#[derive(Debug, PartialEq)]
pub enum BotError {
    /// The user's messenger id is no whole number.
    InvalidUserId,
    /// A contact is known without the hash that gives access to it.
    MissingAccessHash,
    /// The platform refused the sign-in; the gateway cannot serve this bot.
    Authentication(String),
    /// A call of the connector failed.
    Connector(String),
}

/// What an operation that may fail returns.
pub type BotResult<T> = core::result::Result<T, BotError>;

impl BotError {
    /// The text that a status reports for the error.
    pub open spec fn detail(self) -> Seq<char> {
        match self {
            BotError::InvalidUserId => "the user's messenger id is not a number"@,
            BotError::MissingAccessHash => "a contact has no access hash"@,
            BotError::Authentication(reason) => reason@,
            BotError::Connector(reason) => reason@,
        }
    }

    /// The text that a status reports for the error.
    pub fn details(&self) -> (r: String)
        ensures
            r@ == self.detail(),
    {
        match self {
            BotError::InvalidUserId => "the user's messenger id is not a number".to_owned(),
            BotError::MissingAccessHash => "a contact has no access hash".to_owned(),
            BotError::Authentication(reason) => reason.clone(),
            BotError::Connector(reason) => reason.clone(),
        }
    }
}

/// The configuration that was read, or the default one where none could be
/// read: a missing or damaged file does not stop the start.
pub fn loaded_or_default<T: Default>(loaded: Option<T>) -> (r: T)
    ensures
        loaded matches Some(value) ==> r == value,
        loaded is None ==> call_ensures(T::default, (), r),
{
    match loaded {
        Some(value) => value,
        None => T::default(),
    }
}

} // verus!
