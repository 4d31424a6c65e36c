//! Error kinds of the store and of the operations built on it.

use crate::status::STATUS_BAD_REQUEST;
use crate::status::STATUS_INTERNAL;
use crate::status::STATUS_NOT_FOUND;
use crate::text::not_found_text;
use crate::text::render_not_found;
use vstd::prelude::*;
use vstd::string::StringExecFns;

verus! {

/// Why the store refused a write.
#[derive(Clone, Copy, Debug, PartialEq, Eq, Structural)]
pub enum StoreError {
    /// The payload has an empty name or no members.
    InvalidInput,
    /// Every identifier the store can assign has been used.
    Exhausted,
}

/// What an operation reports to its caller when it cannot do what was asked.
#[derive(Debug, PartialEq, Eq)]
pub enum AppError {
    /// The chat does not exist, or the acting user did not create it; the text names
    /// the chat.
    NotFound(String),
    /// The payload was refused.
    InvalidInput,
    /// The store failed; nothing of the failure shows.
    Internal,
}

impl Clone for AppError {
    fn clone(&self) -> (copy: Self)
        ensures
            copy == *self,
    {
        match self {
            AppError::NotFound(text) => AppError::NotFound(text.clone()),
            AppError::InvalidInput => AppError::InvalidInput,
            AppError::Internal => AppError::Internal,
        }
    }
}

impl AppError {
    /// The error under which a refusal of the store is reported.
    pub open spec fn of_store(error: StoreError) -> AppError {
        match error {
            StoreError::InvalidInput => AppError::InvalidInput,
            StoreError::Exhausted => AppError::Internal,
        }
    }

    /// Whether this is the error for the absent chat `id`, with the text that names it.
    pub open spec fn is_not_found(self, id: u64) -> bool {
        match self {
            AppError::NotFound(text) => text@ == not_found_text(id),
            _ => false,
        }
    }

    /// The status under which an error is reported.
    pub open spec fn status_of(self) -> u16 {
        match self {
            AppError::NotFound(_) => STATUS_NOT_FOUND,
            AppError::InvalidInput => STATUS_BAD_REQUEST,
            AppError::Internal => STATUS_INTERNAL,
        }
    }

    /// The text that goes with an error: for an absent chat the text that names it, for
    /// the others a fixed phrase that shows nothing of the store.
    pub open spec fn message_of(self) -> Seq<char> {
        match self {
            AppError::NotFound(text) => text@,
            AppError::InvalidInput => "invalid chat input"@,
            AppError::Internal => "internal server error"@,
        }
    }

    /// The error for the absent chat `id`.
    pub fn not_found(id: u64) -> (error: AppError)
        ensures
            error.is_not_found(id),
    {
        AppError::NotFound(render_not_found(id))
    }

    /// Reports a refusal of the store: a refused payload as such, anything else as an
    /// internal failure.
    pub fn from_store(error: StoreError) -> (reported: AppError)
        ensures
            reported == AppError::of_store(error),
    {
        match error {
            StoreError::InvalidInput => AppError::InvalidInput,
            StoreError::Exhausted => AppError::Internal,
        }
    }

    /// The status under which this error is reported.
    pub fn status(&self) -> (code: u16)
        ensures
            code == self.status_of(),
    {
        match self {
            AppError::NotFound(_) => STATUS_NOT_FOUND,
            AppError::InvalidInput => STATUS_BAD_REQUEST,
            AppError::Internal => STATUS_INTERNAL,
        }
    }

    /// The text that goes with this error.
    pub fn message(&self) -> (text: String)
        ensures
            text@ == self.message_of(),
    {
        match self {
            AppError::NotFound(text) => text.clone(),
            AppError::InvalidInput => String::from_str("invalid chat input"),
            AppError::Internal => String::from_str("internal server error"),
        }
    }
}

} // verus!
