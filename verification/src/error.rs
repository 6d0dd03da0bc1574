//! The reasons for which the store turns a request down.

use vstd::prelude::*;
use vstd::string::StringExecFns;

verus! {

/// Why a request was rejected.
#[derive(Clone, Copy, Debug, PartialEq, Eq, Structural)]
pub enum ErrorCode {
    /// The topic has more than 50 characters.
    TopicTooLong,
    /// The content has more than 280 characters.
    ContentTooLong,
    /// The requester is not the author of the record.
    Unauthorized,
}

impl ErrorCode {
    /// The text shown to a user for this error.
    pub open spec fn message_text(self) -> Seq<char> {
        match self {
            ErrorCode::TopicTooLong => "The provided topic should be 50 characters long maximum."@,
            ErrorCode::ContentTooLong =>
                "The provided content should be 280 characters long maximum."@,
            ErrorCode::Unauthorized => "You have to be the author to update a tweet."@,
        }
    }

    /// The text shown to a user for this error.
    pub fn message(&self) -> (text: String)
        ensures
            text@ == self.message_text(),
    {
        match self {
            ErrorCode::TopicTooLong => String::from_str(
                "The provided topic should be 50 characters long maximum.",
            ),
            ErrorCode::ContentTooLong => String::from_str(
                "The provided content should be 280 characters long maximum.",
            ),
            ErrorCode::Unauthorized => String::from_str(
                "You have to be the author to update a tweet.",
            ),
        }
    }
}

/// Why a request to store a new record did not complete.
#[derive(Clone, Copy, Debug, PartialEq, Eq, Structural)]
pub enum SendTweetError {
    /// The host did not tell the time, so the record could not be stamped.
    ClockUnavailable,
    /// The request broke a rule of the store.
    Rejected(ErrorCode),
}

} // verus!
