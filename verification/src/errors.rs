//! Failure taxonomy of the coordinator.
//!
//! Callers distinguish failures by category, never by parsing text.

use vstd::prelude::*;

verus! {

/// The categories in which an operation of this library can fail.
#[derive(Debug, Clone, Copy, PartialEq, Eq, Structural)]
pub enum CoreError {
    /// No session or runtime exists yet; the caller must configure first.
    NotInitialized,
    /// A session exists but holds no valid credential; the caller must sign in.
    NotAuthenticated,
    /// An operation referenced a room identifier that is not registered.
    RoomNotFound,
    /// The protocol engine rejected an operation (network, permission or
    /// remote-state error). Never retried automatically by this library.
    ProtocolFailure,
    /// An identifier or query failed local validation before any remote call.
    MalformedInput,
}

impl CoreError {
    /// A human-readable description of the failure category.
    pub fn message(&self) -> (r: String)
        ensures
            r@ == self.message_spec(),
    {
        match self {
            CoreError::NotInitialized => String::from_str("not initialized"),
            CoreError::NotAuthenticated => String::from_str("not authenticated"),
            CoreError::RoomNotFound => String::from_str("room not found"),
            CoreError::ProtocolFailure => String::from_str("protocol failure"),
            CoreError::MalformedInput => String::from_str("malformed input"),
        }
    }

    /// What `message` returns for each category.
    pub open spec fn message_spec(self) -> Seq<char> {
        match self {
            CoreError::NotInitialized => "not initialized"@,
            CoreError::NotAuthenticated => "not authenticated"@,
            CoreError::RoomNotFound => "room not found"@,
            CoreError::ProtocolFailure => "protocol failure"@,
            CoreError::MalformedInput => "malformed input"@,
        }
    }
}

} // verus!
