//! The backend messages that a request's consumer reads.

use crate::types::Column;
use vstd::prelude::*;

verus! {

/// The field kind that carries the SQLSTATE code of an error: the letter `C`.
pub const CODE_FIELD: u8 = 67;

/// One field of an error report: its kind, a single byte, and its text.
#[derive(Debug)]
pub struct ErrorField {
    pub kind: u8,
    pub value: String,
}

/// A message from the backend, as far as a request's consumer tells messages apart.
#[derive(Debug)]
pub enum BackendMessage {
    BindComplete,
    /// One row: a value for each column, `None` for `NULL`.
    DataRow(Vec<Option<Vec<u8>>>),
    /// The end of a command, with the bytes of its tag.
    CommandComplete(Vec<u8>),
    EmptyQueryResponse,
    PortalSuspended,
    ErrorResponse(Vec<ErrorField>),
    /// A statement was parsed.
    ParseComplete,
    /// The types of a statement's parameters, by their object identifiers.
    ParameterDescription(Vec<u32>),
    /// The columns of a statement's rows.
    RowDescription(Vec<Column>),
    /// A statement gives no rows.
    NoData,
    /// Any other message.
    Other,
}

impl BackendMessage {
    /// Whether the message is the last one of a request that runs a
    /// statement: the end of a command, an empty query, a suspended
    /// portal, or an error.
    pub open spec fn spec_is_terminating(&self) -> bool {
        match *self {
            BackendMessage::CommandComplete(_) => true,
            BackendMessage::EmptyQueryResponse => true,
            BackendMessage::PortalSuspended => true,
            BackendMessage::ErrorResponse(_) => true,
            _ => false,
        }
    }

    /// Whether the message is the last one of a request that runs a statement.
    #[verifier::when_used_as_spec(spec_is_terminating)]
    pub fn is_terminating(&self) -> (last: bool)
        ensures
            last == self.spec_is_terminating(),
    {
        match self {
            BackendMessage::CommandComplete(_) => true,
            BackendMessage::EmptyQueryResponse => true,
            BackendMessage::PortalSuspended => true,
            BackendMessage::ErrorResponse(_) => true,
            _ => false,
        }
    }
}

} // verus!
