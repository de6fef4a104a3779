use vstd::prelude::*;
use crate::amount::Amount;

verus! {

/// Lets `std::io::Error` stand in the variants of `CommandError`; it is only
/// carried, never looked into.
#[verifier::external_type_specification]
#[verifier::external_body]
pub struct ExIoError(std::io::Error);

/// The field of a transaction record that a column holds.
#[derive(Debug, Clone, Copy, PartialEq, Eq, Structural)]
pub enum RecordField {
    Sender,
    Receiver,
    Value,
}

/// Why a table could not be decoded into transaction records. Rows are
/// counted from zero, after the header line.
#[derive(Debug, Clone, PartialEq, Eq)]
pub enum RecordDecodeError {
    /// The csv reader refused the text.
    MalformedTable,
    /// No header names the column; reported at the first row.
    MissingColumn { row: usize, column: RecordField },
    /// The row does not have as many fields as the header line.
    FieldCount { row: usize, expected: usize, found: usize },
    /// The value field of the row is not a number.
    InvalidValue { row: usize, field: String },
}

/// Errors that can occur when resolving the position of an address.
#[derive(Debug, Clone)]
pub enum AddressPositionError {
    /// The address occurs, if at all, never together with the value.
    NoMatchingIndexForValue(String, Amount),
    /// No row holds the address.
    NoMatchingAddress(String),
    /// A paired scan over two columns found no row where both match.
    NoMatchingIndices { address: String, value: Amount },
    /// The two columns of a paired scan differ in length.
    MisalignedColumns { first_len: usize, second_len: usize },
    /// The table could not be decoded.
    Decode(RecordDecodeError),
}

/// Errors that can occur while executing a command in another directory.
#[derive(Debug)]
pub enum CommandError {
    /// Setting the directory for the command failed.
    SetDirError(std::io::Error),
    /// Running the command failed.
    CommandError(std::io::Error),
    /// Going back to the starting directory failed.
    ResetDirError(std::io::Error),
}

impl CommandError {
    /// The underlying I/O error, whatever the stage.
    pub fn source(&self) -> (r: &std::io::Error)
        ensures
            match self {
                CommandError::SetDirError(e) => r == e,
                CommandError::CommandError(e) => r == e,
                CommandError::ResetDirError(e) => r == e,
            },
    {
        match self {
            CommandError::SetDirError(e) => e,
            CommandError::CommandError(e) => e,
            CommandError::ResetDirError(e) => e,
        }
    }
}

impl From<std::io::Error> for CommandError {
    fn from(error: std::io::Error) -> (r: CommandError)
        ensures
            r == CommandError::CommandError(error),
    {
        CommandError::CommandError(error)
    }
}

impl vstd::std_specs::convert::FromSpecImpl<std::io::Error> for CommandError {
    open spec fn obeys_from_spec() -> bool {
        true
    }

    open spec fn from_spec(v: std::io::Error) -> CommandError {
        CommandError::CommandError(v)
    }
}

} // verus!
