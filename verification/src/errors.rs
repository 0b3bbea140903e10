//! The error taxonomy of the lookup pipeline.

use vstd::prelude::*;

verus! {

/// Every way an invocation can fail. Each failure is terminal: the
/// caller prints the message and exits non-zero.
#[derive(Clone, Copy, Debug, PartialEq, Eq, Structural)]
pub enum OuiError {
    /// The command line did not hold exactly one positional argument.
    UsageError,
    /// The raw MAC address string was shorter than 12 or longer than 17
    /// characters.
    InvalidLength,
    /// The reference table could not be opened or read.
    TableUnavailable,
    /// A row of the reference table could not be tokenized into an OUI
    /// column and a vendor column.
    ParseError,
    /// The home-directory variable used to locate the table was unset.
    EnvError,
}

/// The human-readable message for each error.
pub open spec fn spec_message(e: OuiError) -> Seq<char> {
    match e {
        OuiError::UsageError => "OUI takes a single argument."@,
        OuiError::InvalidLength => "Invalid MAC Address."@,
        OuiError::TableUnavailable => "The OUI table could not be opened."@,
        OuiError::ParseError => "The OUI table holds a malformed row."@,
        OuiError::EnvError => "HOME is not set."@,
    }
}

impl OuiError {
    /// The message a caller prints to standard error.
    pub fn message(&self) -> (r: String)
        ensures
            r@ == spec_message(*self),
    {
        match self {
            OuiError::UsageError => String::from_str("OUI takes a single argument."),
            OuiError::InvalidLength => String::from_str("Invalid MAC Address."),
            OuiError::TableUnavailable => String::from_str("The OUI table could not be opened."),
            OuiError::ParseError => String::from_str("The OUI table holds a malformed row."),
            OuiError::EnvError => String::from_str("HOME is not set."),
        }
    }
}

} // verus!
