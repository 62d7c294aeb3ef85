//! The failures that the operations of this crate report.

use vstd::prelude::*;

verus! {

/// Why an operation refused its input.
#[derive(Clone, Copy, Debug, PartialEq, Eq, Structural)]
pub enum LedgerError {
    /// The text is not well-formed base58 or base64.
    InvalidEncoding,
    /// The decoded bytes do not have the fixed size of a key, a secret or a
    /// signature.
    InvalidLength,
    /// The bytes have the right size but a builder rejects them.
    InvalidPubkey,
    /// The key material cannot be signed with.
    SigningFailure,
    /// A required text field is empty.
    MissingField,
}

impl LedgerError {
    /// The message that a response carries for this error.
    pub fn message(&self) -> (text: String)
        ensures
            text@ == self.message_text(),
    {
        match self {
            LedgerError::InvalidEncoding => "Invalid encoding".to_owned(),
            LedgerError::InvalidLength => "Invalid length".to_owned(),
            LedgerError::InvalidPubkey => "Invalid public key".to_owned(),
            LedgerError::SigningFailure => "Signing failed".to_owned(),
            LedgerError::MissingField => "Missing required fields".to_owned(),
        }
    }

    /// The characters of `message`.
    pub open spec fn message_text(&self) -> Seq<char> {
        match self {
            LedgerError::InvalidEncoding => "Invalid encoding"@,
            LedgerError::InvalidLength => "Invalid length"@,
            LedgerError::InvalidPubkey => "Invalid public key"@,
            LedgerError::SigningFailure => "Signing failed"@,
            LedgerError::MissingField => "Missing required fields"@,
        }
    }
}

} // verus!
