use vstd::prelude::*;

verus! {

/// The ways an operation of the ledger can fail.
#[derive(Clone, Copy, Debug, PartialEq, Eq, Structural)]
pub enum LedgerError {
    /// A participant that must authorize the operation did not sign it.
    MissingSignature,
    /// The acting identity is not one of the privileged identities.
    Unauthorized,
    /// A record buffer is too short, or a declared length runs past it.
    MalformedData,
    /// The requested amount exceeds the available balance.
    InsufficientFunds,
    /// The record is in the wrong lifecycle state for the operation.
    InvalidState,
    /// The external value-transfer collaborator reported failure.
    TransferFailed,
    /// An account passed in is not the expected one.
    InvalidAccount,
    /// An instruction payload has an unknown tag or is too short.
    InvalidInstruction,
}

impl LedgerError {
    /// A human-readable description of the error.
    pub fn message(&self) -> &'static str {
        match self {
            LedgerError::MissingSignature => "missing required signature",
            LedgerError::Unauthorized => "identity is not authorized for this operation",
            LedgerError::MalformedData => "malformed record data",
            LedgerError::InsufficientFunds => "insufficient funds",
            LedgerError::InvalidState => "record is in the wrong state for this operation",
            LedgerError::TransferFailed => "value transfer failed",
            LedgerError::InvalidAccount => "invalid account",
            LedgerError::InvalidInstruction => "invalid instruction data",
        }
    }
}

} // verus!
