use vstd::prelude::*;

verus! {

/// Why an escrow operation was refused. A refusal leaves every account unchanged.
#[derive(Clone, Copy, Debug, PartialEq, Eq, Structural)]
pub enum EscrowError {
    /// The operation was addressed to another program.
    IncorrectProgramId,
    /// The operation tag is missing or unknown.
    InvalidOperation,
    /// The payload of an Open does not decode.
    MalformedPayload,
    /// The handle list does not have the length the operation asks for.
    MissingHandles,
    /// A supplied escrow or vault address differs from its derivation.
    AddressMismatch,
    /// A supplied asset identity differs from the one the record holds.
    AssetMismatch,
    /// The asset custodian is not one of the recognized token programs.
    UnsupportedCustodian,
    /// A required signature is absent.
    Unauthorized,
    /// The escrow slot is empty or not owned by this program.
    RecordNotFound,
    /// The escrow slot is owned by this program but has the wrong size.
    InvalidRecord,
    /// A vault or mint account does not hold valid token data.
    InvalidAccountData,
    /// No bump makes the derivation succeed.
    DerivationFailed,
}

} // verus!
