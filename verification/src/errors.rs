//! The rejection reasons a request can end with.

use vstd::prelude::*;

verus! {

/// The two user-facing rejection reasons of the vault itself.
///
/// Both report a violated precondition of the current state, never a
/// transient fault, so a caller must change its request to succeed.
#[derive(Clone, Copy, Debug, PartialEq, Eq, Structural)]
pub enum VaultError {
    /// A deposit was attempted while the holding account is already funded.
    VaultAlreadyExists,
    /// A deposit amount did not clear the minimum reserve, or a withdrawal
    /// found the holding account empty.
    InvalidAmount,
}

/// Structural rejections raised while checking the supplied accounts,
/// before any guard of the vault itself runs.
#[derive(Clone, Copy, Debug, PartialEq, Eq, Structural)]
pub enum ValidationError {
    /// The signer account has not proven authorization over the request.
    MissingSignature,
    /// The signer account is not marked mutable.
    SignerNotWritable,
    /// The holding account is not marked mutable.
    HoldingNotWritable,
    /// The derivation search found no valid address for this owner.
    DerivationUnavailable,
    /// The supplied holding account is not the derived address of the owner.
    AddressMismatch,
}

/// Failures of the modeled ledger transfer primitive.
#[derive(Clone, Copy, Debug, PartialEq, Eq, Structural)]
pub enum TransferError {
    /// Neither a signature of the source account nor a correct derivation
    /// proof authorized the move.
    Unauthorized,
    /// The source account holds less than the requested amount.
    InsufficientFunds,
    /// The destination balance cannot take the amount without overflowing.
    BalanceOverflow,
}

/// The outcome of one state-machine operation run on validated accounts.
#[derive(Clone, Copy, Debug, PartialEq, Eq, Structural)]
pub enum OperationError {
    /// A guard of the vault rejected the request.
    Vault(VaultError),
    /// The ledger transfer itself was refused.
    Transfer(TransferError),
}

/// The outcome of a full request, validation included.
#[derive(Clone, Copy, Debug, PartialEq, Eq, Structural)]
pub enum RequestError {
    /// The supplied accounts failed validation.
    Validation(ValidationError),
    /// A guard of the vault rejected the request.
    Vault(VaultError),
    /// The ledger transfer itself was refused.
    Transfer(TransferError),
}

} // verus!
