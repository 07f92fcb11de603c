//! A minimal single-owner custodial vault.
//!
//! An owner identity deposits native value into a holding account whose
//! address is derived deterministically from the owner's identity and a
//! domain-separation tag, and later withdraws the entire balance back to
//! itself. This crate verifies the address-derivation and authorization
//! scheme together with the two-state deposit/withdraw transfer protocol;
//! the host ledger that actually stores balances and executes transactions
//! is an external collaborator, modeled here by the balances the request
//! supplies.

pub mod accounts;
pub mod derivation;
pub mod engine;
pub mod errors;
pub mod identity;
pub mod validator;
pub mod vault;

pub use accounts::{HoldingAccount, SignerAccount, VaultAction};
pub use derivation::DerivationConfig;
pub use engine::{Authorization, DerivationProof, TransferDirection};
pub use errors::{OperationError, RequestError, TransferError, ValidationError, VaultError};
pub use identity::{Address, OwnerIdentity};
pub use validator::validate;
pub use vault::{deposit, process_deposit, process_withdraw, withdraw, VaultState};
