//! The accounts a request supplies, as this core sees them.
//!
//! A request arrives with the signing owner's account and the holding
//! account it claims to be the owner's vault. Each carries the attributes
//! the core reads: the balance the host ledger reports, the mutability
//! flags of the transaction, and, for the signer, whether the host's
//! signature-verification layer proved authorization.

use vstd::prelude::*;

use crate::identity::{Address, OwnerIdentity};

verus! {

/// The owner's own account as supplied with a request.
pub struct SignerAccount {
    /// The owner's public identifier, which is also this account's address.
    pub owner: OwnerIdentity,
    /// Whether the host verified the owner's signature over this request.
    pub is_signer: bool,
    /// Whether the transaction marked this account mutable.
    pub is_writable: bool,
    /// The account's balance on the host ledger, in value units.
    pub balance: u64,
}

/// The derived account that custodies deposited value, as supplied with a
/// request. It carries no payload beyond its balance; whether its address
/// really is the owner's derived address is what validation checks.
pub struct HoldingAccount {
    /// The address the request claims for the owner's vault.
    pub address: Address,
    /// Whether the transaction marked this account mutable.
    pub is_writable: bool,
    /// The account's balance on the host ledger, in value units.
    pub balance: u64,
}

/// The pair of accounts every deposit or withdrawal operates on.
pub struct VaultAction {
    pub signer: SignerAccount,
    pub vault: HoldingAccount,
}

impl VaultAction {
    /// Well-formedness: both identifiers have their full length.
    pub open spec fn wf(&self) -> bool {
        self.signer.owner.wf() && self.vault.address.wf()
    }
}

/// Everything but the two balances is left untouched by an operation.
pub open spec fn same_shape(a: VaultAction, b: VaultAction) -> bool {
    &&& b.signer.owner == a.signer.owner
    &&& b.signer.is_signer == a.signer.is_signer
    &&& b.signer.is_writable == a.signer.is_writable
    &&& b.vault.address == a.vault.address
    &&& b.vault.is_writable == a.vault.is_writable
}

} // verus!
