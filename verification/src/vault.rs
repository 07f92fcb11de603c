//! The vault state machine: the two guarded operations.
//!
//! A holding account is in one of two states: `Empty` (balance strictly
//! zero, no real ledger presence) or `Funded`. A deposit is the one-shot
//! transition `Empty -> Funded`: it rejects an already funded vault and an
//! amount that does not clear the host ledger's minimum reservation for a
//! zero-payload account, and otherwise moves the amount from the owner to
//! the holding account under the owner's own signature. A withdrawal is
//! the transition `Funded -> Empty`: it rejects an empty vault and
//! otherwise moves the entire balance back to the owner, authorized by
//! re-presenting the derivation seeds. Each operation either commits
//! whole or changes nothing.

use vstd::prelude::*;

use crate::accounts::{same_shape, HoldingAccount, SignerAccount, VaultAction};
use crate::derivation::DerivationConfig;
use crate::engine::{transfer, Authorization, DerivationProof, TransferDirection};
use crate::errors::{OperationError, RequestError, TransferError, ValidationError, VaultError};
use crate::identity::{copy_bytes, OwnerIdentity};
use crate::validator::{spec_validate, validate};

verus! {

/// The two states of a holding account.
#[derive(Clone, Copy, Debug, PartialEq, Eq, Structural)]
pub enum VaultState {
    /// Balance zero: the account has no real ledger presence yet.
    Empty,
    /// Balance nonzero: the account custodies the owner's deposit.
    Funded,
}

/// The state a balance puts the holding account in.
pub open spec fn spec_vault_state(balance: u64) -> VaultState {
    if balance == 0 {
        VaultState::Empty
    } else {
        VaultState::Funded
    }
}

/// Reads the state of a holding account off its balance.
pub fn vault_state(balance: u64) -> (s: VaultState)
    ensures
        s == spec_vault_state(balance),
{
    if balance == 0 {
        VaultState::Empty
    } else {
        VaultState::Funded
    }
}

/// What a deposit decides and does, on validated accounts: the outcome and
/// the accounts as the operation leaves them.
pub open spec fn spec_deposit(action: VaultAction, minimum_reserve: u64, amount: u64) -> (
    Result<(), OperationError>,
    VaultAction,
) {
    if action.vault.balance != 0 {
        (Err(OperationError::Vault(VaultError::VaultAlreadyExists)), action)
    } else if amount <= minimum_reserve {
        (Err(OperationError::Vault(VaultError::InvalidAmount)), action)
    } else if action.signer.balance < amount {
        (Err(OperationError::Transfer(TransferError::InsufficientFunds)), action)
    } else {
        (
            Ok(()),
            VaultAction {
                signer: SignerAccount {
                    balance: (action.signer.balance - amount) as u64,
                    ..action.signer
                },
                vault: HoldingAccount { balance: amount, ..action.vault },
            },
        )
    }
}

/// What a withdrawal decides and does, on validated accounts.
pub open spec fn spec_withdraw(action: VaultAction) -> (Result<(), OperationError>, VaultAction) {
    if action.vault.balance == 0 {
        (Err(OperationError::Vault(VaultError::InvalidAmount)), action)
    } else if action.signer.balance + action.vault.balance > u64::MAX {
        (Err(OperationError::Transfer(TransferError::BalanceOverflow)), action)
    } else {
        (
            Ok(()),
            VaultAction {
                signer: SignerAccount {
                    balance: (action.signer.balance + action.vault.balance) as u64,
                    ..action.signer
                },
                vault: HoldingAccount { balance: 0, ..action.vault },
            },
        )
    }
}

/// Deposits `amount` into the owner's empty holding account.
///
/// The accounts must have passed validation. The guards reject a funded
/// vault and an amount at or below the minimum reserve; past them, the
/// amount moves from the owner to the holding account under the owner's
/// own signature.
pub fn deposit(
    config: &DerivationConfig,
    action: &mut VaultAction,
    minimum_reserve: u64,
    amount: u64,
) -> (r: Result<(), OperationError>)
    requires
        config.wf(),
        spec_validate(*config, *old(action)) is Ok,
    ensures
        r == spec_deposit(*old(action), minimum_reserve, amount).0,
        *final(action) == spec_deposit(*old(action), minimum_reserve, amount).1,
        r is Ok <==> old(action).vault.balance == 0 && amount > minimum_reserve && old(
            action,
        ).signer.balance >= amount,
{
    if action.vault.balance != 0 {
        return Err(OperationError::Vault(VaultError::VaultAlreadyExists));
    }
    if amount <= minimum_reserve {
        return Err(OperationError::Vault(VaultError::InvalidAmount));
    }
    match transfer(config, action, TransferDirection::ToVault, amount, &Authorization::DirectSignature) {
        Ok(()) => Ok(()),
        Err(e) => Err(OperationError::Transfer(e)),
    }
}

/// Withdraws the entire balance of the owner's holding account back to the
/// owner.
///
/// The accounts must have passed validation, which returned the bump of
/// the derived address. The guard rejects an empty vault; past it, the
/// whole balance moves back to the owner, authorized by re-presenting the
/// derivation seeds in place of a signature.
pub fn withdraw(config: &DerivationConfig, action: &mut VaultAction, bump: u8) -> (r: Result<
    (),
    OperationError,
>)
    requires
        config.wf(),
        spec_validate(*config, *old(action)) == Ok::<u8, ValidationError>(bump),
    ensures
        r == spec_withdraw(*old(action)).0,
        *final(action) == spec_withdraw(*old(action)).1,
        r is Ok <==> old(action).vault.balance != 0 && old(action).signer.balance + old(
            action,
        ).vault.balance <= u64::MAX,
{
    if action.vault.balance == 0 {
        return Err(OperationError::Vault(VaultError::InvalidAmount));
    }
    let seeds = DerivationProof {
        domain_tag: copy_bytes(&config.domain_tag),
        owner: OwnerIdentity { bytes: copy_bytes(&action.signer.owner.bytes) },
        bump,
    };
    let amount = action.vault.balance;
    match transfer(
        config,
        action,
        TransferDirection::ToOwner,
        amount,
        &Authorization::DerivationProof(seeds),
    ) {
        Ok(()) => Ok(()),
        Err(e) => Err(OperationError::Transfer(e)),
    }
}

/// Lifts an operation outcome into a request outcome.
pub open spec fn spec_request_result(r: Result<(), OperationError>) -> Result<(), RequestError> {
    match r {
        Ok(()) => Ok(()),
        Err(OperationError::Vault(e)) => Err(RequestError::Vault(e)),
        Err(OperationError::Transfer(e)) => Err(RequestError::Transfer(e)),
    }
}

/// Runs a full deposit request: validation first, then the guarded
/// transition. On any rejection the accounts are left untouched.
pub fn process_deposit(
    config: &DerivationConfig,
    action: &mut VaultAction,
    minimum_reserve: u64,
    amount: u64,
) -> (r: Result<(), RequestError>)
    requires
        config.wf(),
    ensures
        spec_validate(*config, *old(action)) matches Err(e) ==> r == Err::<(), RequestError>(
            RequestError::Validation(e),
        ) && *final(action) == *old(action),
        spec_validate(*config, *old(action)) is Ok ==> r == spec_request_result(
            spec_deposit(*old(action), minimum_reserve, amount).0,
        ) && *final(action) == spec_deposit(*old(action), minimum_reserve, amount).1,
        r is Ok <==> spec_validate(*config, *old(action)) is Ok && old(action).vault.balance == 0
            && amount > minimum_reserve && old(action).signer.balance >= amount,
{
    match validate(config, action) {
        Err(e) => Err(RequestError::Validation(e)),
        Ok(_) => match deposit(config, action, minimum_reserve, amount) {
            Ok(()) => Ok(()),
            Err(OperationError::Vault(e)) => Err(RequestError::Vault(e)),
            Err(OperationError::Transfer(e)) => Err(RequestError::Transfer(e)),
        },
    }
}

/// Runs a full withdrawal request: validation first, then the guarded
/// transition. On any rejection the accounts are left untouched.
pub fn process_withdraw(config: &DerivationConfig, action: &mut VaultAction) -> (r: Result<
    (),
    RequestError,
>)
    requires
        config.wf(),
    ensures
        spec_validate(*config, *old(action)) matches Err(e) ==> r == Err::<(), RequestError>(
            RequestError::Validation(e),
        ) && *final(action) == *old(action),
        spec_validate(*config, *old(action)) is Ok ==> r == spec_request_result(
            spec_withdraw(*old(action)).0,
        ) && *final(action) == spec_withdraw(*old(action)).1,
        r is Ok <==> spec_validate(*config, *old(action)) is Ok && old(action).vault.balance != 0
            && old(action).signer.balance + old(action).vault.balance <= u64::MAX,
{
    match validate(config, action) {
        Err(e) => Err(RequestError::Validation(e)),
        Ok(bump) => match withdraw(config, action, bump) {
            Ok(()) => Ok(()),
            Err(OperationError::Vault(e)) => Err(RequestError::Vault(e)),
            Err(OperationError::Transfer(e)) => Err(RequestError::Transfer(e)),
        },
    }
}

/// One-shot deposit, empty side: into an empty vault, a deposit by an
/// owner whose balance covers the amount succeeds exactly when the amount
/// is strictly above the minimum reserve.
pub proof fn lemma_deposit_empty_iff(action: VaultAction, minimum_reserve: u64, amount: u64)
    requires
        action.vault.balance == 0,
        action.signer.balance >= amount,
    ensures
        spec_deposit(action, minimum_reserve, amount).0 is Ok <==> amount > minimum_reserve,
{
}

/// One-shot deposit, funded side: into a funded vault, a deposit always
/// fails with `VaultAlreadyExists`, regardless of the amount.
pub proof fn lemma_deposit_funded_rejected(action: VaultAction, minimum_reserve: u64, amount: u64)
    requires
        action.vault.balance != 0,
    ensures
        spec_deposit(action, minimum_reserve, amount).0 == Err::<(), OperationError>(
            OperationError::Vault(VaultError::VaultAlreadyExists),
        ),
{
}

/// Withdrawal from an empty vault always fails with `InvalidAmount`.
pub proof fn lemma_withdraw_empty_rejected(action: VaultAction)
    requires
        action.vault.balance == 0,
    ensures
        spec_withdraw(action).0 == Err::<(), OperationError>(
            OperationError::Vault(VaultError::InvalidAmount),
        ),
{
}

/// Withdrawal from a funded vault succeeds and drains the balance to
/// exactly zero, whenever the owner's balance can take the whole amount.
pub proof fn lemma_withdraw_funded_succeeds(action: VaultAction)
    requires
        action.vault.balance != 0,
        action.signer.balance + action.vault.balance <= u64::MAX,
    ensures
        spec_withdraw(action).0 is Ok,
        spec_withdraw(action).1.vault.balance == 0,
        spec_vault_state(spec_withdraw(action).1.vault.balance) == VaultState::Empty,
{
}

/// Reserve floor: a successful deposit always leaves the holding account
/// strictly above the minimum reserve, and a successful withdrawal leaves
/// it at exactly zero, so the balance never sits strictly between zero
/// and the reserve, where the host ledger could reclaim the account.
pub proof fn lemma_reserve_floor(action: VaultAction, minimum_reserve: u64, amount: u64)
    ensures
        spec_deposit(action, minimum_reserve, amount).0 is Ok ==> spec_deposit(
            action,
            minimum_reserve,
            amount,
        ).1.vault.balance > minimum_reserve,
        spec_withdraw(action).0 is Ok ==> spec_withdraw(action).1.vault.balance == 0,
{
}

/// Round trip: a deposit that succeeds, followed by a withdrawal, returns
/// the owner's balance to exactly its starting value (the model carries no
/// transaction fees) and leaves the holding account empty.
pub proof fn lemma_round_trip(action: VaultAction, minimum_reserve: u64, amount: u64)
    requires
        action.vault.balance == 0,
        amount > minimum_reserve,
        action.signer.balance >= amount,
    ensures
        ({
            let (deposit_result, after_deposit) = spec_deposit(action, minimum_reserve, amount);
            let (withdraw_result, after_withdraw) = spec_withdraw(after_deposit);
            &&& deposit_result is Ok
            &&& withdraw_result is Ok
            &&& after_withdraw.vault.balance == 0
            &&& after_withdraw.signer.balance == action.signer.balance
            &&& same_shape(action, after_withdraw)
        }),
{
}

} // verus!
