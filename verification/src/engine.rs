//! The transfer engine: the one place a balance moves.
//!
//! Each move is authorized either by the source account's own signature
//! (a deposit, where the owner is an active party) or by re-presenting the
//! derivation seeds as a substitute signature (a withdrawal, where the
//! source is a derived address that cannot sign). The engine re-derives
//! the address from the presented seeds before it accepts them, and moves
//! value only when the source covers the amount and the destination can
//! take it.

use vstd::prelude::*;

use crate::accounts::{same_shape, VaultAction};
use crate::derivation::{derived_address, DerivationConfig};
use crate::errors::TransferError;
use crate::identity::{bytes_eq, OwnerIdentity};

verus! {

/// The seed tuple that substitutes for a signature when authorizing a
/// transfer out of a derived address.
pub struct DerivationProof {
    pub domain_tag: Vec<u8>,
    pub owner: OwnerIdentity,
    pub bump: u8,
}

/// How a transfer is authorized.
pub enum Authorization {
    /// The source account itself signed the request.
    DirectSignature,
    /// The derivation seeds are re-presented in place of a signature.
    DerivationProof(DerivationProof),
}

/// Which way value moves between the two supplied accounts.
#[derive(Clone, Copy, Debug, PartialEq, Eq, Structural)]
pub enum TransferDirection {
    /// From the owner's account into the holding account (deposit).
    ToVault,
    /// From the holding account back to the owner (withdrawal).
    ToOwner,
}

/// The address of the account value leaves.
pub open spec fn spec_source_address(action: VaultAction, direction: TransferDirection) -> Seq<
    u8,
> {
    match direction {
        TransferDirection::ToVault => action.signer.owner@,
        TransferDirection::ToOwner => action.vault.address@,
    }
}

/// Whether the account value leaves has itself signed the request. A
/// holding account is a derived, non-signable address, so it never has.
pub open spec fn spec_source_signed(action: VaultAction, direction: TransferDirection) -> bool {
    match direction {
        TransferDirection::ToVault => action.signer.is_signer,
        TransferDirection::ToOwner => false,
    }
}

/// The balance of the account value leaves.
pub open spec fn spec_from_balance(action: VaultAction, direction: TransferDirection) -> u64 {
    match direction {
        TransferDirection::ToVault => action.signer.balance,
        TransferDirection::ToOwner => action.vault.balance,
    }
}

/// The balance of the account value reaches.
pub open spec fn spec_to_balance(action: VaultAction, direction: TransferDirection) -> u64 {
    match direction {
        TransferDirection::ToVault => action.vault.balance,
        TransferDirection::ToOwner => action.signer.balance,
    }
}

/// Whether the presented authorization covers a move out of the source
/// account: a direct signature must come from the source itself, and a
/// derivation proof must re-derive exactly the source address with
/// exactly the presented bump.
pub open spec fn spec_authorized(
    config: DerivationConfig,
    action: VaultAction,
    direction: TransferDirection,
    authorization: Authorization,
) -> bool {
    match authorization {
        Authorization::DirectSignature => spec_source_signed(action, direction),
        Authorization::DerivationProof(p) => derived_address(
            p.domain_tag@,
            p.owner@,
            config.program_id@,
        ) == Some((spec_source_address(action, direction), p.bump)),
    }
}

/// Decides whether the presented authorization covers the move.
fn check_authorization(
    config: &DerivationConfig,
    action: &VaultAction,
    direction: TransferDirection,
    authorization: &Authorization,
) -> (r: bool)
    requires
        config.wf(),
    ensures
        r == spec_authorized(*config, *action, direction, *authorization),
{
    match authorization {
        Authorization::DirectSignature => {
            match direction {
                TransferDirection::ToVault => action.signer.is_signer,
                TransferDirection::ToOwner => false,
            }
        },
        Authorization::DerivationProof(p) => {
            match crate::derivation::find_holding_address(
                &p.domain_tag,
                &p.owner.bytes,
                &config.program_id,
            ) {
                Some((address, bump)) => {
                    let source: &Vec<u8> = match direction {
                        TransferDirection::ToVault => &action.signer.owner.bytes,
                        TransferDirection::ToOwner => &action.vault.address.bytes,
                    };
                    bytes_eq(&address, source) && bump == p.bump
                },
                None => false,
            }
        },
    }
}

/// Moves `amount` units between the two supplied accounts.
///
/// Succeeds exactly when the authorization covers the source, the source
/// balance covers the amount, and the destination balance can take it;
/// on failure nothing changes.
pub fn transfer(
    config: &DerivationConfig,
    action: &mut VaultAction,
    direction: TransferDirection,
    amount: u64,
    authorization: &Authorization,
) -> (r: Result<(), TransferError>)
    requires
        config.wf(),
    ensures
        r is Ok <==> spec_authorized(*config, *old(action), direction, *authorization)
            && spec_from_balance(*old(action), direction) >= amount && spec_to_balance(
            *old(action),
            direction,
        ) + amount <= u64::MAX,
        !spec_authorized(*config, *old(action), direction, *authorization) ==> r == Err::<
            (),
            TransferError,
        >(TransferError::Unauthorized),
        spec_authorized(*config, *old(action), direction, *authorization) && spec_from_balance(
            *old(action),
            direction,
        ) < amount ==> r == Err::<(), TransferError>(TransferError::InsufficientFunds),
        spec_authorized(*config, *old(action), direction, *authorization) && spec_from_balance(
            *old(action),
            direction,
        ) >= amount && spec_to_balance(*old(action), direction) + amount > u64::MAX ==> r == Err::<
            (),
            TransferError,
        >(TransferError::BalanceOverflow),
        r is Ok ==> spec_from_balance(*final(action), direction) == spec_from_balance(
            *old(action),
            direction,
        ) - amount && spec_to_balance(*final(action), direction) == spec_to_balance(
            *old(action),
            direction,
        ) + amount,
        r is Err ==> *final(action) == *old(action),
        same_shape(*old(action), *final(action)),
{
    if !check_authorization(config, action, direction, authorization) {
        return Err(TransferError::Unauthorized);
    }
    match direction {
        TransferDirection::ToVault => {
            if action.signer.balance < amount {
                return Err(TransferError::InsufficientFunds);
            }
            if amount > u64::MAX - action.vault.balance {
                return Err(TransferError::BalanceOverflow);
            }
            action.signer.balance = action.signer.balance - amount;
            action.vault.balance = action.vault.balance + amount;
            Ok(())
        },
        TransferDirection::ToOwner => {
            if action.vault.balance < amount {
                return Err(TransferError::InsufficientFunds);
            }
            if amount > u64::MAX - action.signer.balance {
                return Err(TransferError::BalanceOverflow);
            }
            action.vault.balance = action.vault.balance - amount;
            action.signer.balance = action.signer.balance + amount;
            Ok(())
        },
    }
}

} // verus!
