use anchor_vault::{
    DerivationConfig, HoldingAccount, OwnerIdentity, RequestError, SignerAccount, TransferError,
    ValidationError, VaultAction, VaultError, VaultState,
};

const MINIMUM_RESERVE: u64 = 890_880;

fn config() -> DerivationConfig {
    DerivationConfig {
        domain_tag: b"vault".to_vec(),
        program_id: vec![7u8; 32],
    }
}

fn owner_bytes(tag: u8) -> Vec<u8> {
    vec![tag; 32]
}

fn derived_vault(owner: &[u8]) -> (Vec<u8>, u8) {
    let cfg = config();
    let identity = OwnerIdentity {
        bytes: owner.to_vec(),
    };
    let (address, bump) =
        anchor_vault::derivation::derive(&cfg, &identity).expect("derivation should find a bump");
    (address.bytes, bump)
}

fn action_for(owner: &[u8], signer_balance: u64, vault_balance: u64) -> VaultAction {
    let (vault_address, _) = derived_vault(owner);
    VaultAction {
        signer: SignerAccount {
            owner: OwnerIdentity {
                bytes: owner.to_vec(),
            },
            is_signer: true,
            is_writable: true,
            balance: signer_balance,
        },
        vault: HoldingAccount {
            address: anchor_vault::Address {
                bytes: vault_address,
            },
            is_writable: true,
            balance: vault_balance,
        },
    }
}

#[test]
fn derivation_is_deterministic() {
    let owner = owner_bytes(1);
    let (address_a, bump_a) = derived_vault(&owner);
    let (address_b, bump_b) = derived_vault(&owner);
    assert_eq!(address_a, address_b);
    assert_eq!(bump_a, bump_b);
}

#[test]
fn derivation_does_not_echo_its_inputs() {
    let owner = owner_bytes(1);
    let (address, _) = derived_vault(&owner);
    assert_eq!(address.len(), 32);
    assert_ne!(address, owner);
    assert_ne!(address, config().program_id);
    assert_ne!(address, config().domain_tag);
}

#[test]
fn distinct_owners_get_distinct_addresses() {
    let (address_a, _) = derived_vault(&owner_bytes(1));
    let (address_b, _) = derived_vault(&owner_bytes(2));
    assert_ne!(address_a, address_b);
}

#[test]
fn deposit_withdraw_scenario() {
    let cfg = config();
    let owner = owner_bytes(9);
    let mut action = action_for(&owner, 3_000_000, 0);

    let r = anchor_vault::process_deposit(&cfg, &mut action, MINIMUM_RESERVE, 1_000_000);
    assert_eq!(r, Ok(()));
    assert_eq!(action.vault.balance, 1_000_000);
    assert_eq!(action.signer.balance, 2_000_000);

    let r = anchor_vault::process_deposit(&cfg, &mut action, MINIMUM_RESERVE, 1_000_000);
    assert_eq!(
        r,
        Err(RequestError::Vault(VaultError::VaultAlreadyExists))
    );
    assert_eq!(action.vault.balance, 1_000_000);
    assert_eq!(action.signer.balance, 2_000_000);

    let r = anchor_vault::process_withdraw(&cfg, &mut action);
    assert_eq!(r, Ok(()));
    assert_eq!(action.vault.balance, 0);
    assert_eq!(action.signer.balance, 3_000_000);

    let r = anchor_vault::process_withdraw(&cfg, &mut action);
    assert_eq!(r, Err(RequestError::Vault(VaultError::InvalidAmount)));

    let r = anchor_vault::process_deposit(&cfg, &mut action, MINIMUM_RESERVE, 500_000);
    assert_eq!(r, Err(RequestError::Vault(VaultError::InvalidAmount)));
    assert_eq!(action.vault.balance, 0);
    assert_eq!(action.signer.balance, 3_000_000);
}

#[test]
fn deposit_exactly_at_reserve_is_rejected() {
    let cfg = config();
    let mut action = action_for(&owner_bytes(3), 2_000_000, 0);
    let r = anchor_vault::process_deposit(&cfg, &mut action, MINIMUM_RESERVE, MINIMUM_RESERVE);
    assert_eq!(r, Err(RequestError::Vault(VaultError::InvalidAmount)));
    assert_eq!(action.vault.balance, 0);
}

#[test]
fn deposit_just_above_reserve_succeeds() {
    let cfg = config();
    let mut action = action_for(&owner_bytes(3), 2_000_000, 0);
    let r = anchor_vault::process_deposit(&cfg, &mut action, MINIMUM_RESERVE, MINIMUM_RESERVE + 1);
    assert_eq!(r, Ok(()));
    assert_eq!(action.vault.balance, MINIMUM_RESERVE + 1);
}

#[test]
fn round_trip_restores_owner_balance() {
    let cfg = config();
    let mut action = action_for(&owner_bytes(4), 5_000_000, 0);
    assert_eq!(
        anchor_vault::process_deposit(&cfg, &mut action, MINIMUM_RESERVE, 4_000_000),
        Ok(())
    );
    assert_eq!(anchor_vault::process_withdraw(&cfg, &mut action), Ok(()));
    assert_eq!(action.signer.balance, 5_000_000);
    assert_eq!(action.vault.balance, 0);
}

#[test]
fn substituted_holding_account_is_rejected() {
    let cfg = config();
    let owner = owner_bytes(5);
    let stranger = owner_bytes(6);
    // The stranger's derived account, even holding value, is not the
    // owner's vault.
    let (stranger_vault, _) = derived_vault(&stranger);
    let mut action = action_for(&owner, 2_000_000, 0);
    action.vault.address.bytes = stranger_vault;
    action.vault.balance = 9_000_000;
    let r = anchor_vault::process_withdraw(&cfg, &mut action);
    assert_eq!(
        r,
        Err(RequestError::Validation(ValidationError::AddressMismatch))
    );
    assert_eq!(action.vault.balance, 9_000_000);
    assert_eq!(action.signer.balance, 2_000_000);
}

#[test]
fn tampered_address_is_rejected() {
    let cfg = config();
    let mut action = action_for(&owner_bytes(5), 2_000_000, 0);
    action.vault.address.bytes[0] = action.vault.address.bytes[0].wrapping_add(1);
    let r = anchor_vault::process_deposit(&cfg, &mut action, MINIMUM_RESERVE, 1_000_000);
    assert_eq!(
        r,
        Err(RequestError::Validation(ValidationError::AddressMismatch))
    );
}

#[test]
fn missing_signature_is_rejected() {
    let cfg = config();
    let mut action = action_for(&owner_bytes(5), 2_000_000, 0);
    action.signer.is_signer = false;
    let r = anchor_vault::process_deposit(&cfg, &mut action, MINIMUM_RESERVE, 1_000_000);
    assert_eq!(
        r,
        Err(RequestError::Validation(ValidationError::MissingSignature))
    );
}

#[test]
fn immutable_signer_is_rejected() {
    let cfg = config();
    let mut action = action_for(&owner_bytes(5), 2_000_000, 0);
    action.signer.is_writable = false;
    let r = anchor_vault::process_deposit(&cfg, &mut action, MINIMUM_RESERVE, 1_000_000);
    assert_eq!(
        r,
        Err(RequestError::Validation(ValidationError::SignerNotWritable))
    );
}

#[test]
fn immutable_holding_account_is_rejected() {
    let cfg = config();
    let mut action = action_for(&owner_bytes(5), 2_000_000, 0);
    action.vault.is_writable = false;
    let r = anchor_vault::process_withdraw(&cfg, &mut action);
    assert_eq!(
        r,
        Err(RequestError::Validation(ValidationError::HoldingNotWritable))
    );
}

#[test]
fn underfunded_owner_cannot_deposit() {
    let cfg = config();
    let mut action = action_for(&owner_bytes(8), 900_000, 0);
    let r = anchor_vault::process_deposit(&cfg, &mut action, MINIMUM_RESERVE, 1_000_000);
    assert_eq!(
        r,
        Err(RequestError::Transfer(TransferError::InsufficientFunds))
    );
    assert_eq!(action.signer.balance, 900_000);
    assert_eq!(action.vault.balance, 0);
}

#[test]
fn withdraw_that_would_overflow_owner_is_refused() {
    let cfg = config();
    let mut action = action_for(&owner_bytes(8), u64::MAX, 1);
    let r = anchor_vault::process_withdraw(&cfg, &mut action);
    assert_eq!(
        r,
        Err(RequestError::Transfer(TransferError::BalanceOverflow))
    );
    assert_eq!(action.signer.balance, u64::MAX);
    assert_eq!(action.vault.balance, 1);
}

#[test]
fn unauthorized_transfer_is_refused() {
    let cfg = config();
    let owner = owner_bytes(2);
    let mut action = action_for(&owner, 1_000, 500);
    // The holding account cannot sign, so a direct signature never
    // authorizes a move out of it.
    let r = anchor_vault::engine::transfer(
        &cfg,
        &mut action,
        anchor_vault::TransferDirection::ToOwner,
        500,
        &anchor_vault::Authorization::DirectSignature,
    );
    assert_eq!(r, Err(TransferError::Unauthorized));
    assert_eq!(action.vault.balance, 500);

    // A derivation proof with the wrong bump does not re-derive the
    // holding address either.
    let (_, bump) = derived_vault(&owner);
    let bad_proof = anchor_vault::DerivationProof {
        domain_tag: b"vault".to_vec(),
        owner: OwnerIdentity {
            bytes: owner.clone(),
        },
        bump: bump.wrapping_add(1),
    };
    let r = anchor_vault::engine::transfer(
        &cfg,
        &mut action,
        anchor_vault::TransferDirection::ToOwner,
        500,
        &anchor_vault::Authorization::DerivationProof(bad_proof),
    );
    assert_eq!(r, Err(TransferError::Unauthorized));
    assert_eq!(action.vault.balance, 500);

    // The correct proof authorizes the move.
    let good_proof = anchor_vault::DerivationProof {
        domain_tag: b"vault".to_vec(),
        owner: OwnerIdentity { bytes: owner },
        bump,
    };
    let r = anchor_vault::engine::transfer(
        &cfg,
        &mut action,
        anchor_vault::TransferDirection::ToOwner,
        500,
        &anchor_vault::Authorization::DerivationProof(good_proof),
    );
    assert_eq!(r, Ok(()));
    assert_eq!(action.vault.balance, 0);
    assert_eq!(action.signer.balance, 1_500);
}

#[test]
fn vault_state_follows_balance() {
    assert_eq!(anchor_vault::vault::vault_state(0), VaultState::Empty);
    assert_eq!(anchor_vault::vault::vault_state(5), VaultState::Funded);
}
