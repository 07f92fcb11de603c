//! Validation of the accounts supplied with a request.
//!
//! Before any balance change is attempted, the supplied accounts must pass
//! the structural and semantic checks: the signer has proven authorization
//! and is mutable, the holding account is mutable, and the holding
//! account's address equals the owner's derived address exactly. The last
//! check is the primary defense against redirecting funds to a substituted
//! account, and it is re-run independently on every call.

use vstd::prelude::*;

use crate::accounts::VaultAction;
use crate::derivation::{derived_address, DerivationConfig};
use crate::errors::ValidationError;
use crate::identity::bytes_eq;

verus! {

/// What validation decides for a request: the bump of the owner's derived
/// address on success, and the first failing check otherwise.
pub open spec fn spec_validate(config: DerivationConfig, action: VaultAction) -> Result<
    u8,
    ValidationError,
> {
    if !action.signer.is_signer {
        Err(ValidationError::MissingSignature)
    } else if !action.signer.is_writable {
        Err(ValidationError::SignerNotWritable)
    } else if !action.vault.is_writable {
        Err(ValidationError::HoldingNotWritable)
    } else {
        match derived_address(config.domain_tag@, action.signer.owner@, config.program_id@) {
            None => Err(ValidationError::DerivationUnavailable),
            Some(p) => if p.0 == action.vault.address@ {
                Ok(p.1)
            } else {
                Err(ValidationError::AddressMismatch)
            },
        }
    }
}

/// Checks the supplied accounts and, on success, returns the bump of the
/// owner's derived holding-account address.
pub fn validate(config: &DerivationConfig, action: &VaultAction) -> (r: Result<
    u8,
    ValidationError,
>)
    requires
        config.wf(),
    ensures
        r == spec_validate(*config, *action),
{
    if !action.signer.is_signer {
        return Err(ValidationError::MissingSignature);
    }
    if !action.signer.is_writable {
        return Err(ValidationError::SignerNotWritable);
    }
    if !action.vault.is_writable {
        return Err(ValidationError::HoldingNotWritable);
    }
    match crate::derivation::derive(config, &action.signer.owner) {
        None => Err(ValidationError::DerivationUnavailable),
        Some((address, bump)) => {
            if bytes_eq(&address.bytes, &action.vault.address.bytes) {
                Ok(bump)
            } else {
                Err(ValidationError::AddressMismatch)
            }
        },
    }
}

/// Address binding: a request whose supplied holding account is not the
/// owner's derived address never passes validation, whatever value that
/// substituted account may hold and however its flags are set.
pub proof fn lemma_address_binding(config: DerivationConfig, action: VaultAction)
    requires
        !(derived_address(config.domain_tag@, action.signer.owner@, config.program_id@)
            matches Some(p) && p.0 == action.vault.address@),
    ensures
        spec_validate(config, action) is Err,
{
}

} // verus!
