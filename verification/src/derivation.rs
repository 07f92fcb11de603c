//! Deterministic derivation of the holding-account address.
//!
//! The holding account's address is computed from a domain-separation tag,
//! the owner's identity, and the program identity, together with a
//! disambiguation byte (the bump) chosen by the search so that the derived
//! address is guaranteed not to be an independently signable key. The
//! derivation is pure: the same inputs give the same address and bump on
//! every call, which is what lets validation reject substituted accounts.

use vstd::prelude::*;

use crate::identity::{Address, OwnerIdentity, ID_LEN};

verus! {

/// The configuration the derivation closes over: the domain-separation tag
/// and the identity of the program that owns the derived addresses. Both
/// are passed explicitly so the core stays testable with synthetic
/// identities.
pub struct DerivationConfig {
    pub domain_tag: Vec<u8>,
    pub program_id: Vec<u8>,
}

impl DerivationConfig {
    /// A well-formed configuration carries a full-length program identity.
    pub open spec fn wf(&self) -> bool {
        self.program_id@.len() == ID_LEN
    }
}

/// The derived address and bump for a seed tuple, or `None` in the
/// statistically improbable event that no bump yields a valid address.
/// The result is a pure function of the three byte strings alone.
pub uninterp spec fn derived_address(
    domain_tag: Seq<u8>,
    owner: Seq<u8>,
    program_id: Seq<u8>,
) -> Option<(Seq<u8>, u8)>;

/// Relies on `Pubkey::try_find_program_address` of the host SDK (re-exported
/// by anchor): the search over bump bytes is a pure function of the seed
/// slices and the program identity; on success the returned address is
/// 32 bytes and is accompanied by the bump that produced it, and the
/// function returns `None` only when no bump yields a valid address.
#[verifier::external_body]
pub(crate) fn find_holding_address(domain_tag: &Vec<u8>, owner: &Vec<u8>, program_id: &Vec<u8>) -> (r: Option<
    (Vec<u8>, u8),
>)
    requires
        program_id@.len() == ID_LEN,
    ensures
        r is Some <==> derived_address(domain_tag@, owner@, program_id@) is Some,
        r matches Some(p) ==> Some((p.0@, p.1)) == derived_address(domain_tag@, owner@, program_id@)
            && p.0@.len() == ID_LEN,
{
    let program = anchor_lang::solana_program::pubkey::Pubkey::new_from_array(
        program_id.as_slice().try_into().unwrap(),
    );
    anchor_lang::solana_program::pubkey::Pubkey::try_find_program_address(
        &[domain_tag.as_slice(), owner.as_slice()],
        &program,
    ).map(|(address, bump)| (address.to_bytes().to_vec(), bump))
}

/// Computes the unique holding-account address and bump for an owner.
///
/// Deterministic and free of side effects: the result is fixed by the
/// configuration and the owner identity. `None` reports the fatal
/// configuration error that no valid bump exists for these seeds.
pub fn derive(config: &DerivationConfig, owner: &OwnerIdentity) -> (r: Option<(Address, u8)>)
    requires
        config.wf(),
    ensures
        r is Some <==> derived_address(config.domain_tag@, owner@, config.program_id@) is Some,
        r matches Some(p) ==> Some((p.0@, p.1)) == derived_address(
            config.domain_tag@,
            owner@,
            config.program_id@,
        ) && p.0.wf(),
{
    match find_holding_address(&config.domain_tag, &owner.bytes, &config.program_id) {
        Some((bytes, bump)) => Some((Address { bytes }, bump)),
        None => None,
    }
}

/// Derivation determinism: the derived address and bump are a pure function
/// of the owner identity and the configuration, so two derivations whose
/// inputs agree byte for byte return the same address and the same bump.
pub proof fn lemma_derivation_deterministic(
    config1: DerivationConfig,
    config2: DerivationConfig,
    owner1: OwnerIdentity,
    owner2: OwnerIdentity,
)
    requires
        config1.domain_tag@ == config2.domain_tag@,
        config1.program_id@ == config2.program_id@,
        owner1@ == owner2@,
    ensures
        derived_address(config1.domain_tag@, owner1@, config1.program_id@) == derived_address(
            config2.domain_tag@,
            owner2@,
            config2.program_id@,
        ),
{
}

} // verus!
