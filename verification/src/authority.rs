//! The authority deriver: a deterministic map from offer terms and a
//! caller-supplied disambiguation tag to the unique escrow-controlled
//! address, together with the one-byte bump proof.
//!
//! The derived address is keyless: no party can produce a signature for it,
//! and only this program, supplying the original `[seed, tag, bump]` triple
//! to the host, can authorize actions on its behalf.  Because the derivation
//! is a pure function of its inputs, Accept and Cancel reconstruct at call
//! time the exact authority used at Create time without persisting the bump.

use vstd::prelude::*;
use crate::state::{sha256_of, spec_offer_bytes, Address, OfferData};

verus! {

/// What the host's deterministic address derivation returns for a given
/// `[seed, tag]` pair under a given program: either the derived 32-byte
/// keyless address with its bump proof, or nothing in the statistically
/// improbable event that no bump yields a keyless address.  The result
/// depends on the three inputs alone.
pub uninterp spec fn pda_of(seed: Seq<u8>, tag: Seq<u8>, program_id: Seq<u8>) -> Option<
    (Seq<u8>, u8),
>;

/// Relies on `solana_program::pubkey::Pubkey::try_find_program_address`: for
/// fewer than 16 seeds of at most 32 bytes each it does not panic, and its
/// result is a pure function of the seeds and the program id — the highest
/// bump in [0, 255] whose derivation falls off the ed25519 curve, with the
/// derived 32-byte address.
#[verifier::external_body]
fn find_keyless_address(seed: &[u8], tag: &[u8], program_id: &[u8]) -> (r: Option<(Vec<u8>, u8)>)
    requires
        seed@.len() == 32,
        tag@.len() == 28,
        program_id@.len() == 32,
    ensures
        r matches Some(p) ==> pda_of(seed@, tag@, program_id@) == Some((p.0@, p.1))
            && p.0@.len() == 32,
        r is None ==> pda_of(seed@, tag@, program_id@) is None,
{
    let program: [u8; 32] = program_id.try_into().unwrap();
    let program = solana_program::pubkey::Pubkey::new_from_array(program);
    solana_program::pubkey::Pubkey::try_find_program_address(&[seed, tag], &program)
        .map(|(address, bump)| (address.to_bytes().to_vec(), bump))
}

/// The escrow-controlled address for an offer: derived from the digest of the
/// descriptor bytes and the 28-byte disambiguation tag, namespaced under the
/// hosting program.  Returns the address and its bump proof.
pub fn derive_escrow_address(offer: &OfferData, index_seed: &[u8], program_id: &Address) -> (r:
    Option<(Address, u8)>)
    requires
        offer.wf(),
        index_seed@.len() == 28,
        program_id.wf(),
    ensures
        r matches Some(p) ==> pda_of(
            sha256_of(spec_offer_bytes(offer@)),
            index_seed@,
            program_id@,
        ) == Some((p.0@, p.1)) && p.0.wf(),
        r is None ==> pda_of(sha256_of(spec_offer_bytes(offer@)), index_seed@, program_id@)
            is None,
{
    let seed = offer.get_seed();
    match find_keyless_address(seed.as_slice(), index_seed, program_id.bytes.as_slice()) {
        Some((bytes, bump)) => Some((Address { bytes }, bump)),
        None => None,
    }
}

/// Whether the derivation for `(seed, tag)` under `program_id` yields exactly
/// the address `key`.
pub open spec fn derives_to(seed: Seq<u8>, tag: Seq<u8>, program_id: Seq<u8>, key: Seq<u8>) -> bool {
    match pda_of(seed, tag, program_id) {
        Some(p) => p.0 == key,
        None => false,
    }
}

} // verus!
