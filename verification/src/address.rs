//! Deterministic derivation of the counter record's canonical address.
//!
//! There is exactly one counter per program deployment: its address is
//! derived from the fixed `"counter"` domain-separation tag and the
//! program's own identity, so re-deriving with the same identity always
//! yields the same address.

use vstd::prelude::*;

verus! {

/// The address and bump seed that the derivation primitive yields for a
/// given program identity under the fixed `"counter"` tag, or nothing in
/// the statistically improbable event that no bump seed is viable. The
/// derivation is a pure function of the program identity.
pub uninterp spec fn counter_address(program_id: Seq<u8>) -> Option<(Seq<u8>, u8)>;

/// Relies on Pubkey::try_find_program_address: derives a program-derived
/// address and its bump seed deterministically, from the seeds and the
/// program identity alone.
#[verifier::external_body]
fn find_counter_address(program_id: &[u8; 32]) -> (r: Option<([u8; 32], u8)>)
    ensures
        r is Some <==> counter_address(program_id@) is Some,
        r matches Some(p) ==> Some((p.0@, p.1)) == counter_address(program_id@),
{
    let pid = anchor_lang::prelude::Pubkey::new_from_array(*program_id);
    anchor_lang::prelude::Pubkey::try_find_program_address(&[b"counter"], &pid)
        .map(|(addr, bump)| (addr.to_bytes(), bump))
}

/// Derives the canonical address of the counter record for the given
/// program identity, together with its bump seed.
///
/// The result depends on the program identity alone, so every caller that
/// derives with the same identity locates the same record.
pub fn derive_counter_address(program_id: &[u8; 32]) -> (r: Option<([u8; 32], u8)>)
    ensures
        r is Some <==> counter_address(program_id@) is Some,
        r matches Some(p) ==> Some((p.0@, p.1)) == counter_address(program_id@),
{
    find_counter_address(program_id)
}

/// Deriving the counter address twice from the same program identity gives
/// the same outcome: the same address and bump seed, or in both cases none.
pub proof fn lemma_derivation_deterministic(
    program_id: Seq<u8>,
    r1: Option<(Seq<u8>, u8)>,
    r2: Option<(Seq<u8>, u8)>,
)
    requires
        r1 == counter_address(program_id),
        r2 == counter_address(program_id),
    ensures
        r1 == r2,
{
}

} // verus!
