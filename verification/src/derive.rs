//! Deterministic address derivation for capability accounts.
//!
//! A capability's address is derived from the ordered seed list
//! `[authority, delegate, namespace tag]`.  The derivation searches
//! disambiguation ("bump") bytes until it finds an address with no
//! independently derivable signing authority; the successful bump byte is
//! appended to the seed list.  The derivation is a pure function of the
//! seeds and the program identity, so any party holding the same inputs
//! reproduces the same address.

use vstd::prelude::*;
use vstd::slice::slice_to_vec;
use crate::account::CapError;

verus! {

/// What the program-derived-address search returns for a given seed list
/// and program identity: the derived address and the successful bump byte,
/// or nothing in the statistically improbable event that no bump byte
/// yields a viable address.
pub uninterp spec fn pda_of(seeds: Seq<Seq<u8>>, program_id: Seq<u8>) -> Option<(Seq<u8>, u8)>;

/// Relies on solana_program::pubkey::Pubkey::try_find_program_address: the
/// derived address and bump seed depend on the seed list and the program
/// identity alone, and the search returns None rather than panicking when
/// no viable bump byte exists.
#[verifier::external_body]
fn find_pda(seeds: &Vec<Vec<u8>>, program_id: &[u8; 32]) -> (r: Option<([u8; 32], u8)>)
    ensures
        match r {
            Some(p) => pda_of(seeds.deep_view(), program_id@) == Some((p.0@, p.1)),
            None => pda_of(seeds.deep_view(), program_id@) is None,
        },
{
    let seed_refs: Vec<&[u8]> = seeds.iter().map(|s| s.as_slice()).collect();
    let pid = solana_program::pubkey::Pubkey::new_from_array(*program_id);
    solana_program::pubkey::Pubkey::try_find_program_address(&seed_refs, &pid)
        .map(|(pk, bump)| (pk.to_bytes(), bump))
}

/// The namespace tag folded into every capability derivation: the bytes of
/// "delegate".  A future derivation scheme must introduce a new tag, never
/// repurpose this one, so that the two address spaces cannot collide.
pub open spec fn delegate_tag() -> Seq<u8> {
    seq![100u8, 101u8, 108u8, 101u8, 103u8, 97u8, 116u8, 101u8]
}

/// The namespace tag as concrete bytes.
pub fn delegate_tag_bytes() -> (r: Vec<u8>)
    ensures
        r@ == delegate_tag(),
{
    let mut v: Vec<u8> = Vec::new();
    v.push(100);
    v.push(101);
    v.push(108);
    v.push(101);
    v.push(103);
    v.push(97);
    v.push(116);
    v.push(101);
    proof {
        assert(v@ =~= delegate_tag());
    }
    v
}

/// The ordered seed list for a capability derivation, before the bump byte
/// is appended.
pub open spec fn delegate_seed_prefix(authority: Seq<u8>, delegate: Seq<u8>) -> Seq<Seq<u8>> {
    seq![authority, delegate, delegate_tag()]
}

/// The derived capability address and bump byte for an
/// (authority, delegate) pair under a given program identity.
pub open spec fn delegate_pda(authority: Seq<u8>, delegate: Seq<u8>, program_id: Seq<u8>) -> Option<
    (Seq<u8>, u8),
> {
    pda_of(delegate_seed_prefix(authority, delegate), program_id)
}

/// Does a caller-supplied address equal the freshly derived capability
/// address for this pair?  False when the derivation itself finds no
/// viable address.
pub open spec fn address_matches(
    authority: Seq<u8>,
    delegate: Seq<u8>,
    supplied: Seq<u8>,
    program_id: Seq<u8>,
) -> bool {
    match delegate_pda(authority, delegate, program_id) {
        Some(p) => p.0 == supplied,
        None => false,
    }
}

/// The full seed list that authorizes operations on the capability account:
/// the seed prefix with the bump byte appended as a one-byte seed.
pub open spec fn delegate_seeds_with_bump(
    authority: Seq<u8>,
    delegate: Seq<u8>,
    bump: u8,
) -> Seq<Seq<u8>> {
    delegate_seed_prefix(authority, delegate).push(seq![bump])
}

/// Derive the capability address for an (authority, delegate) pair.
/// Returns the address and its bump byte, or None in the statistically
/// improbable event that the search finds no viable address.
pub fn get_authorized_delegate_pda(
    seat_manager_authority: &[u8; 32],
    authorized_delegate: &[u8; 32],
    program_id: &[u8; 32],
) -> (r: Option<([u8; 32], u8)>)
    ensures
        match r {
            Some(p) => delegate_pda(seat_manager_authority@, authorized_delegate@, program_id@)
                == Some((p.0@, p.1)),
            None => delegate_pda(seat_manager_authority@, authorized_delegate@, program_id@)
                is None,
        },
{
    let seeds = build_seed_prefix(seat_manager_authority, authorized_delegate);
    find_pda(&seeds, program_id)
}

/// The concrete seed prefix `[authority, delegate, tag]`.
fn build_seed_prefix(seat_manager_authority: &[u8; 32], authorized_delegate: &[u8; 32]) -> (r: Vec<
    Vec<u8>,
>)
    ensures
        r.deep_view() == delegate_seed_prefix(seat_manager_authority@, authorized_delegate@),
{
    let mut seeds: Vec<Vec<u8>> = Vec::new();
    seeds.push(slice_to_vec(seat_manager_authority.as_slice()));
    seeds.push(slice_to_vec(authorized_delegate.as_slice()));
    seeds.push(delegate_tag_bytes());
    proof {
        assert(seeds.deep_view() =~~= delegate_seed_prefix(
            seat_manager_authority@,
            authorized_delegate@,
        ));
    }
    seeds
}

/// Recompute the capability address for `(seat_manager_authority,
/// authorized_delegate)` and check it against the caller-supplied
/// `authorized_delegate_pda`.  On success, return the seed list with the
/// bump byte appended; on any disagreement, fail with AddressMismatch.
/// This must be called, and must succeed, before any state-mutating
/// lifecycle operation proceeds.
pub fn get_authorized_delegate_seeds_and_validate(
    seat_manager_authority: &[u8; 32],
    authorized_delegate: &[u8; 32],
    authorized_delegate_pda: &[u8; 32],
    program_id: &[u8; 32],
) -> (r: Result<Vec<Vec<u8>>, CapError>)
    ensures
        r is Ok <==> address_matches(
            seat_manager_authority@,
            authorized_delegate@,
            authorized_delegate_pda@,
            program_id@,
        ),
        r matches Ok(seeds) ==> seeds.deep_view() == delegate_seeds_with_bump(
            seat_manager_authority@,
            authorized_delegate@,
            (delegate_pda(seat_manager_authority@, authorized_delegate@, program_id@)->0).1,
        ),
        r matches Err(e) ==> e == CapError::AddressMismatch,
{
    let mut seeds = build_seed_prefix(seat_manager_authority, authorized_delegate);
    match find_pda(&seeds, program_id) {
        Some((derived_pda, bump)) => {
            if crate::account::key_eq(&derived_pda, authorized_delegate_pda) {
                let mut bump_seed: Vec<u8> = Vec::new();
                bump_seed.push(bump);
                seeds.push(bump_seed);
                proof {
                    assert(seeds.deep_view() =~~= delegate_seeds_with_bump(
                        seat_manager_authority@,
                        authorized_delegate@,
                        bump,
                    ));
                }
                Ok(seeds)
            } else {
                Err(CapError::AddressMismatch)
            }
        },
        None => Err(CapError::AddressMismatch),
    }
}

} // verus!
