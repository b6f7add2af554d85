//! The laws of the capability scheme, each proved once and for all inputs:
//! determinism of derivation, rejection of mismatched addresses, the
//! grant/revoke round trip, and the impossibility of a double grant.

use vstd::prelude::*;
use crate::account::{Account, CapError, is_authorized};
use crate::derive::{address_matches, delegate_pda};
use crate::lifecycle::{grant_outcome, revoke_outcome, lemma_zero_key_view};

verus! {

/// Determinism: deriving twice from the same (authority, delegate,
/// program) triple yields the same address and the same bump byte.
pub proof fn lemma_derive_deterministic(
    authority: Seq<u8>,
    delegate: Seq<u8>,
    program_id: Seq<u8>,
    r1: Option<(Seq<u8>, u8)>,
    r2: Option<(Seq<u8>, u8)>,
)
    requires
        r1 == delegate_pda(authority, delegate, program_id),
        r2 == delegate_pda(authority, delegate, program_id),
    ensures
        r1 == r2,
{
}

/// Mismatch rejection: with a verified signer, a grant or revoke whose
/// supplied capability address is not the freshly derived address for the
/// pair fails with AddressMismatch, and nothing else.
pub proof fn lemma_mismatch_rejection(
    authority: Account,
    delegate: [u8; 32],
    pda: Account,
    program_id: [u8; 32],
    min_balance: u64,
)
    requires
        authority.is_signer,
        !address_matches(authority.key@, delegate@, pda.key@, program_id@),
    ensures
        grant_outcome(authority, delegate, pda, program_id, min_balance) == Err::<
            (Account, Account),
            CapError,
        >(CapError::AddressMismatch),
        revoke_outcome(authority, delegate, pda, program_id) == Err::<
            (Account, Account),
            CapError,
        >(CapError::AddressMismatch),
{
}

/// A successful grant establishes an active capability for the account it
/// creates.
pub proof fn lemma_grant_activates(
    authority: Account,
    delegate: [u8; 32],
    pda: Account,
    program_id: [u8; 32],
    min_balance: u64,
)
    requires
        min_balance >= 1,
        grant_outcome(authority, delegate, pda, program_id, min_balance) is Ok,
    ensures
        is_authorized(
            program_id@,
            (grant_outcome(authority, delegate, pda, program_id, min_balance)->Ok_0).1,
        ),
{
}

/// Round trip: granting and then revoking for the same pair succeeds,
/// leaves no active grant, restores the authority's balance to its
/// pre-grant value, and leaves the address free to be granted again.
pub proof fn lemma_grant_revoke_round_trip(
    authority: Account,
    delegate: [u8; 32],
    pda: Account,
    program_id: [u8; 32],
    min_balance: u64,
)
    requires
        min_balance >= 1,
        grant_outcome(authority, delegate, pda, program_id, min_balance) is Ok,
    ensures
        ({
            let granted = grant_outcome(authority, delegate, pda, program_id, min_balance)->Ok_0;
            &&& revoke_outcome(granted.0, delegate, granted.1, program_id) is Ok
            &&& {
                let revoked = revoke_outcome(granted.0, delegate, granted.1, program_id)->Ok_0;
                &&& !is_authorized(program_id@, revoked.1)
                &&& revoked.0.lamports == authority.lamports
                &&& grant_outcome(revoked.0, delegate, revoked.1, program_id, min_balance) is Ok
            }
        }),
{
    lemma_zero_key_view();
}

/// No double grant: granting twice for the same pair without an
/// intervening revoke fails the second time with AlreadyExists, whatever
/// balance the second grant offers.
pub proof fn lemma_no_double_grant(
    authority: Account,
    delegate: [u8; 32],
    pda: Account,
    program_id: [u8; 32],
    min_balance: u64,
    second_min_balance: u64,
)
    requires
        min_balance >= 1,
        grant_outcome(authority, delegate, pda, program_id, min_balance) is Ok,
    ensures
        ({
            let granted = grant_outcome(authority, delegate, pda, program_id, min_balance)->Ok_0;
            grant_outcome(granted.0, delegate, granted.1, program_id, second_min_balance) == Err::<
                (Account, Account),
                CapError,
            >(CapError::AlreadyExists)
        }),
{
}

} // verus!
