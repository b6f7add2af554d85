//! The capability lifecycle: granting and revoking.
//!
//! A grant creates the capability account at the derived address, owned by
//! this subsystem and funded to the minimum persistent balance out of the
//! authority's balance.  A revoke transfers the capability account's entire
//! balance back to the authority, detaches the account from this
//! subsystem's ownership, and releases it.  Both are guarded by signer
//! verification and by freshly recomputed address validation, and either
//! complete fully or leave both accounts unchanged.

use vstd::prelude::*;
use crate::account::{Account, CapError, is_authorized, system_program_id, system_program_key,
    key_eq, does_pda_exist};
use crate::derive::{address_matches, get_authorized_delegate_seeds_and_validate};

verus! {

/// The system program's identity as a key value: thirty-two zero bytes.
pub open spec fn zero_key() -> [u8; 32] {
    vstd::array::spec_array_fill_for_copy_type::<u8, 32>(0u8)
}

/// The zero key reads back as the system program identity.
pub proof fn lemma_zero_key_view()
    ensures
        zero_key()@ == system_program_id(),
{
    assert(zero_key()@ =~= system_program_id());
}

/// Does an account already occupy this address?  A grant is a
/// fresh-creation primitive, not an upsert: any balance at the address, or
/// ownership by anyone but the system program, blocks it.
pub open spec fn occupied(pda: Account) -> bool {
    pda.lamports != 0 || pda.owner@ != system_program_id()
}

/// What a grant does.  The checks run in this order: signer, address,
/// occupancy, funding.  On success the authority pays the minimum
/// persistent balance and the capability account becomes owned by the
/// program with exactly that balance; on failure nothing changes.
pub open spec fn grant_outcome(
    authority: Account,
    delegate: [u8; 32],
    pda: Account,
    program_id: [u8; 32],
    min_balance: u64,
) -> Result<(Account, Account), CapError> {
    if !authority.is_signer {
        Err(CapError::Unauthorized)
    } else if !address_matches(authority.key@, delegate@, pda.key@, program_id@) {
        Err(CapError::AddressMismatch)
    } else if occupied(pda) {
        Err(CapError::AlreadyExists)
    } else if authority.lamports < min_balance {
        Err(CapError::InsufficientFunds)
    } else {
        Ok(
            (
                Account {
                    key: authority.key,
                    owner: authority.owner,
                    lamports: (authority.lamports - min_balance) as u64,
                    is_signer: authority.is_signer,
                },
                Account {
                    key: pda.key,
                    owner: program_id,
                    lamports: min_balance,
                    is_signer: pda.is_signer,
                },
            ),
        )
    }
}

/// What a revoke does.  The checks run in this order: signer, address,
/// existence.  On success the capability account's entire balance moves
/// back to the authority, its balance is zeroed and its ownership is
/// detached back to the system program; on failure nothing changes.
pub open spec fn revoke_outcome(
    authority: Account,
    delegate: [u8; 32],
    pda: Account,
    program_id: [u8; 32],
) -> Result<(Account, Account), CapError> {
    if !authority.is_signer {
        Err(CapError::Unauthorized)
    } else if !address_matches(authority.key@, delegate@, pda.key@, program_id@) {
        Err(CapError::AddressMismatch)
    } else if !is_authorized(program_id@, pda) {
        Err(CapError::NotFound)
    } else {
        Ok(
            (
                Account {
                    key: authority.key,
                    owner: authority.owner,
                    lamports: (authority.lamports + pda.lamports) as u64,
                    is_signer: authority.is_signer,
                },
                Account {
                    key: pda.key,
                    owner: zero_key(),
                    lamports: 0,
                    is_signer: pda.is_signer,
                },
            ),
        )
    }
}

/// How an exec lifecycle operation relates to its spec outcome: on Ok the
/// two accounts step to the outcome's pair; on Err the same error is
/// returned and both accounts are unchanged.
pub open spec fn performs(
    outcome: Result<(Account, Account), CapError>,
    r: Result<(), CapError>,
    authority0: Account,
    pda0: Account,
    authority1: Account,
    pda1: Account,
) -> bool {
    match outcome {
        Ok(pair) => r is Ok && authority1 == pair.0 && pda1 == pair.1,
        Err(e) => r == Err::<(), CapError>(e) && authority1 == authority0 && pda1 == pda0,
    }
}

/// Close a capability account: move its entire balance to the destination,
/// zero it, and hand its ownership back to the system program so that its
/// storage is released.
pub fn close_account(info: &mut Account, sol_destination: &mut Account) -> (r: Result<
    (),
    CapError,
>)
    requires
        old(sol_destination).lamports + old(info).lamports <= u64::MAX,
    ensures
        r is Ok,
        final(sol_destination).lamports == old(sol_destination).lamports + old(info).lamports,
        final(sol_destination).key == old(sol_destination).key,
        final(sol_destination).owner == old(sol_destination).owner,
        final(sol_destination).is_signer == old(sol_destination).is_signer,
        final(info).lamports == 0,
        final(info).owner == zero_key(),
        final(info).key == old(info).key,
        final(info).is_signer == old(info).is_signer,
{
    sol_destination.lamports = sol_destination.lamports + info.lamports;
    info.lamports = 0;
    info.owner = system_program_key();
    proof {
        lemma_zero_key_view();
        assert(info.owner =~= zero_key());
    }
    Ok(())
}

/// Grant a capability: after signer and address validation, create the
/// capability account at the derived address, owned by this program and
/// funded to `min_balance` out of the authority's balance.
pub fn grant(
    program_id: &[u8; 32],
    seat_manager_authority: &mut Account,
    authorized_delegate: &[u8; 32],
    authorized_delegate_pda: &mut Account,
    min_balance: u64,
) -> (r: Result<(), CapError>)
    requires
        min_balance >= 1,
    ensures
        performs(
            grant_outcome(
                *old(seat_manager_authority),
                *authorized_delegate,
                *old(authorized_delegate_pda),
                *program_id,
                min_balance,
            ),
            r,
            *old(seat_manager_authority),
            *old(authorized_delegate_pda),
            *final(seat_manager_authority),
            *final(authorized_delegate_pda),
        ),
{
    if !seat_manager_authority.is_signer {
        return Err(CapError::Unauthorized);
    }
    let validated = get_authorized_delegate_seeds_and_validate(
        &seat_manager_authority.key,
        authorized_delegate,
        &authorized_delegate_pda.key,
        program_id,
    );
    if validated.is_err() {
        return Err(CapError::AddressMismatch);
    }
    let sys = system_program_key();
    if authorized_delegate_pda.lamports != 0 || !key_eq(&authorized_delegate_pda.owner, &sys) {
        return Err(CapError::AlreadyExists);
    }
    if seat_manager_authority.lamports < min_balance {
        return Err(CapError::InsufficientFunds);
    }
    seat_manager_authority.lamports = seat_manager_authority.lamports - min_balance;
    authorized_delegate_pda.owner = *program_id;
    authorized_delegate_pda.lamports = min_balance;
    Ok(())
}

/// Revoke a capability: after signer and address validation, check that an
/// active capability account stands at the derived address, then close it
/// back to the authority.  The address is free to be granted again
/// afterwards.
pub fn revoke(
    program_id: &[u8; 32],
    seat_manager_authority: &mut Account,
    authorized_delegate: &[u8; 32],
    authorized_delegate_pda: &mut Account,
) -> (r: Result<(), CapError>)
    requires
        old(seat_manager_authority).lamports + old(authorized_delegate_pda).lamports <= u64::MAX,
    ensures
        performs(
            revoke_outcome(
                *old(seat_manager_authority),
                *authorized_delegate,
                *old(authorized_delegate_pda),
                *program_id,
            ),
            r,
            *old(seat_manager_authority),
            *old(authorized_delegate_pda),
            *final(seat_manager_authority),
            *final(authorized_delegate_pda),
        ),
{
    if !seat_manager_authority.is_signer {
        return Err(CapError::Unauthorized);
    }
    let validated = get_authorized_delegate_seeds_and_validate(
        &seat_manager_authority.key,
        authorized_delegate,
        &authorized_delegate_pda.key,
        program_id,
    );
    if validated.is_err() {
        return Err(CapError::AddressMismatch);
    }
    if !does_pda_exist(program_id, authorized_delegate_pda) {
        return Err(CapError::NotFound);
    }
    match close_account(authorized_delegate_pda, seat_manager_authority) {
        Ok(()) => Ok(()),
        Err(e) => Err(e),
    }
}

/// The lifecycle entry point: validate the signer and the supplied
/// capability address against a fresh derivation, then either grant
/// (`remove` false) or revoke (`remove` true) the delegate's capability.
pub fn process_authorized_evictor(
    program_id: &[u8; 32],
    seat_manager_authority: &mut Account,
    authorized_delegate: &[u8; 32],
    authorized_delegate_pda: &mut Account,
    remove: bool,
    min_balance: u64,
) -> (r: Result<(), CapError>)
    requires
        !remove ==> min_balance >= 1,
        remove ==> old(seat_manager_authority).lamports + old(authorized_delegate_pda).lamports
            <= u64::MAX,
    ensures
        !remove ==> performs(
            grant_outcome(
                *old(seat_manager_authority),
                *authorized_delegate,
                *old(authorized_delegate_pda),
                *program_id,
                min_balance,
            ),
            r,
            *old(seat_manager_authority),
            *old(authorized_delegate_pda),
            *final(seat_manager_authority),
            *final(authorized_delegate_pda),
        ),
        remove ==> performs(
            revoke_outcome(
                *old(seat_manager_authority),
                *authorized_delegate,
                *old(authorized_delegate_pda),
                *program_id,
            ),
            r,
            *old(seat_manager_authority),
            *old(authorized_delegate_pda),
            *final(seat_manager_authority),
            *final(authorized_delegate_pda),
        ),
{
    if !remove {
        grant(
            program_id,
            seat_manager_authority,
            authorized_delegate,
            authorized_delegate_pda,
            min_balance,
        )
    } else {
        revoke(program_id, seat_manager_authority, authorized_delegate, authorized_delegate_pda)
    }
}

} // verus!
