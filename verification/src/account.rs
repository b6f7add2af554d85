//! The account model: explicit values standing for the on-ledger records
//! that the capability scheme reads and mutates, together with the error
//! taxonomy and the authorization gate.

use vstd::prelude::*;

verus! {

/// One on-ledger record, made explicit: its address, the program that owns
/// it, its stored balance, and whether its key signed the current unit of
/// work.
#[derive(Clone, Debug)]
pub struct Account {
    /// The address of the record.
    pub key: [u8; 32],
    /// The identity of the program that owns the record.
    pub owner: [u8; 32],
    /// The stored balance; a capability account with zero balance is dead.
    pub lamports: u64,
    /// Whether this identity cryptographically authorized the current
    /// unit of work.
    pub is_signer: bool,
}

/// Why a grant, revoke or gate check was refused.
#[derive(Clone, Copy, Debug, PartialEq, Eq, Structural)]
pub enum CapError {
    /// The supplied capability address disagrees with the derived one.
    AddressMismatch,
    /// A grant was requested where a capability account already occupies
    /// the address.
    AlreadyExists,
    /// A revoke was requested where no active capability exists.
    NotFound,
    /// The authority's balance cannot cover the minimum persistent balance.
    InsufficientFunds,
    /// The authority did not sign the current unit of work.
    Unauthorized,
}

/// The identity of the system program: thirty-two zero bytes.
pub open spec fn system_program_id() -> Seq<u8> {
    Seq::new(32, |i: int| 0u8)
}

/// The system program's identity as a concrete key.
pub fn system_program_key() -> (r: [u8; 32])
    ensures
        r@ == system_program_id(),
{
    let r = [0u8; 32];
    proof {
        assert(r@ =~= system_program_id());
    }
    r
}

/// Byte-for-byte equality of two identities.
pub fn key_eq(a: &[u8; 32], b: &[u8; 32]) -> (r: bool)
    ensures
        r == (a@ == b@),
{
    let mut i: usize = 0;
    while i < 32
        invariant
            0 <= i <= 32,
            forall|j: int| 0 <= j < i ==> a@[j] == b@[j],
        decreases 32 - i,
    {
        if a[i] != b[i] {
            assert(a@[i as int] != b@[i as int]);
            return false;
        }
        i += 1;
    }
    proof {
        assert(a@ =~= b@);
    }
    true
}

/// An active capability: the account at the derived address is owned by this
/// subsystem and holds a nonzero balance.  Ownership by any other party, or
/// zero balance, means "not granted".
pub open spec fn is_authorized(program_id: Seq<u8>, account: Account) -> bool {
    account.owner@ == program_id && account.lamports != 0
}

/// The authorization gate: does an active capability account stand at this
/// address?  Returns true iff the account is owned by `program_id` and its
/// balance is nonzero.
pub fn does_pda_exist(program_id: &[u8; 32], pda_ai: &Account) -> (r: bool)
    ensures
        r == is_authorized(program_id@, *pda_ai),
{
    key_eq(&pda_ai.owner, program_id) && pda_ai.lamports != 0
}

} // verus!
