//! A capability-token scheme for delegated eviction authority.
//!
//! A primary authority can delegate one privileged administrative action to a
//! secondary identity.  The capability is not a row in an access-control
//! table: it is the existence of a funded, program-owned account at an
//! address derived deterministically from the (authority, delegate) pair and
//! a namespace tag.  Granting creates that account, revoking destroys it,
//! and the privileged operation gates itself on the account's existence.

pub mod account;
pub mod derive;
pub mod lifecycle;
pub mod laws;
