//! Access control for privileged operations.
//!
//! The host authenticates the calling account cryptographically; the guard's
//! job is the decision: a privileged call passes only when an administrator
//! is recorded and the authenticated caller is that exact account.

use vstd::prelude::*;

verus! {

use crate::types::Error;

/// The outcome of the admin check: the admin account when the caller is it,
/// `NotInitialized` when none is recorded, `Unauthorized` otherwise.
pub open spec fn spec_check_admin(admin: Option<u64>, caller: u64) -> Result<u64, Error> {
    match admin {
        None => Err(Error::NotInitialized),
        Some(a) => if caller == a {
            Ok(a)
        } else {
            Err(Error::Unauthorized)
        },
    }
}

/// Resolve the singleton administrator and demand that the authenticated
/// caller is it.
pub fn check_admin(admin: &Option<u64>, caller: u64) -> (r: Result<u64, Error>)
    ensures
        r == spec_check_admin(*admin, caller),
{
    match admin {
        None => Err(Error::NotInitialized),
        Some(a) => {
            if caller == *a {
                Ok(*a)
            } else {
                Err(Error::Unauthorized)
            }
        },
    }
}

} // verus!
