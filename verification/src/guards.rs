//! The authorization guards that stand at the top of every privileged
//! operation. They only read.

use vstd::prelude::*;
use crate::account::AccountId;
use crate::error::FiatTokenError;
use crate::rbac::{holds, RoleAssignments, RoleRegistry};
use crate::role::Role;

verus! {

/// Passes when `caller` holds `role`.
pub open spec fn only(roles: RoleAssignments, caller: AccountId, role: Role) -> Result<
    (),
    FiatTokenError,
> {
    if holds(roles, caller@, role) {
        Ok(())
    } else {
        Err(FiatTokenError::Unauthorized { role })
    }
}

/// Passes when `account_id` is not on the blocklist.
pub open spec fn not_blocklisted(roles: RoleAssignments, account_id: AccountId) -> Result<
    (),
    FiatTokenError,
> {
    if holds(roles, account_id@, Role::Blocklisted) {
        Err(FiatTokenError::Blocklisted { account_id })
    } else {
        Ok(())
    }
}

/// The outcome of two checks made one after the other: the failure of the
/// first, or else the outcome of the second.
pub open spec fn and_then(first: Result<(), FiatTokenError>, second: Result<(), FiatTokenError>)
    -> Result<(), FiatTokenError> {
    if first is Err {
        first
    } else {
        second
    }
}

/// Fails unless `caller` holds `role`.
pub fn require_only(roles: &RoleRegistry, caller: &AccountId, role: Role) -> (r: Result<
    (),
    FiatTokenError,
>)
    ensures
        r == only(roles@, *caller, role),
{
    if roles.has_role(caller, role) {
        Ok(())
    } else {
        Err(FiatTokenError::Unauthorized { role })
    }
}

/// Fails when `account_id`, the caller or a named party of an operation, is
/// on the blocklist.
pub fn require_not_blocklisted(roles: &RoleRegistry, account_id: &AccountId) -> (r: Result<
    (),
    FiatTokenError,
>)
    ensures
        r == not_blocklisted(roles@, *account_id),
{
    if roles.has_role(account_id, Role::Blocklisted) {
        Err(FiatTokenError::Blocklisted { account_id: account_id.clone() })
    } else {
        Ok(())
    }
}

} // verus!
