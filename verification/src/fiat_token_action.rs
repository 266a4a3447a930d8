//! The privileged actions that a multi-signature request can carry.

use vstd::prelude::*;
use vstd::pervasive::unreached;
use crate::account::AccountId;
use crate::error::{FiatTokenError, RoleChange};
use crate::role::Role;

verus! {

/// A privileged action, with exactly the data that its effect needs. An
/// action does not change once a request has been created for it.
#[derive(Debug, PartialEq, Eq)]
pub enum FiatTokenAction {
    ApproveForUpgrade,
    ConfigureController { controller_id: AccountId, minter_id: AccountId },
    ConfigureMinterAllowance { controller_id: AccountId, minter_allowance: u128 },
    ConfigureMultisigRole { role: Role, account_id: AccountId },
    DecreaseMinterAllowance { controller_id: AccountId, decrement: u128 },
    IncreaseMinterAllowance { controller_id: AccountId, increment: u128 },
    Pause,
    RemoveController { controller_id: AccountId },
    RemoveMinter { controller_id: AccountId },
    RevokeMultisigRole { role: Role, account_id: AccountId },
    UpdateBlocklister { new_blocklister_id: AccountId },
    Unpause,
}

/// The role that a caller needs in order to grant or revoke `role` by
/// request: an admin for the admin role, an owner for the master minter,
/// owner and pauser roles. No other role can be granted or revoked that way.
pub open spec fn role_change_authority(role: Role, change: RoleChange) -> Result<
    Role,
    FiatTokenError,
> {
    match role {
        Role::Admin => Ok(Role::Admin),
        Role::MasterMinter | Role::Owner | Role::Pauser => Ok(Role::Owner),
        _ => Err(FiatTokenError::InvalidRoleGrant { change }),
    }
}

/// Returns the role that a caller needs in order to grant or revoke `role`
/// by request, or the refusal for a role that cannot be changed that way.
pub fn role_change_authority_of(role: Role, change: RoleChange) -> (r: Result<
    Role,
    FiatTokenError,
>)
    ensures
        r == role_change_authority(role, change),
{
    match role {
        Role::Admin => Ok(Role::Admin),
        Role::MasterMinter | Role::Owner | Role::Pauser => Ok(Role::Owner),
        _ => Err(FiatTokenError::InvalidRoleGrant { change }),
    }
}

impl Clone for FiatTokenAction {
    fn clone(&self) -> (r: Self)
        ensures
            r == *self,
    {
        match self {
            FiatTokenAction::ApproveForUpgrade => FiatTokenAction::ApproveForUpgrade,
            FiatTokenAction::ConfigureController { controller_id, minter_id } => {
                FiatTokenAction::ConfigureController {
                    controller_id: controller_id.clone(),
                    minter_id: minter_id.clone(),
                }
            },
            FiatTokenAction::ConfigureMinterAllowance { controller_id, minter_allowance } => {
                FiatTokenAction::ConfigureMinterAllowance {
                    controller_id: controller_id.clone(),
                    minter_allowance: *minter_allowance,
                }
            },
            FiatTokenAction::ConfigureMultisigRole { role, account_id } => {
                FiatTokenAction::ConfigureMultisigRole {
                    role: *role,
                    account_id: account_id.clone(),
                }
            },
            FiatTokenAction::DecreaseMinterAllowance { controller_id, decrement } => {
                FiatTokenAction::DecreaseMinterAllowance {
                    controller_id: controller_id.clone(),
                    decrement: *decrement,
                }
            },
            FiatTokenAction::IncreaseMinterAllowance { controller_id, increment } => {
                FiatTokenAction::IncreaseMinterAllowance {
                    controller_id: controller_id.clone(),
                    increment: *increment,
                }
            },
            FiatTokenAction::Pause => FiatTokenAction::Pause,
            FiatTokenAction::RemoveController { controller_id } => {
                FiatTokenAction::RemoveController { controller_id: controller_id.clone() }
            },
            FiatTokenAction::RemoveMinter { controller_id } => {
                FiatTokenAction::RemoveMinter { controller_id: controller_id.clone() }
            },
            FiatTokenAction::RevokeMultisigRole { role, account_id } => {
                FiatTokenAction::RevokeMultisigRole { role: *role, account_id: account_id.clone() }
            },
            FiatTokenAction::UpdateBlocklister { new_blocklister_id } => {
                FiatTokenAction::UpdateBlocklister {
                    new_blocklister_id: new_blocklister_id.clone(),
                }
            },
            FiatTokenAction::Unpause => FiatTokenAction::Unpause,
        }
    }
}

impl FiatTokenAction {
    /// The role that a caller needs in order to propose, approve, execute or
    /// remove the action, or the refusal for an action that no role may
    /// propose.
    pub open spec fn spec_role_required(&self) -> Result<Role, FiatTokenError> {
        match self {
            FiatTokenAction::ConfigureMultisigRole { role, .. } => role_change_authority(
                *role,
                RoleChange::Grant,
            ),
            FiatTokenAction::RevokeMultisigRole { role, .. } => role_change_authority(
                *role,
                RoleChange::Revoke,
            ),
            FiatTokenAction::ApproveForUpgrade => Ok(Role::Admin),
            FiatTokenAction::ConfigureController { .. }
            | FiatTokenAction::RemoveController { .. } => Ok(Role::MasterMinter),
            FiatTokenAction::ConfigureMinterAllowance { .. }
            | FiatTokenAction::DecreaseMinterAllowance { .. }
            | FiatTokenAction::IncreaseMinterAllowance { .. }
            | FiatTokenAction::RemoveMinter { .. } => Ok(Role::Controller),
            FiatTokenAction::Pause | FiatTokenAction::Unpause => Ok(Role::Pauser),
            FiatTokenAction::UpdateBlocklister { .. } => Ok(Role::Owner),
        }
    }

    /// Whether the action is scoped to the minter of one controller.
    pub open spec fn spec_requires_controller_check(&self) -> bool {
        self is ConfigureMinterAllowance || self is DecreaseMinterAllowance
            || self is IncreaseMinterAllowance || self is RemoveMinter
    }

    /// The controller that an action scoped to a minter names.
    pub open spec fn spec_controller(&self) -> AccountId
        recommends
            self.spec_requires_controller_check(),
    {
        match self {
            FiatTokenAction::ConfigureMinterAllowance { controller_id, .. } => *controller_id,
            FiatTokenAction::DecreaseMinterAllowance { controller_id, .. } => *controller_id,
            FiatTokenAction::IncreaseMinterAllowance { controller_id, .. } => *controller_id,
            FiatTokenAction::RemoveMinter { controller_id } => *controller_id,
            _ => arbitrary(),
        }
    }

    /// Returns the role that a caller needs in order to propose, approve,
    /// execute or remove the action. Granting or revoking a role other than
    /// admin, master minter, owner or pauser is refused whoever asks.
    pub fn role_required(&self) -> (r: Result<Role, FiatTokenError>)
        ensures
            r == self.spec_role_required(),
    {
        match self {
            FiatTokenAction::ConfigureMultisigRole { role, .. } => role_change_authority_of(
                *role,
                RoleChange::Grant,
            ),
            FiatTokenAction::RevokeMultisigRole { role, .. } => role_change_authority_of(
                *role,
                RoleChange::Revoke,
            ),
            FiatTokenAction::ApproveForUpgrade => Ok(Role::Admin),
            FiatTokenAction::ConfigureController { .. }
            | FiatTokenAction::RemoveController { .. } => Ok(Role::MasterMinter),
            FiatTokenAction::ConfigureMinterAllowance { .. }
            | FiatTokenAction::DecreaseMinterAllowance { .. }
            | FiatTokenAction::IncreaseMinterAllowance { .. }
            | FiatTokenAction::RemoveMinter { .. } => Ok(Role::Controller),
            FiatTokenAction::Pause | FiatTokenAction::Unpause => Ok(Role::Pauser),
            FiatTokenAction::UpdateBlocklister { .. } => Ok(Role::Owner),
        }
    }

    /// Tells whether the action is scoped to the minter of one controller, so
    /// that only a controller of that same minter may approve or execute it.
    pub fn requires_controller_check(&self) -> (r: bool)
        ensures
            r == self.spec_requires_controller_check(),
    {
        match self {
            FiatTokenAction::ConfigureMinterAllowance { .. }
            | FiatTokenAction::DecreaseMinterAllowance { .. }
            | FiatTokenAction::IncreaseMinterAllowance { .. }
            | FiatTokenAction::RemoveMinter { .. } => true,
            _ => false,
        }
    }

    /// Returns the controller that the action names. Only the actions scoped
    /// to a minter name one.
    pub fn controller(&self) -> (r: &AccountId)
        requires
            self.spec_requires_controller_check(),
        ensures
            *r == self.spec_controller(),
    {
        match self {
            FiatTokenAction::ConfigureMinterAllowance { controller_id, .. }
            | FiatTokenAction::DecreaseMinterAllowance { controller_id, .. }
            | FiatTokenAction::IncreaseMinterAllowance { controller_id, .. }
            | FiatTokenAction::RemoveMinter { controller_id, .. } => controller_id,
            _ => unreached(),
        }
    }
}

} // verus!
