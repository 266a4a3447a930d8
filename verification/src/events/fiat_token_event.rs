//! The events that successful operations hand back for the host to publish.

use vstd::prelude::*;
use crate::account::AccountId;
use crate::role::Role;

verus! {

/// A holder has set the allowance of a spender.
#[derive(Clone, Debug, PartialEq, Eq)]
pub struct Approve {
    pub holder_id: AccountId,
    pub spender_id: AccountId,
    pub allowance: u128,
}

/// The contract has been approved for upgrade.
#[derive(Clone, Copy, Debug, PartialEq, Eq, Structural)]
pub struct ApprovedForUpgrade;

/// An account has been put on the blocklist.
#[derive(Clone, Debug, PartialEq, Eq)]
pub struct Blocklist {
    pub account_id: AccountId,
}

/// The blocklister has changed.
#[derive(Clone, Debug, PartialEq, Eq)]
pub struct BlocklisterChanged {
    pub new_blocklister_id: AccountId,
}

/// A controller has been configured with a minter.
#[derive(Clone, Debug, PartialEq, Eq)]
pub struct ControllerConfigured {
    pub controller_id: AccountId,
    pub minter_id: AccountId,
}

/// A controller has been removed.
#[derive(Clone, Debug, PartialEq, Eq)]
pub struct ControllerRemoved {
    pub controller_id: AccountId,
}

/// A minter has been configured with an allowance.
#[derive(Clone, Debug, PartialEq, Eq)]
pub struct MinterConfigured {
    pub minter_id: AccountId,
    pub minter_allowance: u128,
}

/// A minter has been removed.
#[derive(Clone, Debug, PartialEq, Eq)]
pub struct MinterRemoved {
    pub minter_id: AccountId,
}

/// A multi-signature request has been created.
#[derive(Clone, Copy, Debug, PartialEq, Eq, Structural)]
pub struct MultisigRequestCreated {
    pub request_id: u32,
}

/// The contract has been paused.
#[derive(Clone, Copy, Debug, PartialEq, Eq, Structural)]
pub struct Paused;

/// An account has been granted one of the governance roles.
#[derive(Clone, Debug, PartialEq, Eq)]
pub struct RoleConfigured {
    pub role: Role,
    pub account_id: AccountId,
}

/// One of the governance roles has been revoked from an account.
#[derive(Clone, Debug, PartialEq, Eq)]
pub struct RoleRevoked {
    pub role: Role,
    pub account_id: AccountId,
}

/// An account has been taken off the blocklist.
#[derive(Clone, Debug, PartialEq, Eq)]
pub struct Unblocklist {
    pub account_id: AccountId,
}

/// The contract has been unpaused.
#[derive(Clone, Copy, Debug, PartialEq, Eq, Structural)]
pub struct Unpaused;

/// The event of an executed action.
#[derive(Clone, Debug, PartialEq, Eq)]
pub enum FiatTokenEvent {
    ApprovedForUpgrade(ApprovedForUpgrade),
    BlocklisterChanged(BlocklisterChanged),
    ControllerConfigured(ControllerConfigured),
    ControllerRemoved(ControllerRemoved),
    MinterConfigured(MinterConfigured),
    MinterRemoved(MinterRemoved),
    Paused(Paused),
    RoleConfigured(RoleConfigured),
    RoleRevoked(RoleRevoked),
    Unpaused(Unpaused),
}

} // verus!
