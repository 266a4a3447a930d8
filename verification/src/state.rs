//! The state of the contract as plain data, for the host to keep between
//! calls.

use vstd::prelude::*;
use crate::account::AccountId;
use crate::account_map::stored_in_turn;
use crate::allowances::{approved_in_turn, AllowanceEntry};
use crate::multisig::{records_valid, requests_of, Configuration, RequestRecord};
use crate::rbac::assignments_of;
use crate::role::ROLE_COUNT;
use crate::transitions::ContractView;

verus! {

/// Everything that a contract holds, in vectors and plain values.
#[derive(Clone, Debug, PartialEq, Eq)]
pub struct ContractState {
    /// The members of each role, the list of a role at its persisted
    /// position. A state written before a role was added has a shorter
    /// table.
    pub role_members: Vec<Vec<AccountId>>,
    /// Each controller with the minter it controls.
    pub controllers: Vec<(AccountId, AccountId)>,
    /// Each configured minter with its quota.
    pub minter_allowed: Vec<(AccountId, u128)>,
    /// Each holder and spender with the allowance of the spender.
    pub allowed: Vec<AllowanceEntry>,
    /// The one account that manages the blocklist.
    pub blocklister: AccountId,
    /// Whether token operations are suspended.
    pub paused: bool,
    /// Whether the admins have approved an upgrade.
    pub approved_for_upgrade: bool,
    /// The settings of the approval scheme.
    pub config: Configuration,
    /// The identifier that the next request will get.
    pub next_request_id: u32,
    /// The pending requests.
    pub requests: Vec<RequestRecord>,
}

/// A state can be restored when its table of roles is no longer than the
/// list of roles, no two of its requests have the same identifier, and each
/// of them has an identifier below the one that the next request will get.
pub open spec fn state_valid(state: ContractState) -> bool {
    &&& state.role_members@.len() <= ROLE_COUNT
    &&& records_valid(state.next_request_id, state.requests@)
}

/// The contract that a state stands for. Where an account occurs twice in a
/// list of members or of approvals it counts once; where two entries of a
/// table are for the same account, or the same holder and spender, the later
/// one counts.
pub open spec fn state_view(state: ContractState) -> ContractView {
    ContractView {
        roles: assignments_of(state.role_members@),
        controllers: stored_in_turn(state.controllers@),
        minter_allowances: stored_in_turn(state.minter_allowed@),
        allowances: approved_in_turn(state.allowed@),
        blocklister: state.blocklister,
        paused: state.paused,
        approved_for_upgrade: state.approved_for_upgrade,
        config: state.config,
        next_request_id: state.next_request_id,
        requests: requests_of(state.requests@),
    }
}

} // verus!
