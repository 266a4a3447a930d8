//! What each operation of the contract decides and how it changes the state,
//! as functions on the state seen as plain mathematical data.
//!
//! Every operation has a `_check`, which names the first failing check or
//! passes, and most have an `_effect`, the state after the operation where its
//! check passes. A refused operation leaves the state as it was.

use vstd::prelude::*;
use crate::account::AccountId;
use crate::allowances::{allowance_of, HolderSpender};
use crate::error::{
    AllowanceChange, Counter, FiatTokenError, Missing, Quantity, RequestOperation, RoleChange, Spending,
};
use crate::events::fiat_token_event::{
    ApprovedForUpgrade, BlocklisterChanged, ControllerConfigured, ControllerRemoved, FiatTokenEvent,
    MinterConfigured, MinterRemoved, Paused, RoleConfigured, RoleRevoked, Unpaused,
};
use crate::fiat_token_action::{role_change_authority, FiatTokenAction};
use crate::guards::{and_then, not_blocklisted, only};
use crate::minting::{consumed, decreased, increased, quota};
use crate::multisig::{
    approval_outcome, approved_by, execution_eligibility, removal_eligibility, Configuration,
    RequestView,
};
use crate::account::names;
use crate::rbac::{
    grant_revoke_keep_valid, grant_revoke_laws, grant_revoke_touch_nothing_else, granted, holds,
    revoked, valid_assignments, RoleAssignments,
};
use crate::role::Role;

verus! {

/// The state of the contract.
pub struct ContractView {
    /// The members of each role.
    pub roles: RoleAssignments,
    /// The minter that each controller controls.
    pub controllers: Map<Seq<char>, AccountId>,
    /// The quota stored for each configured minter.
    pub minter_allowances: Map<Seq<char>, u128>,
    /// The allowance stored for each pair of holder and spender.
    pub allowances: Map<HolderSpender, u128>,
    /// The one account that manages the blocklist.
    pub blocklister: AccountId,
    /// Whether token operations are suspended.
    pub paused: bool,
    /// Whether the admins have approved an upgrade.
    pub approved_for_upgrade: bool,
    /// The settings of the approval scheme.
    pub config: Configuration,
    /// The identifier that the next request will get.
    pub next_request_id: u32,
    /// The pending requests by identifier.
    pub requests: Map<u32, RequestView>,
}

/// Forgets the value of a successful outcome.
pub open spec fn passed<T>(outcome: Result<T, FiatTokenError>) -> Result<(), FiatTokenError> {
    match outcome {
        Ok(_) => Ok(()),
        Err(error) => Err(error),
    }
}

/// An operation returns `value` where its check passes, and the failure of
/// the check where it does not.
pub open spec fn decided<T>(
    result: Result<T, FiatTokenError>,
    check: Result<(), FiatTokenError>,
    value: T,
) -> bool {
    match check {
        Ok(_) => result == Ok::<T, FiatTokenError>(value),
        Err(error) => result == Err::<T, FiatTokenError>(error),
    }
}

/// An operation moves the state to `effect` where its check passes, and
/// leaves it as it was where it does not.
pub open spec fn moved(
    before: ContractView,
    after: ContractView,
    check: Result<(), FiatTokenError>,
    effect: ContractView,
) -> bool {
    after == if check is Ok {
        effect
    } else {
        before
    }
}

/// Passes while the contract is not paused.
pub open spec fn not_paused(state: ContractView) -> Result<(), FiatTokenError> {
    if state.paused {
        Err(FiatTokenError::Paused)
    } else {
        Ok(())
    }
}

/// The assignments after `account` is granted `role` together with the
/// multi-signature marker.
pub open spec fn granted_with_marker(roles: RoleAssignments, account: Seq<char>, role: Role)
    -> RoleAssignments {
    granted(granted(roles, account, Role::Multisig), account, role)
}

/// The assignments after `role` is revoked from `account` together with the
/// multi-signature marker.
pub open spec fn revoked_with_marker(roles: RoleAssignments, account: Seq<char>, role: Role)
    -> RoleAssignments {
    revoked(revoked(roles, account, Role::Multisig), account, role)
}

/// The assignments after each of `accounts` in turn is granted `role`
/// together with the multi-signature marker.
pub open spec fn granted_to_each(roles: RoleAssignments, accounts: Seq<AccountId>, role: Role)
    -> RoleAssignments
    decreases accounts.len(),
{
    if accounts.len() == 0 {
        roles
    } else {
        granted_with_marker(
            granted_to_each(roles, accounts.drop_last(), role),
            accounts.last()@,
            role,
        )
    }
}

/// After each of `accounts` has been granted `role` together with the
/// multi-signature marker, an account holds a role exactly when it held it
/// before or it is one of `accounts` and the role is `role` or the marker.
pub proof fn granted_to_each_holds(
    roles: RoleAssignments,
    accounts: Seq<AccountId>,
    role: Role,
    account: Seq<char>,
    held: Role,
)
    requires
        valid_assignments(roles),
    ensures
        valid_assignments(granted_to_each(roles, accounts, role)),
        holds(granted_to_each(roles, accounts, role), account, held) <==> holds(
            roles,
            account,
            held,
        ) || (names(accounts).contains(account) && (held == role || held == Role::Multisig)),
    decreases accounts.len(),
{
    if accounts.len() > 0 {
        let front = accounts.drop_last();
        let last = accounts.last()@;
        let before = granted_to_each(roles, front, role);
        let marked = granted(before, last, Role::Multisig);
        granted_to_each_holds(roles, front, role, account, held);
        grant_revoke_keep_valid(before, last, Role::Multisig);
        grant_revoke_keep_valid(marked, last, role);
        grant_revoke_laws(before, last, Role::Multisig);
        grant_revoke_laws(marked, last, role);
        if account != last || held != Role::Multisig {
            grant_revoke_touch_nothing_else(before, last, Role::Multisig, account, held);
        }
        if account != last || held != role {
            grant_revoke_touch_nothing_else(marked, last, role, account, held);
        }
        assert(names(accounts)[accounts.len() - 1] == last);
        assert(names(accounts).contains(account) <==> names(front).contains(account) || account
            == last) by {
            if names(front).contains(account) {
                let i = names(front).index_of(account);
                assert(names(accounts)[i] == account);
            }
            if names(accounts).contains(account) && account != last {
                let i = names(accounts).index_of(account);
                assert(names(front)[i] == account);
            }
        }
    } else {
        assert(!names(accounts).contains(account));
    }
}

// Controllers

/// Whether `caller` may make `controller_id` a controller of `minter_id`:
/// only a master minter, and neither account may be blocklisted.
pub open spec fn configure_controller_check(
    state: ContractView,
    caller: AccountId,
    controller_id: AccountId,
    minter_id: AccountId,
) -> Result<(), FiatTokenError> {
    and_then(
        only(state.roles, caller, Role::MasterMinter),
        and_then(
            not_blocklisted(state.roles, controller_id),
            not_blocklisted(state.roles, minter_id),
        ),
    )
}

/// The state after `controller_id` has become a controller of `minter_id`:
/// it holds the controller role and the marker, and controls that minter
/// only.
pub open spec fn configure_controller_effect(
    state: ContractView,
    controller_id: AccountId,
    minter_id: AccountId,
) -> ContractView {
    ContractView {
        roles: granted_with_marker(state.roles, controller_id@, Role::Controller),
        controllers: state.controllers.insert(controller_id@, minter_id),
        ..state
    }
}

/// Whether `caller` may remove the controller `controller_id`: only a master
/// minter, and only a controller that controls a minter.
pub open spec fn remove_controller_check(
    state: ContractView,
    caller: AccountId,
    controller_id: AccountId,
) -> Result<(), FiatTokenError> {
    and_then(
        only(state.roles, caller, Role::MasterMinter),
        if state.controllers.contains_key(controller_id@) {
            Ok(())
        } else {
            Err(FiatTokenError::NotFound { missing: Missing::Controller })
        },
    )
}

/// The state after the controller `controller_id` has been removed: it has
/// lost the controller role and the marker, and controls no minter.
pub open spec fn remove_controller_effect(state: ContractView, controller_id: AccountId)
    -> ContractView {
    ContractView {
        roles: revoked_with_marker(state.roles, controller_id@, Role::Controller),
        controllers: state.controllers.remove(controller_id@),
        ..state
    }
}

// Minters

/// Passes when `caller` is a controller, is not blocklisted and controls a
/// minter.
pub open spec fn get_minter_check(state: ContractView, caller: AccountId) -> Result<
    (),
    FiatTokenError,
> {
    and_then(
        only(state.roles, caller, Role::Controller),
        and_then(
            not_blocklisted(state.roles, caller),
            if state.controllers.contains_key(caller@) {
                Ok(())
            } else {
                Err(FiatTokenError::NotFound { missing: Missing::ControlledMinter })
            },
        ),
    )
}

/// The minter that `caller` controls.
pub open spec fn minter_of(state: ContractView, caller: AccountId) -> AccountId
    recommends
        state.controllers.contains_key(caller@),
{
    state.controllers[caller@]
}

/// Whether `caller` may configure the allowance of its minter: it must pass
/// [`get_minter_check`], and the minter must not be blocklisted.
pub open spec fn configure_minter_allowance_check(state: ContractView, caller: AccountId) -> Result<
    (),
    FiatTokenError,
> {
    and_then(
        get_minter_check(state, caller),
        not_blocklisted(state.roles, minter_of(state, caller)),
    )
}

/// The state after the minter of `caller` has been configured: it holds the
/// minter role and its quota is `minter_allowance`.
pub open spec fn configure_minter_allowance_effect(
    state: ContractView,
    caller: AccountId,
    minter_allowance: u128,
) -> ContractView {
    ContractView {
        roles: granted(state.roles, minter_of(state, caller)@, Role::Minter),
        minter_allowances: state.minter_allowances.insert(
            minter_of(state, caller)@,
            minter_allowance,
        ),
        ..state
    }
}

/// The state after the minter of `caller` has been removed: it has lost the
/// minter role and has no quota entry.
pub open spec fn remove_minter_effect(state: ContractView, caller: AccountId) -> ContractView {
    ContractView {
        roles: revoked(state.roles, minter_of(state, caller)@, Role::Minter),
        minter_allowances: state.minter_allowances.remove(minter_of(state, caller)@),
        ..state
    }
}

/// The allowance that an increase by `increment` gives the minter of
/// `caller`, or the reason for which it is refused.
pub open spec fn increase_minter_allowance_outcome(
    state: ContractView,
    caller: AccountId,
    increment: u128,
) -> Result<u128, FiatTokenError> {
    match configure_minter_allowance_check(state, caller) {
        Ok(_) => increased(state.minter_allowances, minter_of(state, caller)@, increment),
        Err(error) => Err(error),
    }
}

/// The allowance that a decrease by `decrement` gives the minter of
/// `caller`, or the reason for which it is refused.
pub open spec fn decrease_minter_allowance_outcome(
    state: ContractView,
    caller: AccountId,
    decrement: u128,
) -> Result<u128, FiatTokenError> {
    match configure_minter_allowance_check(state, caller) {
        Ok(_) => decreased(state.minter_allowances, minter_of(state, caller)@, decrement),
        Err(error) => Err(error),
    }
}

/// The allowance in the outcome of an increase or a decrease that passes.
pub open spec fn new_allowance(outcome: Result<u128, FiatTokenError>) -> u128 {
    match outcome {
        Ok(allowance) => allowance,
        Err(_) => 0,
    }
}

// Allowances of spenders

/// Whether an allowance of `spender_id` over the tokens of `holder_id` may
/// be set: not while the contract is paused, and neither account may be
/// blocklisted.
pub open spec fn approve_check(state: ContractView, holder_id: AccountId, spender_id: AccountId)
    -> Result<(), FiatTokenError> {
    and_then(
        not_paused(state),
        and_then(
            not_blocklisted(state.roles, holder_id),
            not_blocklisted(state.roles, spender_id),
        ),
    )
}

/// The state after the allowance of `spender_id` over the tokens of
/// `holder_id` has been set to `allowance`.
pub open spec fn approve_effect(
    state: ContractView,
    holder_id: AccountId,
    spender_id: AccountId,
    allowance: u128,
) -> ContractView {
    ContractView {
        allowances: state.allowances.insert((holder_id@, spender_id@), allowance),
        ..state
    }
}

/// The allowance that an increase by `increment` gives `spender_id` over the
/// tokens of `holder_id`, or the reason for which it is refused.
pub open spec fn increase_allowance_outcome(
    state: ContractView,
    holder_id: AccountId,
    spender_id: AccountId,
    increment: u128,
) -> Result<u128, FiatTokenError> {
    let current = allowance_of(state.allowances, holder_id@, spender_id@);
    if increment == 0 {
        Err(FiatTokenError::InvalidAmount { quantity: Quantity::AllowanceIncrement })
    } else if current == 0 {
        Err(FiatTokenError::AllowanceNotApproved { attempted: AllowanceChange::Increment })
    } else if current + increment > u128::MAX {
        Err(FiatTokenError::Overflow { counter: Counter::Allowance })
    } else {
        match approve_check(state, holder_id, spender_id) {
            Ok(_) => Ok((current + increment) as u128),
            Err(error) => Err(error),
        }
    }
}

/// The allowance that a decrease by `decrement` leaves `spender_id` over the
/// tokens of `holder_id`, or the reason for which it is refused.
pub open spec fn decrease_allowance_outcome(
    state: ContractView,
    holder_id: AccountId,
    spender_id: AccountId,
    decrement: u128,
) -> Result<u128, FiatTokenError> {
    let current = allowance_of(state.allowances, holder_id@, spender_id@);
    if decrement == 0 {
        Err(FiatTokenError::InvalidAmount { quantity: Quantity::AllowanceDecrement })
    } else if current == 0 {
        Err(FiatTokenError::AllowanceNotApproved { attempted: AllowanceChange::Decrement })
    } else if decrement > current {
        Err(FiatTokenError::Underflow { counter: Counter::Allowance })
    } else {
        match approve_check(state, holder_id, spender_id) {
            Ok(_) => Ok((current - decrement) as u128),
            Err(error) => Err(error),
        }
    }
}

/// The allowance that a transfer of `value` from `from` leaves `caller`, or
/// the reason for which the transfer is refused.
pub open spec fn transfer_from_outcome(
    state: ContractView,
    caller: AccountId,
    from: AccountId,
    to: AccountId,
    value: u128,
) -> Result<u128, FiatTokenError> {
    let check = and_then(
        not_paused(state),
        and_then(
            not_blocklisted(state.roles, caller),
            and_then(not_blocklisted(state.roles, from), not_blocklisted(state.roles, to)),
        ),
    );
    match check {
        Ok(_) => if value > allowance_of(state.allowances, from@, caller@) {
            Err(FiatTokenError::ExceedsAllowance { spending: Spending::Transfer })
        } else {
            Ok((allowance_of(state.allowances, from@, caller@) - value) as u128)
        },
        Err(error) => Err(error),
    }
}

// Minting and burning

/// What is left of the quota of `caller` after it has minted `amount` for
/// `to`, or the reason for which the mint is refused.
pub open spec fn mint_outcome(state: ContractView, caller: AccountId, to: AccountId, amount: u128)
    -> Result<u128, FiatTokenError> {
    let check = and_then(
        not_paused(state),
        and_then(
            only(state.roles, caller, Role::Minter),
            and_then(not_blocklisted(state.roles, caller), not_blocklisted(state.roles, to)),
        ),
    );
    match check {
        Ok(_) => if amount == 0 {
            Err(FiatTokenError::InvalidAmount { quantity: Quantity::MintAmount })
        } else {
            consumed(state.minter_allowances, caller@, amount)
        },
        Err(error) => Err(error),
    }
}

/// The state after `caller` has minted: `remaining` is what is left of its
/// quota.
pub open spec fn mint_effect(state: ContractView, caller: AccountId, remaining: u128)
    -> ContractView {
    ContractView {
        minter_allowances: state.minter_allowances.insert(caller@, remaining),
        ..state
    }
}

/// Whether `caller`, with a balance of `balance`, may burn `amount`: only a
/// minter that is not blocklisted, while the contract is not paused, and an
/// amount that is positive and no more than the balance.
pub open spec fn burn_check(state: ContractView, caller: AccountId, amount: u128, balance: u128)
    -> Result<(), FiatTokenError> {
    and_then(
        not_paused(state),
        and_then(
            only(state.roles, caller, Role::Minter),
            and_then(
                not_blocklisted(state.roles, caller),
                if amount == 0 {
                    Err(FiatTokenError::InvalidAmount { quantity: Quantity::BurnAmount })
                } else if balance < amount {
                    Err(FiatTokenError::ExceedsBalance)
                } else {
                    Ok(())
                },
            ),
        ),
    )
}

// Pausing

/// Whether `caller` may pause the contract: only a pauser that is not
/// blocklisted, and only while the contract is not paused.
pub open spec fn pause_check(state: ContractView, caller: AccountId) -> Result<
    (),
    FiatTokenError,
> {
    and_then(
        only(state.roles, caller, Role::Pauser),
        and_then(not_paused(state), not_blocklisted(state.roles, caller)),
    )
}

/// Whether `caller` may unpause the contract: only a pauser that is not
/// blocklisted, and only while the contract is paused.
pub open spec fn unpause_check(state: ContractView, caller: AccountId) -> Result<
    (),
    FiatTokenError,
> {
    and_then(
        only(state.roles, caller, Role::Pauser),
        and_then(
            if state.paused {
                Ok(())
            } else {
                Err(FiatTokenError::NotPaused)
            },
            not_blocklisted(state.roles, caller),
        ),
    )
}

// Governance roles

/// Whether `caller` may grant or revoke `role`: the role must be one that
/// can be changed by request, and the caller must hold the role that has
/// authority over it.
pub open spec fn change_role_check(
    state: ContractView,
    caller: AccountId,
    role: Role,
    change: RoleChange,
) -> Result<(), FiatTokenError> {
    match role_change_authority(role, change) {
        Ok(authority) => only(state.roles, caller, authority),
        Err(error) => Err(error),
    }
}

/// The state after `new_blocklister_id` has become the blocklister: the
/// former one has lost the blocklister role and the new one holds it.
pub open spec fn update_blocklister_effect(state: ContractView, new_blocklister_id: AccountId)
    -> ContractView {
    ContractView {
        roles: granted(
            revoked(state.roles, state.blocklister@, Role::Blocklister),
            new_blocklister_id@,
            Role::Blocklister,
        ),
        blocklister: new_blocklister_id,
        ..state
    }
}

/// Whether `caller` may approve the contract for upgrade: only an admin
/// that is not blocklisted.
pub open spec fn approve_for_upgrade_check(state: ContractView, caller: AccountId) -> Result<
    (),
    FiatTokenError,
> {
    and_then(only(state.roles, caller, Role::Admin), not_blocklisted(state.roles, caller))
}

/// Whether `caller` may upgrade the contract: only an admin that is not
/// blocklisted, and only once an upgrade has been approved.
pub open spec fn on_upgrade_check(state: ContractView, caller: AccountId) -> Result<
    (),
    FiatTokenError,
> {
    and_then(
        approve_for_upgrade_check(state, caller),
        if state.approved_for_upgrade {
            Ok(())
        } else {
            Err(FiatTokenError::NotApprovedForUpgrade)
        },
    )
}

// The dispatcher

/// Whether `caller` may have `action` carried out now.
pub open spec fn execute_check(state: ContractView, caller: AccountId, action: FiatTokenAction)
    -> Result<(), FiatTokenError> {
    match action {
        FiatTokenAction::ApproveForUpgrade => approve_for_upgrade_check(state, caller),
        FiatTokenAction::ConfigureController { controller_id, minter_id } => {
            configure_controller_check(state, caller, controller_id, minter_id)
        },
        FiatTokenAction::ConfigureMinterAllowance { .. } => configure_minter_allowance_check(
            state,
            caller,
        ),
        FiatTokenAction::ConfigureMultisigRole { role, .. } => change_role_check(
            state,
            caller,
            role,
            RoleChange::Grant,
        ),
        FiatTokenAction::DecreaseMinterAllowance { decrement, .. } => passed(
            decrease_minter_allowance_outcome(state, caller, decrement),
        ),
        FiatTokenAction::IncreaseMinterAllowance { increment, .. } => passed(
            increase_minter_allowance_outcome(state, caller, increment),
        ),
        FiatTokenAction::Pause => pause_check(state, caller),
        FiatTokenAction::RemoveController { controller_id } => remove_controller_check(
            state,
            caller,
            controller_id,
        ),
        FiatTokenAction::RemoveMinter { .. } => get_minter_check(state, caller),
        FiatTokenAction::RevokeMultisigRole { role, .. } => change_role_check(
            state,
            caller,
            role,
            RoleChange::Revoke,
        ),
        FiatTokenAction::UpdateBlocklister { .. } => only(state.roles, caller, Role::Owner),
        FiatTokenAction::Unpause => unpause_check(state, caller),
    }
}

/// The state after `action` has been carried out for `caller`.
pub open spec fn execute_effect(state: ContractView, caller: AccountId, action: FiatTokenAction)
    -> ContractView {
    match action {
        FiatTokenAction::ApproveForUpgrade => ContractView { approved_for_upgrade: true, ..state },
        FiatTokenAction::ConfigureController { controller_id, minter_id } => {
            configure_controller_effect(state, controller_id, minter_id)
        },
        FiatTokenAction::ConfigureMinterAllowance { minter_allowance, .. } => {
            configure_minter_allowance_effect(state, caller, minter_allowance)
        },
        FiatTokenAction::ConfigureMultisigRole { role, account_id } => ContractView {
            roles: granted_with_marker(state.roles, account_id@, role),
            ..state
        },
        FiatTokenAction::DecreaseMinterAllowance { decrement, .. } => {
            configure_minter_allowance_effect(
                state,
                caller,
                new_allowance(decrease_minter_allowance_outcome(state, caller, decrement)),
            )
        },
        FiatTokenAction::IncreaseMinterAllowance { increment, .. } => {
            configure_minter_allowance_effect(
                state,
                caller,
                new_allowance(increase_minter_allowance_outcome(state, caller, increment)),
            )
        },
        FiatTokenAction::Pause => ContractView { paused: true, ..state },
        FiatTokenAction::RemoveController { controller_id } => remove_controller_effect(
            state,
            controller_id,
        ),
        FiatTokenAction::RemoveMinter { .. } => remove_minter_effect(state, caller),
        FiatTokenAction::RevokeMultisigRole { role, account_id } => ContractView {
            roles: revoked_with_marker(state.roles, account_id@, role),
            ..state
        },
        FiatTokenAction::UpdateBlocklister { new_blocklister_id } => update_blocklister_effect(
            state,
            new_blocklister_id,
        ),
        FiatTokenAction::Unpause => ContractView { paused: false, ..state },
    }
}

/// The event that tells that `action` has been carried out for `caller`.
pub open spec fn execute_event(state: ContractView, caller: AccountId, action: FiatTokenAction)
    -> FiatTokenEvent {
    match action {
        FiatTokenAction::ApproveForUpgrade => FiatTokenEvent::ApprovedForUpgrade(
            ApprovedForUpgrade,
        ),
        FiatTokenAction::ConfigureController { controller_id, minter_id } => {
            FiatTokenEvent::ControllerConfigured(ControllerConfigured { controller_id, minter_id })
        },
        FiatTokenAction::ConfigureMinterAllowance { minter_allowance, .. } => {
            FiatTokenEvent::MinterConfigured(
                MinterConfigured { minter_id: minter_of(state, caller), minter_allowance },
            )
        },
        FiatTokenAction::ConfigureMultisigRole { role, account_id } => {
            FiatTokenEvent::RoleConfigured(RoleConfigured { role, account_id })
        },
        FiatTokenAction::DecreaseMinterAllowance { decrement, .. } => {
            FiatTokenEvent::MinterConfigured(
                MinterConfigured {
                    minter_id: minter_of(state, caller),
                    minter_allowance: new_allowance(
                        decrease_minter_allowance_outcome(state, caller, decrement),
                    ),
                },
            )
        },
        FiatTokenAction::IncreaseMinterAllowance { increment, .. } => {
            FiatTokenEvent::MinterConfigured(
                MinterConfigured {
                    minter_id: minter_of(state, caller),
                    minter_allowance: new_allowance(
                        increase_minter_allowance_outcome(state, caller, increment),
                    ),
                },
            )
        },
        FiatTokenAction::Pause => FiatTokenEvent::Paused(Paused),
        FiatTokenAction::RemoveController { controller_id } => FiatTokenEvent::ControllerRemoved(
            ControllerRemoved { controller_id },
        ),
        FiatTokenAction::RemoveMinter { .. } => FiatTokenEvent::MinterRemoved(
            MinterRemoved { minter_id: minter_of(state, caller) },
        ),
        FiatTokenAction::RevokeMultisigRole { role, account_id } => FiatTokenEvent::RoleRevoked(
            RoleRevoked { role, account_id },
        ),
        FiatTokenAction::UpdateBlocklister { new_blocklister_id } => {
            FiatTokenEvent::BlocklisterChanged(BlocklisterChanged { new_blocklister_id })
        },
        FiatTokenAction::Unpause => FiatTokenEvent::Unpaused(Unpaused),
    }
}

proof fn change_elsewhere(
    roles: RoleAssignments,
    changed: Seq<char>,
    role: Role,
    account: Seq<char>,
)
    requires
        valid_assignments(roles),
    ensures
        valid_assignments(granted(roles, changed, role)),
        valid_assignments(revoked(roles, changed, role)),
        holds(granted(roles, changed, role), changed, role),
        !holds(revoked(roles, changed, role), changed, role),
        forall|held: Role|
            account != changed || held != role ==> #[trigger] holds(
                granted(roles, changed, role),
                account,
                held,
            ) == holds(roles, account, held),
        forall|held: Role|
            account != changed || held != role ==> #[trigger] holds(
                revoked(roles, changed, role),
                account,
                held,
            ) == holds(roles, account, held),
{
    grant_revoke_keep_valid(roles, changed, role);
    grant_revoke_laws(roles, changed, role);
    assert forall|held: Role| account != changed || held != role implies #[trigger] holds(
        granted(roles, changed, role),
        account,
        held,
    ) == holds(roles, account, held) by {
        grant_revoke_touch_nothing_else(roles, changed, role, account, held);
    }
    assert forall|held: Role| account != changed || held != role implies #[trigger] holds(
        revoked(roles, changed, role),
        account,
        held,
    ) == holds(roles, account, held) by {
        grant_revoke_touch_nothing_else(roles, changed, role, account, held);
    }
}

/// The minter role and the quota entries go together: an account holds the
/// minter role exactly when a quota is stored for it.
pub open spec fn minters_in_lockstep(state: ContractView) -> bool {
    forall|account: Seq<char>|
        holds(state.roles, account, Role::Minter) <==> #[trigger] state.minter_allowances.contains_key(
            account,
        )
}

/// No action and no mint separates the minter role from the quota entries:
/// where they go together before, they go together after.
pub proof fn minters_stay_in_lockstep(
    state: ContractView,
    caller: AccountId,
    action: FiatTokenAction,
    to: AccountId,
    amount: u128,
)
    requires
        valid_assignments(state.roles),
        minters_in_lockstep(state),
    ensures
        execute_check(state, caller, action) is Ok ==> minters_in_lockstep(
            execute_effect(state, caller, action),
        ),
        mint_outcome(state, caller, to, amount) is Ok ==> minters_in_lockstep(
            mint_effect(state, caller, new_allowance(mint_outcome(state, caller, to, amount))),
        ),
{
    if mint_outcome(state, caller, to, amount) is Ok {
        let after = mint_effect(
            state,
            caller,
            new_allowance(mint_outcome(state, caller, to, amount)),
        );
        assert forall|account: Seq<char>|
            holds(after.roles, account, Role::Minter) <==> #[trigger] after.minter_allowances.contains_key(
                account,
            ) by {
            assert(state.minter_allowances.contains_key(account) <==> holds(
                state.roles,
                account,
                Role::Minter,
            ));
        }
    }
    if execute_check(state, caller, action) is Ok {
        let after = execute_effect(state, caller, action);
        assert forall|account: Seq<char>|
            holds(after.roles, account, Role::Minter) <==> #[trigger] after.minter_allowances.contains_key(
                account,
            ) by {
            assert(state.minter_allowances.contains_key(account) <==> holds(
                state.roles,
                account,
                Role::Minter,
            ));
            match action {
                FiatTokenAction::ConfigureController { controller_id, .. } => {
                    change_elsewhere(state.roles, controller_id@, Role::Multisig, account);
                    change_elsewhere(
                        granted(state.roles, controller_id@, Role::Multisig),
                        controller_id@,
                        Role::Controller,
                        account,
                    );
                },
                FiatTokenAction::ConfigureMultisigRole { role, account_id } => {
                    change_elsewhere(state.roles, account_id@, Role::Multisig, account);
                    change_elsewhere(
                        granted(state.roles, account_id@, Role::Multisig),
                        account_id@,
                        role,
                        account,
                    );
                },
                FiatTokenAction::RemoveController { controller_id } => {
                    change_elsewhere(state.roles, controller_id@, Role::Multisig, account);
                    change_elsewhere(
                        revoked(state.roles, controller_id@, Role::Multisig),
                        controller_id@,
                        Role::Controller,
                        account,
                    );
                },
                FiatTokenAction::RevokeMultisigRole { role, account_id } => {
                    change_elsewhere(state.roles, account_id@, Role::Multisig, account);
                    change_elsewhere(
                        revoked(state.roles, account_id@, Role::Multisig),
                        account_id@,
                        role,
                        account,
                    );
                },
                FiatTokenAction::UpdateBlocklister { new_blocklister_id } => {
                    change_elsewhere(state.roles, state.blocklister@, Role::Blocklister, account);
                    change_elsewhere(
                        revoked(state.roles, state.blocklister@, Role::Blocklister),
                        new_blocklister_id@,
                        Role::Blocklister,
                        account,
                    );
                },
                FiatTokenAction::ConfigureMinterAllowance { .. }
                | FiatTokenAction::IncreaseMinterAllowance { .. }
                | FiatTokenAction::DecreaseMinterAllowance { .. }
                | FiatTokenAction::RemoveMinter { .. } => {
                    change_elsewhere(state.roles, minter_of(state, caller)@, Role::Minter, account);
                },
                _ => {},
            }
        }
    }
}

/// Whether `account` holds one of the roles that take part in the
/// multi-signature scheme.
pub open spec fn holds_governance_role(roles: RoleAssignments, account: Seq<char>) -> bool {
    holds(roles, account, Role::Admin) || holds(roles, account, Role::MasterMinter) || holds(
        roles,
        account,
        Role::Owner,
    ) || holds(roles, account, Role::Pauser) || holds(roles, account, Role::Controller)
}

/// No multi-signature marker is stale: every account that holds the marker
/// holds one of the roles that take part in the scheme.
pub open spec fn markers_are_backed(state: ContractView) -> bool {
    forall|account: Seq<char>| #[trigger]
        holds(state.roles, account, Role::Multisig) ==> holds_governance_role(
            state.roles,
            account,
        )
}

/// No action leaves a stale marker behind: where every marker is backed by a
/// role before, every marker is backed after. An action that revokes a role
/// takes the marker of the account with it, and an action that grants a role
/// with the marker grants the role.
pub proof fn markers_stay_backed(state: ContractView, caller: AccountId, action: FiatTokenAction)
    requires
        valid_assignments(state.roles),
        markers_are_backed(state),
        execute_check(state, caller, action) is Ok,
    ensures
        markers_are_backed(execute_effect(state, caller, action)),
{
    let after = execute_effect(state, caller, action);
    assert forall|account: Seq<char>| #[trigger]
        holds(after.roles, account, Role::Multisig) implies holds_governance_role(
        after.roles,
        account,
    ) by {
        assert(holds(state.roles, account, Role::Multisig) ==> holds_governance_role(
            state.roles,
            account,
        ));
        match action {
            FiatTokenAction::ConfigureController { controller_id, .. } => {
                change_elsewhere(state.roles, controller_id@, Role::Multisig, account);
                change_elsewhere(
                    granted(state.roles, controller_id@, Role::Multisig),
                    controller_id@,
                    Role::Controller,
                    account,
                );
            },
            FiatTokenAction::ConfigureMultisigRole { role, account_id } => {
                change_elsewhere(state.roles, account_id@, Role::Multisig, account);
                change_elsewhere(
                    granted(state.roles, account_id@, Role::Multisig),
                    account_id@,
                    role,
                    account,
                );
            },
            FiatTokenAction::RemoveController { controller_id } => {
                change_elsewhere(state.roles, controller_id@, Role::Multisig, account);
                change_elsewhere(
                    revoked(state.roles, controller_id@, Role::Multisig),
                    controller_id@,
                    Role::Controller,
                    account,
                );
            },
            FiatTokenAction::RevokeMultisigRole { role, account_id } => {
                change_elsewhere(state.roles, account_id@, Role::Multisig, account);
                change_elsewhere(
                    revoked(state.roles, account_id@, Role::Multisig),
                    account_id@,
                    role,
                    account,
                );
            },
            FiatTokenAction::UpdateBlocklister { new_blocklister_id } => {
                change_elsewhere(state.roles, state.blocklister@, Role::Blocklister, account);
                change_elsewhere(
                    revoked(state.roles, state.blocklister@, Role::Blocklister),
                    new_blocklister_id@,
                    Role::Blocklister,
                    account,
                );
            },
            FiatTokenAction::ConfigureMinterAllowance { .. }
            | FiatTokenAction::IncreaseMinterAllowance { .. }
            | FiatTokenAction::DecreaseMinterAllowance { .. }
            | FiatTokenAction::RemoveMinter { .. } => {
                change_elsewhere(state.roles, minter_of(state, caller)@, Role::Minter, account);
            },
            _ => {},
        }
    }
}

// Requests

/// For an action scoped to the minter of one controller: passes when the
/// controller that the action names and `caller` both control a minter, and
/// the same one. Looked up in the assignments as they are now, not as they
/// were when the request was created.
pub open spec fn controller_check(
    state: ContractView,
    caller: AccountId,
    action: FiatTokenAction,
    operation: RequestOperation,
) -> Result<(), FiatTokenError> {
    if !action.spec_requires_controller_check() {
        Ok(())
    } else if !state.controllers.contains_key(action.spec_controller()@) {
        Err(FiatTokenError::NotFound { missing: Missing::Controller })
    } else if !state.controllers.contains_key(caller@) {
        Err(FiatTokenError::NotFound { missing: Missing::ControlledMinter })
    } else if state.controllers[action.spec_controller()@]@ != state.controllers[caller@]@ {
        Err(FiatTokenError::WrongController { operation })
    } else {
        Ok(())
    }
}

/// Passes when `caller` holds the role that `action` requires and, for an
/// action scoped to a minter, controls that minter.
pub open spec fn request_access_check(
    state: ContractView,
    caller: AccountId,
    action: FiatTokenAction,
    operation: RequestOperation,
) -> Result<(), FiatTokenError> {
    match action.spec_role_required() {
        Ok(role) => and_then(
            only(state.roles, caller, role),
            controller_check(state, caller, action, operation),
        ),
        Err(error) => Err(error),
    }
}

/// Whether `caller` may create a request for `action`: the action must be
/// one that a role may propose, the caller must hold that role and the
/// multi-signature marker, and the counter of identifiers must not be
/// exhausted.
pub open spec fn create_request_check(
    state: ContractView,
    caller: AccountId,
    action: FiatTokenAction,
) -> Result<(), FiatTokenError> {
    match action.spec_role_required() {
        Ok(role) => and_then(
            only(state.roles, caller, role),
            and_then(
                only(state.roles, caller, Role::Multisig),
                if state.next_request_id == u32::MAX {
                    Err(FiatTokenError::Overflow { counter: Counter::RequestId })
                } else {
                    Ok(())
                },
            ),
        ),
        Err(error) => Err(error),
    }
}

/// The state after a request for `action` has been created at `now`: the
/// request is pending under the next identifier, with no approvals, and the
/// counter has moved on by one.
pub open spec fn create_request_effect(state: ContractView, action: FiatTokenAction, now: u64)
    -> ContractView {
    ContractView {
        next_request_id: (state.next_request_id + 1) as u32,
        requests: state.requests.insert(
            state.next_request_id,
            RequestView { action, approvals: Seq::empty(), created_at: now },
        ),
        ..state
    }
}

/// Whether `caller` may approve the request `request_id` at `now`, by the
/// first check that fails: the request must exist; the caller must pass
/// [`request_access_check`] and hold the multi-signature marker; the request
/// must not have expired; and the caller must not have approved it before.
pub open spec fn approve_request_check(
    state: ContractView,
    caller: AccountId,
    request_id: u32,
    now: u64,
) -> Result<(), FiatTokenError> {
    if !state.requests.contains_key(request_id) {
        Err(FiatTokenError::NotFound { missing: Missing::Request })
    } else {
        and_then(
            request_access_check(
                state,
                caller,
                state.requests[request_id].action,
                RequestOperation::Approve,
            ),
            and_then(
                only(state.roles, caller, Role::Multisig),
                approval_outcome(state.config, state.requests[request_id], caller@, now),
            ),
        )
    }
}

/// The state after `caller` has approved the request `request_id`.
pub open spec fn approve_request_effect(state: ContractView, caller: AccountId, request_id: u32)
    -> ContractView {
    ContractView {
        requests: state.requests.insert(
            request_id,
            approved_by(state.requests[request_id], caller@),
        ),
        ..state
    }
}

/// Whether `caller` may execute the request `request_id` at `now`, by the
/// first check that fails: the request must exist; the caller must pass
/// [`request_access_check`]; the request must not have expired and must have
/// as many approvals as the threshold asks for; the caller must hold the
/// multi-signature marker; and the action must pass its own checks.
pub open spec fn execute_request_check(
    state: ContractView,
    caller: AccountId,
    request_id: u32,
    now: u64,
) -> Result<(), FiatTokenError> {
    if !state.requests.contains_key(request_id) {
        Err(FiatTokenError::NotFound { missing: Missing::Request })
    } else {
        and_then(
            request_access_check(
                state,
                caller,
                state.requests[request_id].action,
                RequestOperation::Execute,
            ),
            and_then(
                execution_eligibility(state.config, state.requests[request_id], now),
                and_then(
                    only(state.roles, caller, Role::Multisig),
                    execute_check(state, caller, state.requests[request_id].action),
                ),
            ),
        )
    }
}

/// The state after the request `request_id` has been executed for `caller`:
/// its action has been carried out and the request is gone.
pub open spec fn execute_request_effect(state: ContractView, caller: AccountId, request_id: u32)
    -> ContractView {
    let executed = execute_effect(state, caller, state.requests[request_id].action);
    ContractView { requests: executed.requests.remove(request_id), ..executed }
}

/// Whether `caller` may remove the request `request_id` at `now`, by the
/// first check that fails: the request must exist; the caller must pass
/// [`request_access_check`]; the request must have expired; and the caller
/// must hold the multi-signature marker.
pub open spec fn remove_request_check(
    state: ContractView,
    caller: AccountId,
    request_id: u32,
    now: u64,
) -> Result<(), FiatTokenError> {
    if !state.requests.contains_key(request_id) {
        Err(FiatTokenError::NotFound { missing: Missing::Request })
    } else {
        and_then(
            request_access_check(
                state,
                caller,
                state.requests[request_id].action,
                RequestOperation::Remove,
            ),
            and_then(
                removal_eligibility(state.config, state.requests[request_id], now),
                only(state.roles, caller, Role::Multisig),
            ),
        )
    }
}

/// The state after the request `request_id` has been removed: the request
/// is gone, and nothing else has changed.
pub open spec fn remove_request_effect(state: ContractView, request_id: u32) -> ContractView {
    ContractView { requests: state.requests.remove(request_id), ..state }
}

/// Every pending request has an identifier below the one that the next
/// request will get.
pub open spec fn identifiers_in_order(state: ContractView) -> bool {
    forall|request_id: u32| #[trigger]
        state.requests.contains_key(request_id) ==> request_id < state.next_request_id
}

/// The identifiers of requests only ever grow and none is used twice: a new
/// request gets an identifier that no pending request has and that is above
/// all of theirs, and removing a request gives no identifier back.
pub proof fn identifiers_are_never_reused(
    state: ContractView,
    action: FiatTokenAction,
    now: u64,
    removed: u32,
)
    requires
        identifiers_in_order(state),
        state.next_request_id < u32::MAX,
    ensures
        !state.requests.contains_key(state.next_request_id),
        create_request_effect(state, action, now).next_request_id == state.next_request_id + 1,
        identifiers_in_order(create_request_effect(state, action, now)),
        remove_request_effect(state, removed).next_request_id == state.next_request_id,
        identifiers_in_order(remove_request_effect(state, removed)),
        create_request_effect(remove_request_effect(state, removed), action, now).requests
            == state.requests.remove(removed).insert(
            state.next_request_id,
            RequestView { action, approvals: Seq::empty(), created_at: now },
        ),
{
}

// Guards of the token operations that the host carries out

/// Whether tokens may move between `caller` and `receiver_id`: not while
/// the contract is paused, and neither account may be blocklisted.
pub open spec fn transfer_check(state: ContractView, caller: AccountId, receiver_id: AccountId)
    -> Result<(), FiatTokenError> {
    and_then(
        not_paused(state),
        and_then(
            not_blocklisted(state.roles, caller),
            not_blocklisted(state.roles, receiver_id),
        ),
    )
}

/// Whether `caller` may deposit for storage, for itself or for `account_id`:
/// not while the contract is paused, and neither account may be blocklisted.
pub open spec fn storage_deposit_check(
    state: ContractView,
    caller: AccountId,
    account_id: Option<AccountId>,
) -> Result<(), FiatTokenError> {
    and_then(
        not_paused(state),
        and_then(
            not_blocklisted(state.roles, caller),
            match account_id {
                Some(account) => not_blocklisted(state.roles, account),
                None => Ok(()),
            },
        ),
    )
}

/// Whether `caller` may give up its registration: `Ok(true)` for a
/// registered account with an empty balance, `Ok(false)` for an account that
/// is not registered.
pub open spec fn storage_unregister_outcome(
    state: ContractView,
    caller: AccountId,
    force: Option<bool>,
    balance: Option<u128>,
) -> Result<bool, FiatTokenError> {
    match and_then(not_paused(state), not_blocklisted(state.roles, caller)) {
        Err(error) => Err(error),
        Ok(_) => if force == Some(true) {
            Err(FiatTokenError::ForcedUnregister)
        } else {
            match balance {
                Some(amount) => if amount == 0 {
                    Ok(true)
                } else {
                    Err(FiatTokenError::PositiveBalance)
                },
                None => Ok(false),
            }
        },
    }
}

} // verus!
