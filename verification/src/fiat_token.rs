//! The contract: the role registry, the minter-allowance ledger, the spender
//! allowances and the multi-signature request store behind one set of guarded
//! operations.
//!
//! Every operation names its caller, and those that depend on time take the
//! current time. An operation that is refused returns the reason and leaves
//! the contract as it was. One that succeeds returns the event for the host to
//! publish; where tokens move, the host moves them after the operation has
//! succeeded.

use vstd::prelude::*;
use crate::account::{names, AccountId};
use crate::allowances::{allowance_of, AllowanceTable};
use crate::error::{
    AllowanceChange, Counter, FiatTokenError, Missing, Quantity, RequestOperation, RoleChange,
    Spending,
};
use crate::events::fiat_token_event::{
    Approve, ApprovedForUpgrade, Blocklist, BlocklisterChanged, ControllerConfigured,
    ControllerRemoved, FiatTokenEvent, MinterConfigured, MinterRemoved, MultisigRequestCreated,
    Paused, RoleConfigured, RoleRevoked, Unblocklist, Unpaused,
};
use crate::fiat_token_action::{role_change_authority_of, FiatTokenAction};
use crate::guards::{only, require_not_blocklisted, require_only};
use crate::minting::{quota, MinterAllowanceLedger};
use crate::multisig::{Configuration, MultisigRequestStore};
use crate::rbac::{
    grant_revoke_keep_valid, grant_revoke_laws, grant_revoke_touch_nothing_else, granted, holds,
    no_assignments, revoked, valid_assignments, RoleRegistry,
};
use crate::role::Role;
use crate::state::{state_valid, state_view, ContractState};
use crate::transitions::{
    approve_check, approve_effect, approve_for_upgrade_check, approve_request_check,
    approve_request_effect, burn_check, change_role_check, configure_controller_check,
    configure_controller_effect, configure_minter_allowance_check,
    configure_minter_allowance_effect, create_request_check, create_request_effect, decided,
    decrease_allowance_outcome, decrease_minter_allowance_outcome, execute_check,
    execute_effect, execute_event, execute_request_check, execute_request_effect,
    get_minter_check, granted_to_each, granted_to_each_holds, granted_with_marker,
    holds_governance_role, identifiers_in_order, markers_are_backed, increase_allowance_outcome, increase_minter_allowance_outcome,
    mint_effect, mint_outcome, minter_of, minters_in_lockstep, moved, new_allowance, not_paused,
    on_upgrade_check, passed, pause_check, remove_controller_check, remove_controller_effect,
    remove_minter_effect, remove_request_check, remove_request_effect, request_access_check,
    revoked_with_marker, storage_deposit_check, storage_unregister_outcome, transfer_check,
    transfer_from_outcome, unpause_check, update_blocklister_effect, ContractView,
};

verus! {

/// The number of approvals that a request needs by default.
pub const APPROVAL_THRESHOLD: u32 = 2;

/// The validity period of a request by default: five days, in nanoseconds.
pub const VALIDITY_PERIOD_NANOSECONDS: u64 = 432000000000000;

/// The state in which a contract starts: the given accounts hold their
/// governance roles and the multi-signature marker, the blocklister holds its
/// role, and there are no controllers, minters, allowances or requests.
pub open spec fn initial_state(
    config: Configuration,
    admin_ids: Seq<AccountId>,
    master_minter_ids: Seq<AccountId>,
    owner_ids: Seq<AccountId>,
    pauser_ids: Seq<AccountId>,
    blocklister_id: AccountId,
) -> ContractView {
    ContractView {
        roles: granted_to_each(
            granted_to_each(
                granted_to_each(
                    granted(
                        granted_to_each(no_assignments(), admin_ids, Role::Admin),
                        blocklister_id@,
                        Role::Blocklister,
                    ),
                    master_minter_ids,
                    Role::MasterMinter,
                ),
                owner_ids,
                Role::Owner,
            ),
            pauser_ids,
            Role::Pauser,
        ),
        controllers: Map::empty(),
        minter_allowances: Map::empty(),
        allowances: Map::empty(),
        blocklister: blocklister_id,
        paused: false,
        approved_for_upgrade: false,
        config,
        next_request_id: 0,
        requests: Map::empty(),
    }
}

/// Who holds what when a contract starts: the blocklister holds its role,
/// and each account of a governance list holds the role of the list and the
/// multi-signature marker. Nobody holds anything else.
pub proof fn initially_held(
    config: Configuration,
    admin_ids: Seq<AccountId>,
    master_minter_ids: Seq<AccountId>,
    owner_ids: Seq<AccountId>,
    pauser_ids: Seq<AccountId>,
    blocklister_id: AccountId,
    account: Seq<char>,
    held: Role,
)
    ensures
        valid_assignments(
            initial_state(
                config,
                admin_ids,
                master_minter_ids,
                owner_ids,
                pauser_ids,
                blocklister_id,
            ).roles,
        ),
        holds(
            initial_state(
                config,
                admin_ids,
                master_minter_ids,
                owner_ids,
                pauser_ids,
                blocklister_id,
            ).roles,
            account,
            held,
        ) <==> {
            ||| account == blocklister_id@ && held == Role::Blocklister
            ||| names(admin_ids).contains(account) && (held == Role::Admin || held
                == Role::Multisig)
            ||| names(master_minter_ids).contains(account) && (held == Role::MasterMinter || held
                == Role::Multisig)
            ||| names(owner_ids).contains(account) && (held == Role::Owner || held
                == Role::Multisig)
            ||| names(pauser_ids).contains(account) && (held == Role::Pauser || held
                == Role::Multisig)
        },
{
    let none = no_assignments();
    let admins = granted_to_each(none, admin_ids, Role::Admin);
    let listed = granted(admins, blocklister_id@, Role::Blocklister);
    let master_minters = granted_to_each(listed, master_minter_ids, Role::MasterMinter);
    let owners = granted_to_each(master_minters, owner_ids, Role::Owner);
    assert(valid_assignments(none)) by {
        assert forall|role: Role|
            #![trigger none.contains_key(role)]
            #![trigger none[role]]
            none.contains_key(role) && none[role].no_duplicates() by {}
    }
    granted_to_each_holds(none, admin_ids, Role::Admin, account, held);
    grant_revoke_keep_valid(admins, blocklister_id@, Role::Blocklister);
    grant_revoke_laws(admins, blocklister_id@, Role::Blocklister);
    if account != blocklister_id@ || held != Role::Blocklister {
        grant_revoke_touch_nothing_else(admins, blocklister_id@, Role::Blocklister, account, held);
    }
    granted_to_each_holds(listed, master_minter_ids, Role::MasterMinter, account, held);
    granted_to_each_holds(master_minters, owner_ids, Role::Owner, account, held);
    granted_to_each_holds(owners, pauser_ids, Role::Pauser, account, held);
}

/// A contract starts in good order: no list of members names an account
/// twice, nobody is a minter and nobody has a quota, every multi-signature
/// marker is backed by a governance role, and no request is pending.
pub proof fn initial_state_in_order(
    config: Configuration,
    admin_ids: Seq<AccountId>,
    master_minter_ids: Seq<AccountId>,
    owner_ids: Seq<AccountId>,
    pauser_ids: Seq<AccountId>,
    blocklister_id: AccountId,
)
    ensures
        ({
            let state = initial_state(
                config,
                admin_ids,
                master_minter_ids,
                owner_ids,
                pauser_ids,
                blocklister_id,
            );
            &&& valid_assignments(state.roles)
            &&& minters_in_lockstep(state)
            &&& markers_are_backed(state)
            &&& identifiers_in_order(state)
        }),
{
    let state = initial_state(
        config,
        admin_ids,
        master_minter_ids,
        owner_ids,
        pauser_ids,
        blocklister_id,
    );
    initially_held(
        config,
        admin_ids,
        master_minter_ids,
        owner_ids,
        pauser_ids,
        blocklister_id,
        Seq::empty(),
        Role::Minter,
    );
    assert forall|account: Seq<char>| !holds(state.roles, account, Role::Minter) by {
        initially_held(
            config,
            admin_ids,
            master_minter_ids,
            owner_ids,
            pauser_ids,
            blocklister_id,
            account,
            Role::Minter,
        );
    }
    assert forall|account: Seq<char>| #[trigger]
        holds(state.roles, account, Role::Multisig) implies holds_governance_role(
        state.roles,
        account,
    ) by {
        initially_held(
            config,
            admin_ids,
            master_minter_ids,
            owner_ids,
            pauser_ids,
            blocklister_id,
            account,
            Role::Multisig,
        );
        initially_held(
            config,
            admin_ids,
            master_minter_ids,
            owner_ids,
            pauser_ids,
            blocklister_id,
            account,
            Role::Admin,
        );
        initially_held(
            config,
            admin_ids,
            master_minter_ids,
            owner_ids,
            pauser_ids,
            blocklister_id,
            account,
            Role::MasterMinter,
        );
        initially_held(
            config,
            admin_ids,
            master_minter_ids,
            owner_ids,
            pauser_ids,
            blocklister_id,
            account,
            Role::Owner,
        );
        initially_held(
            config,
            admin_ids,
            master_minter_ids,
            owner_ids,
            pauser_ids,
            blocklister_id,
            account,
            Role::Pauser,
        );
    }
}

/// The governance core of the token contract.
///
/// The operations that the actions of requests stand for, such as
/// [`Contract::configure_controller`] or [`Contract::pause`], check the role
/// of their caller but know nothing of approvals. A host that wants them to
/// happen by approved request only offers its callers
/// [`Contract::execute_multisig_request`] and keeps them to itself. The same
/// goes for the operations that check nothing at all, which are for setting
/// a contract up: [`Contract::init_multisig_roles`],
/// [`Contract::_grant_multisig_role`] and [`Contract::_revoke_multisig_role`].
pub struct Contract {
    roles: RoleRegistry,
    minting: MinterAllowanceLedger,
    allowed: AllowanceTable,
    multisig: MultisigRequestStore,
    blocklister: AccountId,
    paused: bool,
    approved_for_upgrade: bool,
}

impl View for Contract {
    type V = ContractView;

    closed spec fn view(&self) -> ContractView {
        ContractView {
            roles: self.roles@,
            controllers: self.minting.controllers(),
            minter_allowances: self.minting.quotas(),
            allowances: self.allowed@,
            blocklister: self.blocklister,
            paused: self.paused,
            approved_for_upgrade: self.approved_for_upgrade,
            config: self.multisig.config(),
            next_request_id: self.multisig.next_id(),
            requests: self.multisig.requests(),
        }
    }
}

impl Contract {
    /// Sets up a contract whose requests need two approvals and stay valid
    /// for five days.
    pub fn init(
        admin_ids: Vec<AccountId>,
        master_minter_ids: Vec<AccountId>,
        owner_ids: Vec<AccountId>,
        pauser_ids: Vec<AccountId>,
        blocklister_id: AccountId,
    ) -> (r: Self)
        ensures
            r@ == initial_state(
                Configuration {
                    approval_threshold: APPROVAL_THRESHOLD,
                    validity_period: VALIDITY_PERIOD_NANOSECONDS,
                },
                admin_ids@,
                master_minter_ids@,
                owner_ids@,
                pauser_ids@,
                blocklister_id,
            ),
    {
        Contract::with_configuration(
            Configuration::new(APPROVAL_THRESHOLD, VALIDITY_PERIOD_NANOSECONDS),
            admin_ids,
            master_minter_ids,
            owner_ids,
            pauser_ids,
            blocklister_id,
        )
    }

    /// Sets up a contract with the given settings of the approval scheme.
    pub fn with_configuration(
        config: Configuration,
        admin_ids: Vec<AccountId>,
        master_minter_ids: Vec<AccountId>,
        owner_ids: Vec<AccountId>,
        pauser_ids: Vec<AccountId>,
        blocklister_id: AccountId,
    ) -> (r: Self)
        ensures
            r@ == initial_state(
                config,
                admin_ids@,
                master_minter_ids@,
                owner_ids@,
                pauser_ids@,
                blocklister_id,
            ),
    {
        let mut this = Contract {
            roles: RoleRegistry::new(),
            minting: MinterAllowanceLedger::new(),
            allowed: AllowanceTable::new(),
            multisig: MultisigRequestStore::new(config),
            blocklister: blocklister_id.clone(),
            paused: false,
            approved_for_upgrade: false,
        };
        this.init_multisig_roles(admin_ids, Role::Admin);
        this.roles.grant(blocklister_id, Role::Blocklister);
        this.init_multisig_roles(master_minter_ids, Role::MasterMinter);
        this.init_multisig_roles(owner_ids, Role::Owner);
        this.init_multisig_roles(pauser_ids, Role::Pauser);
        this
    }

    /// Restores the contract that `state` stands for. Refused when the
    /// state cannot be restored: when its table of roles is longer than the
    /// list of roles, or its requests do not fit its counter of identifiers.
    pub fn from_state(state: ContractState) -> (r: Option<Self>)
        ensures
            match r {
                Some(contract) => state_valid(state) && contract@ == state_view(state),
                None => !state_valid(state),
            },
    {
        let roles = match RoleRegistry::from_members(state.role_members) {
            Some(roles) => roles,
            None => {
                return None;
            },
        };
        let multisig = match MultisigRequestStore::from_parts(
            state.config,
            state.next_request_id,
            state.requests,
        ) {
            Some(multisig) => multisig,
            None => {
                return None;
            },
        };
        Some(
            Contract {
                roles,
                minting: MinterAllowanceLedger::from_parts(state.controllers, state.minter_allowed),
                allowed: AllowanceTable::from_entries(state.allowed),
                multisig,
                blocklister: state.blocklister,
                paused: state.paused,
                approved_for_upgrade: state.approved_for_upgrade,
            },
        )
    }

    /// Gives up the contract for its state as plain data. Restoring that
    /// state gives the same contract back.
    pub fn into_state(self) -> (r: ContractState)
        ensures
            state_valid(r),
            state_view(r) == self@,
    {
        let role_members = self.roles.into_members();
        let (controllers, minter_allowed) = self.minting.into_parts();
        let allowed = self.allowed.into_entries();
        let (config, next_request_id, requests) = self.multisig.into_parts();
        ContractState {
            role_members,
            controllers,
            minter_allowed,
            allowed,
            blocklister: self.blocklister,
            paused: self.paused,
            approved_for_upgrade: self.approved_for_upgrade,
            config,
            next_request_id,
            requests,
        }
    }

    /// Grants `role`, together with the multi-signature marker, to each of
    /// `account_ids` in turn. Nobody's authority is checked.
    pub fn init_multisig_roles(&mut self, account_ids: Vec<AccountId>, role: Role)
        ensures
            final(self)@ == (ContractView {
                roles: granted_to_each(old(self)@.roles, account_ids@, role),
                ..old(self)@
            }),
    {
        let mut i: usize = 0;
        while i < account_ids.len()
            invariant
                i <= account_ids@.len(),
                self@ == (ContractView {
                    roles: granted_to_each(old(self)@.roles, account_ids@.take(i as int), role),
                    ..old(self)@
                }),
            decreases account_ids@.len() - i,
        {
            proof {
                let next = account_ids@.take(i + 1);
                assert(next.drop_last() =~= account_ids@.take(i as int));
                assert(next.last() == account_ids@[i as int]);
            }
            self._grant_multisig_role(account_ids[i].clone(), role);
            i += 1;
        }
        assert(account_ids@.take(i as int) =~= account_ids@);
    }

    /// Grants `role` to `account_id` together with the multi-signature
    /// marker. Without effect on a role that the account already holds.
    /// Nobody's authority is checked.
    pub fn _grant_multisig_role(&mut self, account_id: AccountId, role: Role)
        ensures
            final(self)@ == (ContractView {
                roles: granted_with_marker(old(self)@.roles, account_id@, role),
                ..old(self)@
            }),
    {
        self.roles.grant(account_id.clone(), Role::Multisig);
        self.roles.grant(account_id, role);
    }

    /// Revokes `role` from `account_id` together with the multi-signature
    /// marker, whatever other roles the account keeps: the marker is a stored
    /// flag of its own, not a summary of the other roles, and an account that
    /// is to stay in the multi-signature scheme is granted a role again.
    /// Without effect on a role that the account does not hold. Nobody's
    /// authority is checked.
    pub fn _revoke_multisig_role(&mut self, account_id: &AccountId, role: Role)
        ensures
            final(self)@ == (ContractView {
                roles: revoked_with_marker(old(self)@.roles, account_id@, role),
                ..old(self)@
            }),
    {
        self.roles.revoke(account_id, Role::Multisig);
        self.roles.revoke(account_id, role);
    }

    /// Tells whether `account_id` holds `role`.
    pub fn has_role(&self, account_id: &AccountId, role: Role) -> (r: bool)
        ensures
            r == holds(self@.roles, account_id@, role),
            valid_assignments(self@.roles),
    {
        self.roles.has_role(account_id, role)
    }

    /// Returns the accounts that hold `role`, each once, in the order in
    /// which they were granted it.
    pub fn members_of(&self, role: Role) -> (r: Vec<AccountId>)
        ensures
            names(r@) == self@.roles[role],
            names(r@).no_duplicates(),
    {
        let r = self.roles.members_of(role);
        assert(self@.roles.contains_key(role));
        r
    }

    /// Returns what `spender_id` may spend of the tokens of `holder_id`.
    pub fn allowance(&self, holder_id: &AccountId, spender_id: &AccountId) -> (r: u128)
        ensures
            r == allowance_of(self@.allowances, holder_id@, spender_id@),
    {
        self.allowed.get(holder_id, spender_id)
    }

    /// Returns what `minter_id` may still mint; nothing for an account that
    /// is not a configured minter.
    pub fn minter_allowance(&self, minter_id: &AccountId) -> (r: u128)
        ensures
            r == quota(self@.minter_allowances, minter_id@),
    {
        self.minting.minter_allowance(minter_id)
    }

    /// Tells whether `account_id` is a minter.
    pub fn is_minter(&self, account_id: &AccountId) -> (r: bool)
        ensures
            r == holds(self@.roles, account_id@, Role::Minter),
    {
        self.roles.has_role(account_id, Role::Minter)
    }

    /// Returns the admins.
    pub fn admins(&self) -> (r: Vec<AccountId>)
        ensures
            names(r@) == self@.roles[Role::Admin],
    {
        self.roles.members_of(Role::Admin)
    }

    /// Returns the blocklister.
    pub fn blocklister(&self) -> (r: AccountId)
        ensures
            r == self@.blocklister,
    {
        self.blocklister.clone()
    }

    /// Returns the master minters.
    pub fn master_minters(&self) -> (r: Vec<AccountId>)
        ensures
            names(r@) == self@.roles[Role::MasterMinter],
    {
        self.roles.members_of(Role::MasterMinter)
    }

    /// Returns the owners.
    pub fn owners(&self) -> (r: Vec<AccountId>)
        ensures
            names(r@) == self@.roles[Role::Owner],
    {
        self.roles.members_of(Role::Owner)
    }

    /// Returns the pausers.
    pub fn pausers(&self) -> (r: Vec<AccountId>)
        ensures
            names(r@) == self@.roles[Role::Pauser],
    {
        self.roles.members_of(Role::Pauser)
    }

    /// Tells whether `account_id` is on the blocklist.
    pub fn is_blocklisted(&self, account_id: AccountId) -> (r: bool)
        ensures
            r == holds(self@.roles, account_id@, Role::Blocklisted),
    {
        self.roles.has_role(&account_id, Role::Blocklisted)
    }

    /// Tells whether token operations are suspended.
    pub fn is_paused(&self) -> (r: bool)
        ensures
            r == self@.paused,
    {
        self.paused
    }

    /// Tells whether the admins have approved an upgrade.
    pub fn is_approved_for_upgrade(&self) -> (r: bool)
        ensures
            r == self@.approved_for_upgrade,
    {
        self.approved_for_upgrade
    }

    /// Returns the minter that `controller_id` controls, if it controls one.
    pub fn controlled_minter(&self, controller_id: &AccountId) -> (r: Option<AccountId>)
        ensures
            r == if self@.controllers.contains_key(controller_id@) {
                Some(self@.controllers[controller_id@])
            } else {
                None
            },
    {
        match self.minting.minter_of(controller_id) {
            Some(minter_id) => Some(minter_id.clone()),
            None => None,
        }
    }

    /// Makes `controller_id` a controller of `minter_id`, in place of any
    /// minter it controlled before, and grants it the controller role. The
    /// minter gets neither the minter role nor an allowance by this. Only a
    /// master minter may do this, and neither account may be blocklisted.
    pub fn configure_controller(
        &mut self,
        caller: &AccountId,
        controller_id: AccountId,
        minter_id: AccountId,
    ) -> (r: Result<ControllerConfigured, FiatTokenError>)
        ensures
            decided(
                r,
                configure_controller_check(old(self)@, *caller, controller_id, minter_id),
                ControllerConfigured { controller_id, minter_id },
            ),
            moved(
                old(self)@,
                final(self)@,
                configure_controller_check(old(self)@, *caller, controller_id, minter_id),
                configure_controller_effect(old(self)@, controller_id, minter_id),
            ),
    {
        require_only(&self.roles, caller, Role::MasterMinter)?;
        require_not_blocklisted(&self.roles, &controller_id)?;
        require_not_blocklisted(&self.roles, &minter_id)?;
        self._grant_multisig_role(controller_id.clone(), Role::Controller);
        self.minting.assign_controller(controller_id.clone(), minter_id.clone());
        Ok(ControllerConfigured { controller_id, minter_id })
    }

    /// Ends the control of `controller_id` over its minter and revokes its
    /// controller role. Only a master minter may do this.
    pub fn remove_controller(&mut self, caller: &AccountId, controller_id: AccountId) -> (r: Result<
        ControllerRemoved,
        FiatTokenError,
    >)
        ensures
            decided(
                r,
                remove_controller_check(old(self)@, *caller, controller_id),
                ControllerRemoved { controller_id },
            ),
            moved(
                old(self)@,
                final(self)@,
                remove_controller_check(old(self)@, *caller, controller_id),
                remove_controller_effect(old(self)@, controller_id),
            ),
    {
        require_only(&self.roles, caller, Role::MasterMinter)?;
        if self.minting.minter_of(&controller_id).is_none() {
            return Err(FiatTokenError::NotFound { missing: Missing::Controller });
        }
        self._revoke_multisig_role(&controller_id, Role::Controller);
        let _ = self.minting.unassign_controller(&controller_id);
        Ok(ControllerRemoved { controller_id })
    }

    /// Returns the minter that `caller` controls. Only a controller that is
    /// not blocklisted may ask, and it must control a minter.
    pub fn get_minter(&self, caller: &AccountId) -> (r: Result<AccountId, FiatTokenError>)
        ensures
            decided(r, get_minter_check(self@, *caller), minter_of(self@, *caller)),
    {
        require_only(&self.roles, caller, Role::Controller)?;
        require_not_blocklisted(&self.roles, caller)?;
        match self.minting.minter_of(caller) {
            Some(minter_id) => Ok(minter_id.clone()),
            None => Err(FiatTokenError::NotFound { missing: Missing::ControlledMinter }),
        }
    }

    /// Makes the minter of `caller` a minter and sets its allowance to
    /// `minter_allowance`, whatever it was before. Only a controller may do
    /// this, for the minter it controls, and neither may be blocklisted.
    pub fn configure_minter_allowance(&mut self, caller: &AccountId, minter_allowance: u128) -> (r:
        Result<MinterConfigured, FiatTokenError>)
        ensures
            decided(
                r,
                configure_minter_allowance_check(old(self)@, *caller),
                MinterConfigured { minter_id: minter_of(old(self)@, *caller), minter_allowance },
            ),
            moved(
                old(self)@,
                final(self)@,
                configure_minter_allowance_check(old(self)@, *caller),
                configure_minter_allowance_effect(old(self)@, *caller, minter_allowance),
            ),
    {
        let minter_id = self.get_minter(caller)?;
        require_not_blocklisted(&self.roles, &minter_id)?;
        self.minting.configure(&mut self.roles, minter_id.clone(), minter_allowance);
        Ok(MinterConfigured { minter_id, minter_allowance })
    }

    /// Revokes the minter role from the minter of `caller` and deletes its
    /// allowance. Only a controller may do this, for the minter it controls.
    pub fn remove_minter(&mut self, caller: &AccountId) -> (r: Result<
        MinterRemoved,
        FiatTokenError,
    >)
        ensures
            decided(
                r,
                get_minter_check(old(self)@, *caller),
                MinterRemoved { minter_id: minter_of(old(self)@, *caller) },
            ),
            moved(
                old(self)@,
                final(self)@,
                get_minter_check(old(self)@, *caller),
                remove_minter_effect(old(self)@, *caller),
            ),
    {
        let minter_id = self.get_minter(caller)?;
        self.minting.remove(&mut self.roles, &minter_id);
        Ok(MinterRemoved { minter_id })
    }

    /// Raises the allowance of the minter of `caller` by `increment`, which
    /// must be positive and must not make the allowance overflow. The minter
    /// is configured with the new allowance, as by
    /// [`Contract::configure_minter_allowance`].
    pub fn increase_minter_allowance(&mut self, caller: &AccountId, increment: u128) -> (r: Result<
        MinterConfigured,
        FiatTokenError,
    >)
        ensures
            decided(
                r,
                passed(increase_minter_allowance_outcome(old(self)@, *caller, increment)),
                MinterConfigured {
                    minter_id: minter_of(old(self)@, *caller),
                    minter_allowance: new_allowance(
                        increase_minter_allowance_outcome(old(self)@, *caller, increment),
                    ),
                },
            ),
            moved(
                old(self)@,
                final(self)@,
                passed(increase_minter_allowance_outcome(old(self)@, *caller, increment)),
                configure_minter_allowance_effect(
                    old(self)@,
                    *caller,
                    new_allowance(
                        increase_minter_allowance_outcome(old(self)@, *caller, increment),
                    ),
                ),
            ),
    {
        let minter_id = self.get_minter(caller)?;
        require_not_blocklisted(&self.roles, &minter_id)?;
        let minter_allowance = self.minting.increase(&mut self.roles, &minter_id, increment)?;
        Ok(MinterConfigured { minter_id, minter_allowance })
    }

    /// Lowers the allowance of the minter of `caller` by `decrement`, which
    /// must be positive and no more than the allowance. The minter is
    /// configured with the new allowance, as by
    /// [`Contract::configure_minter_allowance`].
    pub fn decrease_minter_allowance(&mut self, caller: &AccountId, decrement: u128) -> (r: Result<
        MinterConfigured,
        FiatTokenError,
    >)
        ensures
            decided(
                r,
                passed(decrease_minter_allowance_outcome(old(self)@, *caller, decrement)),
                MinterConfigured {
                    minter_id: minter_of(old(self)@, *caller),
                    minter_allowance: new_allowance(
                        decrease_minter_allowance_outcome(old(self)@, *caller, decrement),
                    ),
                },
            ),
            moved(
                old(self)@,
                final(self)@,
                passed(decrease_minter_allowance_outcome(old(self)@, *caller, decrement)),
                configure_minter_allowance_effect(
                    old(self)@,
                    *caller,
                    new_allowance(
                        decrease_minter_allowance_outcome(old(self)@, *caller, decrement),
                    ),
                ),
            ),
    {
        let minter_id = self.get_minter(caller)?;
        require_not_blocklisted(&self.roles, &minter_id)?;
        let minter_allowance = self.minting.decrease(&mut self.roles, &minter_id, decrement)?;
        Ok(MinterConfigured { minter_id, minter_allowance })
    }

    /// Sets what `spender_id` may spend of the tokens of `caller` to `value`.
    /// Refused while the contract is paused and when either account is
    /// blocklisted.
    pub fn approve(&mut self, caller: &AccountId, spender_id: AccountId, value: u128) -> (r: Result<
        Approve,
        FiatTokenError,
    >)
        ensures
            decided(
                r,
                approve_check(old(self)@, *caller, spender_id),
                Approve { holder_id: *caller, spender_id, allowance: value },
            ),
            moved(
                old(self)@,
                final(self)@,
                approve_check(old(self)@, *caller, spender_id),
                approve_effect(old(self)@, *caller, spender_id, value),
            ),
    {
        self._approve(caller.clone(), spender_id, value)
    }

    /// Raises what `spender_id` may spend of the tokens of `caller` by
    /// `increment`. The increment must be positive, an allowance must have
    /// been approved before, and the sum must fit.
    pub fn increase_allowance(&mut self, caller: &AccountId, spender_id: AccountId, increment: u128)
        -> (r: Result<Approve, FiatTokenError>)
        ensures
            decided(
                r,
                passed(increase_allowance_outcome(old(self)@, *caller, spender_id, increment)),
                Approve {
                    holder_id: *caller,
                    spender_id,
                    allowance: new_allowance(
                        increase_allowance_outcome(old(self)@, *caller, spender_id, increment),
                    ),
                },
            ),
            moved(
                old(self)@,
                final(self)@,
                passed(increase_allowance_outcome(old(self)@, *caller, spender_id, increment)),
                approve_effect(
                    old(self)@,
                    *caller,
                    spender_id,
                    new_allowance(
                        increase_allowance_outcome(old(self)@, *caller, spender_id, increment),
                    ),
                ),
            ),
    {
        if increment == 0 {
            return Err(FiatTokenError::InvalidAmount { quantity: Quantity::AllowanceIncrement });
        }
        let old_allowance = self.allowance(caller, &spender_id);
        if old_allowance == 0 {
            return Err(
                FiatTokenError::AllowanceNotApproved { attempted: AllowanceChange::Increment },
            );
        }
        match old_allowance.checked_add(increment) {
            Some(new_allowance) => self._approve(caller.clone(), spender_id, new_allowance),
            None => Err(FiatTokenError::Overflow { counter: Counter::Allowance }),
        }
    }

    /// Lowers what `spender_id` may spend of the tokens of `caller` by
    /// `decrement`. The decrement must be positive, an allowance must have
    /// been approved before, and the decrement must be no more than it.
    pub fn decrease_allowance(&mut self, caller: &AccountId, spender_id: AccountId, decrement: u128)
        -> (r: Result<Approve, FiatTokenError>)
        ensures
            decided(
                r,
                passed(decrease_allowance_outcome(old(self)@, *caller, spender_id, decrement)),
                Approve {
                    holder_id: *caller,
                    spender_id,
                    allowance: new_allowance(
                        decrease_allowance_outcome(old(self)@, *caller, spender_id, decrement),
                    ),
                },
            ),
            moved(
                old(self)@,
                final(self)@,
                passed(decrease_allowance_outcome(old(self)@, *caller, spender_id, decrement)),
                approve_effect(
                    old(self)@,
                    *caller,
                    spender_id,
                    new_allowance(
                        decrease_allowance_outcome(old(self)@, *caller, spender_id, decrement),
                    ),
                ),
            ),
    {
        if decrement == 0 {
            return Err(FiatTokenError::InvalidAmount { quantity: Quantity::AllowanceDecrement });
        }
        let old_allowance = self.allowance(caller, &spender_id);
        if old_allowance == 0 {
            return Err(
                FiatTokenError::AllowanceNotApproved { attempted: AllowanceChange::Decrement },
            );
        }
        match old_allowance.checked_sub(decrement) {
            Some(new_allowance) => self._approve(caller.clone(), spender_id, new_allowance),
            None => Err(FiatTokenError::Underflow { counter: Counter::Allowance }),
        }
    }

    /// Sets what `spender_id` may spend of the tokens of `holder_id`.
    fn _approve(&mut self, holder_id: AccountId, spender_id: AccountId, allowance: u128) -> (r:
        Result<Approve, FiatTokenError>)
        ensures
            decided(
                r,
                approve_check(old(self)@, holder_id, spender_id),
                Approve { holder_id, spender_id, allowance },
            ),
            moved(
                old(self)@,
                final(self)@,
                approve_check(old(self)@, holder_id, spender_id),
                approve_effect(old(self)@, holder_id, spender_id, allowance),
            ),
    {
        self.require_not_paused()?;
        require_not_blocklisted(&self.roles, &holder_id)?;
        require_not_blocklisted(&self.roles, &spender_id)?;
        self.allowed.set(holder_id.clone(), spender_id.clone(), allowance);
        Ok(Approve { holder_id, spender_id, allowance })
    }

    /// Fails while the contract is paused. This is the guard of the reads of
    /// the total supply and of a balance.
    pub fn require_not_paused(&self) -> (r: Result<(), FiatTokenError>)
        ensures
            r == not_paused(self@),
    {
        if self.paused {
            Err(FiatTokenError::Paused)
        } else {
            Ok(())
        }
    }

    /// Spends `value` of what `caller` may spend of the tokens of `from`, for
    /// a transfer to `to` that the host then carries out. Refused while the
    /// contract is paused, when one of the three accounts is blocklisted, and
    /// when `value` is more than the allowance. The event tells the allowance
    /// that is left.
    pub fn transfer_from(&mut self, caller: &AccountId, from: AccountId, to: AccountId, value: u128)
        -> (r: Result<Approve, FiatTokenError>)
        ensures
            decided(
                r,
                passed(transfer_from_outcome(old(self)@, *caller, from, to, value)),
                Approve {
                    holder_id: from,
                    spender_id: *caller,
                    allowance: new_allowance(
                        transfer_from_outcome(old(self)@, *caller, from, to, value),
                    ),
                },
            ),
            moved(
                old(self)@,
                final(self)@,
                passed(transfer_from_outcome(old(self)@, *caller, from, to, value)),
                approve_effect(
                    old(self)@,
                    from,
                    *caller,
                    new_allowance(transfer_from_outcome(old(self)@, *caller, from, to, value)),
                ),
            ),
    {
        self.require_not_paused()?;
        require_not_blocklisted(&self.roles, caller)?;
        require_not_blocklisted(&self.roles, &from)?;
        require_not_blocklisted(&self.roles, &to)?;
        match self.allowance(&from, caller).checked_sub(value) {
            Some(new_allowance) => self._approve(from, caller.clone(), new_allowance),
            None => Err(FiatTokenError::ExceedsAllowance { spending: Spending::Transfer }),
        }
    }

    /// Takes `amount` off the minter allowance of `caller`, for a mint to
    /// `to` that the host then carries out. Only a minter may mint, the
    /// contract must not be paused, neither account may be blocklisted, and
    /// the amount must be positive and no more than what is left of the
    /// allowance. Nothing replenishes what has been spent.
    pub fn mint(&mut self, caller: &AccountId, to: &AccountId, amount: u128) -> (r: Result<
        (),
        FiatTokenError,
    >)
        ensures
            r == passed(mint_outcome(old(self)@, *caller, *to, amount)),
            moved(
                old(self)@,
                final(self)@,
                passed(mint_outcome(old(self)@, *caller, *to, amount)),
                mint_effect(
                    old(self)@,
                    *caller,
                    new_allowance(mint_outcome(old(self)@, *caller, *to, amount)),
                ),
            ),
    {
        self.require_not_paused()?;
        require_only(&self.roles, caller, Role::Minter)?;
        require_not_blocklisted(&self.roles, caller)?;
        require_not_blocklisted(&self.roles, to)?;
        if amount == 0 {
            return Err(FiatTokenError::InvalidAmount { quantity: Quantity::MintAmount });
        }
        let _ = self.minting.consume(caller, amount)?;
        Ok(())
    }

    /// Decides whether `caller`, whose balance is `balance`, may burn
    /// `amount` of its tokens; the host then carries the burn out. Only a
    /// minter may burn, the contract must not be paused, the caller must not
    /// be blocklisted, and the amount must be positive and no more than the
    /// balance.
    pub fn burn(&self, caller: &AccountId, amount: u128, balance: u128) -> (r: Result<
        (),
        FiatTokenError,
    >)
        ensures
            r == burn_check(self@, *caller, amount, balance),
    {
        self.require_not_paused()?;
        require_only(&self.roles, caller, Role::Minter)?;
        require_not_blocklisted(&self.roles, caller)?;
        if amount == 0 {
            return Err(FiatTokenError::InvalidAmount { quantity: Quantity::BurnAmount });
        }
        if balance < amount {
            return Err(FiatTokenError::ExceedsBalance);
        }
        Ok(())
    }

    /// Suspends the token operations. Only a pauser that is not blocklisted
    /// may do this, and not while the contract is paused already.
    pub fn pause(&mut self, caller: &AccountId) -> (r: Result<Paused, FiatTokenError>)
        ensures
            decided(r, pause_check(old(self)@, *caller), Paused),
            moved(
                old(self)@,
                final(self)@,
                pause_check(old(self)@, *caller),
                ContractView { paused: true, ..old(self)@ },
            ),
    {
        require_only(&self.roles, caller, Role::Pauser)?;
        self.require_not_paused()?;
        require_not_blocklisted(&self.roles, caller)?;
        self.paused = true;
        Ok(Paused)
    }

    /// Resumes the token operations. Only a pauser that is not blocklisted
    /// may do this, and only while the contract is paused.
    pub fn unpause(&mut self, caller: &AccountId) -> (r: Result<Unpaused, FiatTokenError>)
        ensures
            decided(r, unpause_check(old(self)@, *caller), Unpaused),
            moved(
                old(self)@,
                final(self)@,
                unpause_check(old(self)@, *caller),
                ContractView { paused: false, ..old(self)@ },
            ),
    {
        require_only(&self.roles, caller, Role::Pauser)?;
        if !self.paused {
            return Err(FiatTokenError::NotPaused);
        }
        require_not_blocklisted(&self.roles, caller)?;
        self.paused = false;
        Ok(Unpaused)
    }

    /// Puts `account_id` on the blocklist. Only the blocklister may do this.
    pub fn blocklist(&mut self, caller: &AccountId, account_id: AccountId) -> (r: Result<
        Blocklist,
        FiatTokenError,
    >)
        ensures
            decided(
                r,
                only(old(self)@.roles, *caller, Role::Blocklister),
                Blocklist { account_id },
            ),
            moved(
                old(self)@,
                final(self)@,
                only(old(self)@.roles, *caller, Role::Blocklister),
                ContractView {
                    roles: granted(old(self)@.roles, account_id@, Role::Blocklisted),
                    ..old(self)@
                },
            ),
    {
        require_only(&self.roles, caller, Role::Blocklister)?;
        self.roles.grant(account_id.clone(), Role::Blocklisted);
        Ok(Blocklist { account_id })
    }

    /// Takes `account_id` off the blocklist. Only the blocklister may do
    /// this.
    pub fn unblocklist(&mut self, caller: &AccountId, account_id: AccountId) -> (r: Result<
        Unblocklist,
        FiatTokenError,
    >)
        ensures
            decided(
                r,
                only(old(self)@.roles, *caller, Role::Blocklister),
                Unblocklist { account_id },
            ),
            moved(
                old(self)@,
                final(self)@,
                only(old(self)@.roles, *caller, Role::Blocklister),
                ContractView {
                    roles: revoked(old(self)@.roles, account_id@, Role::Blocklisted),
                    ..old(self)@
                },
            ),
    {
        require_only(&self.roles, caller, Role::Blocklister)?;
        self.roles.revoke(&account_id, Role::Blocklisted);
        Ok(Unblocklist { account_id })
    }

    /// Grants `role` to `account_id` together with the multi-signature
    /// marker. An admin may grant the admin role, an owner the master minter,
    /// owner and pauser roles; no other role can be granted this way.
    pub fn configure_multisig_role(&mut self, caller: &AccountId, role: Role, account_id: AccountId)
        -> (r: Result<RoleConfigured, FiatTokenError>)
        ensures
            decided(
                r,
                change_role_check(old(self)@, *caller, role, RoleChange::Grant),
                RoleConfigured { role, account_id },
            ),
            moved(
                old(self)@,
                final(self)@,
                change_role_check(old(self)@, *caller, role, RoleChange::Grant),
                ContractView {
                    roles: granted_with_marker(old(self)@.roles, account_id@, role),
                    ..old(self)@
                },
            ),
    {
        let authority = role_change_authority_of(role, RoleChange::Grant)?;
        require_only(&self.roles, caller, authority)?;
        self._grant_multisig_role(account_id.clone(), role);
        Ok(RoleConfigured { role, account_id })
    }

    /// Revokes `role` from `account_id` together with the multi-signature
    /// marker. An admin may revoke the admin role, an owner the master
    /// minter, owner and pauser roles; no other role can be revoked this way.
    /// Revoking a role that the account does not hold is no failure.
    pub fn revoke_multisig_role(&mut self, caller: &AccountId, role: Role, account_id: AccountId)
        -> (r: Result<RoleRevoked, FiatTokenError>)
        ensures
            decided(
                r,
                change_role_check(old(self)@, *caller, role, RoleChange::Revoke),
                RoleRevoked { role, account_id },
            ),
            moved(
                old(self)@,
                final(self)@,
                change_role_check(old(self)@, *caller, role, RoleChange::Revoke),
                ContractView {
                    roles: revoked_with_marker(old(self)@.roles, account_id@, role),
                    ..old(self)@
                },
            ),
    {
        let authority = role_change_authority_of(role, RoleChange::Revoke)?;
        require_only(&self.roles, caller, authority)?;
        self._revoke_multisig_role(&account_id, role);
        Ok(RoleRevoked { role, account_id })
    }

    /// Makes `new_blocklister_id` the blocklister in place of the present
    /// one. Only an owner may do this.
    pub fn update_blocklister(&mut self, caller: &AccountId, new_blocklister_id: AccountId) -> (r:
        Result<BlocklisterChanged, FiatTokenError>)
        ensures
            decided(
                r,
                only(old(self)@.roles, *caller, Role::Owner),
                BlocklisterChanged { new_blocklister_id },
            ),
            moved(
                old(self)@,
                final(self)@,
                only(old(self)@.roles, *caller, Role::Owner),
                update_blocklister_effect(old(self)@, new_blocklister_id),
            ),
    {
        require_only(&self.roles, caller, Role::Owner)?;
        let old_blocklister = self.blocklister.clone();
        self.roles.revoke(&old_blocklister, Role::Blocklister);
        self.roles.grant(new_blocklister_id.clone(), Role::Blocklister);
        self.blocklister = new_blocklister_id.clone();
        Ok(BlocklisterChanged { new_blocklister_id })
    }

    /// Approves the contract for upgrade. Only an admin that is not
    /// blocklisted may do this.
    pub fn approve_for_upgrade(&mut self, caller: &AccountId) -> (r: Result<
        ApprovedForUpgrade,
        FiatTokenError,
    >)
        ensures
            decided(r, approve_for_upgrade_check(old(self)@, *caller), ApprovedForUpgrade),
            moved(
                old(self)@,
                final(self)@,
                approve_for_upgrade_check(old(self)@, *caller),
                ContractView { approved_for_upgrade: true, ..old(self)@ },
            ),
    {
        require_only(&self.roles, caller, Role::Admin)?;
        require_not_blocklisted(&self.roles, caller)?;
        self.approved_for_upgrade = true;
        Ok(ApprovedForUpgrade)
    }

    /// Decides whether `caller` may upgrade the contract now: only an admin
    /// that is not blocklisted, and only once an upgrade has been approved.
    pub fn on_upgrade(&self, caller: &AccountId) -> (r: Result<(), FiatTokenError>)
        ensures
            r == on_upgrade_check(self@, *caller),
    {
        require_only(&self.roles, caller, Role::Admin)?;
        require_not_blocklisted(&self.roles, caller)?;
        if !self.approved_for_upgrade {
            return Err(FiatTokenError::NotApprovedForUpgrade);
        }
        Ok(())
    }

    /// Carries the state of the contract over to its upgraded version: all of
    /// it as it was, but for the approval for upgrade, which is withdrawn.
    pub fn migrate(prev: Contract) -> (r: Contract)
        ensures
            r@ == (ContractView { approved_for_upgrade: false, ..prev@ }),
    {
        let mut upgraded = prev;
        upgraded.approved_for_upgrade = false;
        upgraded
    }

    /// The guard of a transfer of the tokens of `caller` to `receiver_id`,
    /// which the host carries out: refused while the contract is paused and
    /// when either account is blocklisted.
    pub fn ft_transfer(&self, caller: &AccountId, receiver_id: &AccountId) -> (r: Result<
        (),
        FiatTokenError,
    >)
        ensures
            r == transfer_check(self@, *caller, *receiver_id),
    {
        self.require_not_paused()?;
        require_not_blocklisted(&self.roles, caller)?;
        require_not_blocklisted(&self.roles, receiver_id)
    }

    /// The guard of a transfer with a call to the receiver; the same as that
    /// of [`Contract::ft_transfer`].
    pub fn ft_transfer_call(&self, caller: &AccountId, receiver_id: &AccountId) -> (r: Result<
        (),
        FiatTokenError,
    >)
        ensures
            r == transfer_check(self@, *caller, *receiver_id),
    {
        self.ft_transfer(caller, receiver_id)
    }

    /// The guard of the settlement of a transfer with a call: refused while
    /// the contract is paused and when the sender or the receiver is
    /// blocklisted.
    pub fn ft_resolve_transfer(&self, sender_id: &AccountId, receiver_id: &AccountId) -> (r:
        Result<(), FiatTokenError>)
        ensures
            r == transfer_check(self@, *sender_id, *receiver_id),
    {
        self.ft_transfer(sender_id, receiver_id)
    }

    /// The guard of a storage deposit by `caller`, for itself or for
    /// `account_id`: refused while the contract is paused and when either
    /// account is blocklisted.
    pub fn storage_deposit(&self, caller: &AccountId, account_id: Option<&AccountId>) -> (r:
        Result<(), FiatTokenError>)
        ensures
            r == storage_deposit_check(
                self@,
                *caller,
                match account_id {
                    Some(account) => Some(*account),
                    None => None,
                },
            ),
    {
        self.require_not_paused()?;
        require_not_blocklisted(&self.roles, caller)?;
        match account_id {
            Some(account) => require_not_blocklisted(&self.roles, account),
            None => Ok(()),
        }
    }

    /// Decides whether `caller` may give up its registration. `balance` is
    /// the balance of the caller, or `None` when it is not registered.
    /// Returns `true` when the host is to unregister the account, `false`
    /// when there is nothing to unregister. Refused while the contract is
    /// paused, when the caller is blocklisted, when `force` is set, and for an
    /// account with a positive balance.
    pub fn storage_unregister(&self, caller: &AccountId, force: Option<bool>, balance: Option<u128>)
        -> (r: Result<bool, FiatTokenError>)
        ensures
            r == storage_unregister_outcome(self@, *caller, force, balance),
    {
        self.require_not_paused()?;
        require_not_blocklisted(&self.roles, caller)?;
        let force = match force {
            Some(force) => force,
            None => false,
        };
        if force {
            return Err(FiatTokenError::ForcedUnregister);
        }
        match balance {
            Some(amount) => {
                if amount == 0 {
                    Ok(true)
                } else {
                    Err(FiatTokenError::PositiveBalance)
                }
            },
            None => Ok(false),
        }
    }

    /// Returns the identifier that the next request will get. Every pending
    /// request has a smaller one.
    pub fn get_next_multisig_request_id(&self) -> (r: u32)
        ensures
            r == self@.next_request_id,
            identifiers_in_order(self@),
    {
        self.multisig.next_request_id()
    }

    /// Returns the action of the pending request `request_id`, if there is
    /// such a request.
    pub fn request_action(&self, request_id: u32) -> (r: Option<FiatTokenAction>)
        ensures
            r == if self@.requests.contains_key(request_id) {
                Some(self@.requests[request_id].action)
            } else {
                None
            },
    {
        match self.multisig.action_of(request_id) {
            Some(action) => Some(action.clone()),
            None => None,
        }
    }

    /// Returns the accounts that have approved the pending request
    /// `request_id`, each once, in the order of their approvals, if there is
    /// such a request.
    pub fn request_approvals(&self, request_id: u32) -> (r: Option<Vec<AccountId>>)
        ensures
            match r {
                Some(approvals) => self@.requests.contains_key(request_id) && names(approvals@)
                    == self@.requests[request_id].approvals && names(approvals@).no_duplicates(),
                None => !self@.requests.contains_key(request_id),
            },
    {
        let _ = self.multisig.next_request_id();
        self.multisig.approvals_of(request_id)
    }

    /// Returns the time at which the pending request `request_id` was
    /// created, if there is such a request.
    pub fn request_created_at(&self, request_id: u32) -> (r: Option<u64>)
        ensures
            r == if self@.requests.contains_key(request_id) {
                Some(self@.requests[request_id].created_at)
            } else {
                None
            },
    {
        self.multisig.created_at_of(request_id)
    }

    /// Creates a request for `action`, at the time `now`, and returns the
    /// event that holds its identifier. The caller must hold the role that
    /// the action requires and the multi-signature marker. Creating a request
    /// approves nothing: the proposer, too, approves by a call of its own.
    pub fn create_multisig_request(&mut self, caller: &AccountId, action: FiatTokenAction, now: u64)
        -> (r: Result<MultisigRequestCreated, FiatTokenError>)
        ensures
            decided(
                r,
                create_request_check(old(self)@, *caller, action),
                MultisigRequestCreated { request_id: old(self)@.next_request_id },
            ),
            moved(
                old(self)@,
                final(self)@,
                create_request_check(old(self)@, *caller, action),
                create_request_effect(old(self)@, action, now),
            ),
    {
        let role = action.role_required()?;
        require_only(&self.roles, caller, role)?;
        require_only(&self.roles, caller, Role::Multisig)?;
        let request_id = self.multisig.create_request(action, now)?;
        Ok(MultisigRequestCreated { request_id })
    }

    fn check_request_access(
        &self,
        caller: &AccountId,
        action: &FiatTokenAction,
        operation: RequestOperation,
    ) -> (r: Result<(), FiatTokenError>)
        ensures
            r == request_access_check(self@, *caller, *action, operation),
    {
        let role = action.role_required()?;
        require_only(&self.roles, caller, role)?;
        if action.requires_controller_check() {
            let named = match self.minting.minter_of(action.controller()) {
                Some(minter_id) => minter_id,
                None => {
                    return Err(FiatTokenError::NotFound { missing: Missing::Controller });
                },
            };
            let own = match self.minting.minter_of(caller) {
                Some(minter_id) => minter_id,
                None => {
                    return Err(FiatTokenError::NotFound { missing: Missing::ControlledMinter });
                },
            };
            if !(*named == *own) {
                return Err(FiatTokenError::WrongController { operation });
            }
        }
        Ok(())
    }

    /// Adds the approval of `caller` to the pending request `request_id`, at
    /// the time `now`. The caller must hold the role that the action of the
    /// request requires and the multi-signature marker, and for an action
    /// scoped to a minter it must control that minter. An expired request
    /// takes no approval, and no account approves a request twice. Reaching
    /// the threshold executes nothing.
    pub fn approve_multisig_request(&mut self, caller: &AccountId, request_id: u32, now: u64) -> (r:
        Result<(), FiatTokenError>)
        ensures
            r == approve_request_check(old(self)@, *caller, request_id, now),
            moved(
                old(self)@,
                final(self)@,
                approve_request_check(old(self)@, *caller, request_id, now),
                approve_request_effect(old(self)@, *caller, request_id),
            ),
    {
        let action = match self.multisig.action_of(request_id) {
            Some(action) => action,
            None => {
                return Err(FiatTokenError::NotFound { missing: Missing::Request });
            },
        };
        self.check_request_access(caller, action, RequestOperation::Approve)?;
        require_only(&self.roles, caller, Role::Multisig)?;
        self.multisig.approve_request(request_id, caller.clone(), now)
    }

    /// Carries out the action of the pending request `request_id` for
    /// `caller`, at the time `now`, deletes the request and returns the event
    /// of the action. The caller must pass the checks of an approval; the
    /// request must not have expired and must have as many approvals as the
    /// threshold asks for; and the action must pass its own checks. Where any
    /// of this fails the request stays pending with its approvals, so that
    /// the execution can be tried again.
    pub fn execute_multisig_request(&mut self, caller: &AccountId, request_id: u32, now: u64) -> (r:
        Result<FiatTokenEvent, FiatTokenError>)
        ensures
            decided(
                r,
                execute_request_check(old(self)@, *caller, request_id, now),
                execute_event(old(self)@, *caller, old(self)@.requests[request_id].action),
            ),
            moved(
                old(self)@,
                final(self)@,
                execute_request_check(old(self)@, *caller, request_id, now),
                execute_request_effect(old(self)@, *caller, request_id),
            ),
    {
        let action = match self.multisig.action_of(request_id) {
            Some(action) => action.clone(),
            None => {
                return Err(FiatTokenError::NotFound { missing: Missing::Request });
            },
        };
        self.check_request_access(caller, &action, RequestOperation::Execute)?;
        self.multisig.is_approved_for_execution(request_id, now)?;
        require_only(&self.roles, caller, Role::Multisig)?;
        let event = action.execute(self, caller)?;
        let _ = self.multisig.remove(request_id);
        Ok(event)
    }

    /// Deletes the pending request `request_id` without carrying out its
    /// action, at the time `now`. The caller must hold the role that the
    /// action requires and the multi-signature marker, and for an action
    /// scoped to a minter it must control that minter. Only an expired
    /// request can be removed, so with a validity period of zero none can.
    /// The counter of identifiers is not touched.
    pub fn remove_multisig_request(&mut self, caller: &AccountId, request_id: u32, now: u64) -> (r:
        Result<(), FiatTokenError>)
        ensures
            r == remove_request_check(old(self)@, *caller, request_id, now),
            moved(
                old(self)@,
                final(self)@,
                remove_request_check(old(self)@, *caller, request_id, now),
                remove_request_effect(old(self)@, request_id),
            ),
    {
        let action = match self.multisig.action_of(request_id) {
            Some(action) => action,
            None => {
                return Err(FiatTokenError::NotFound { missing: Missing::Request });
            },
        };
        self.check_request_access(caller, action, RequestOperation::Remove)?;
        self.multisig.is_removable(request_id, now)?;
        require_only(&self.roles, caller, Role::Multisig)?;
        let _ = self.multisig.remove(request_id);
        Ok(())
    }
}

impl FiatTokenAction {
    /// Carries the action out on `contract` for `caller` and returns its
    /// event. Each action is subject to the checks of the operation it stands
    /// for; where they fail the contract is left as it was.
    pub fn execute(self, contract: &mut Contract, caller: &AccountId) -> (r: Result<
        FiatTokenEvent,
        FiatTokenError,
    >)
        ensures
            decided(
                r,
                execute_check(old(contract)@, *caller, self),
                execute_event(old(contract)@, *caller, self),
            ),
            moved(
                old(contract)@,
                final(contract)@,
                execute_check(old(contract)@, *caller, self),
                execute_effect(old(contract)@, *caller, self),
            ),
    {
        match self {
            FiatTokenAction::ApproveForUpgrade => {
                let event = contract.approve_for_upgrade(caller)?;
                Ok(FiatTokenEvent::ApprovedForUpgrade(event))
            },
            FiatTokenAction::ConfigureController { controller_id, minter_id } => {
                let event = contract.configure_controller(caller, controller_id, minter_id)?;
                Ok(FiatTokenEvent::ControllerConfigured(event))
            },
            FiatTokenAction::ConfigureMinterAllowance { minter_allowance, .. } => {
                let event = contract.configure_minter_allowance(caller, minter_allowance)?;
                Ok(FiatTokenEvent::MinterConfigured(event))
            },
            FiatTokenAction::ConfigureMultisigRole { role, account_id } => {
                let event = contract.configure_multisig_role(caller, role, account_id)?;
                Ok(FiatTokenEvent::RoleConfigured(event))
            },
            FiatTokenAction::DecreaseMinterAllowance { decrement, .. } => {
                let event = contract.decrease_minter_allowance(caller, decrement)?;
                Ok(FiatTokenEvent::MinterConfigured(event))
            },
            FiatTokenAction::IncreaseMinterAllowance { increment, .. } => {
                let event = contract.increase_minter_allowance(caller, increment)?;
                Ok(FiatTokenEvent::MinterConfigured(event))
            },
            FiatTokenAction::Pause => {
                let event = contract.pause(caller)?;
                Ok(FiatTokenEvent::Paused(event))
            },
            FiatTokenAction::RemoveController { controller_id } => {
                let event = contract.remove_controller(caller, controller_id)?;
                Ok(FiatTokenEvent::ControllerRemoved(event))
            },
            FiatTokenAction::RemoveMinter { .. } => {
                let event = contract.remove_minter(caller)?;
                Ok(FiatTokenEvent::MinterRemoved(event))
            },
            FiatTokenAction::RevokeMultisigRole { role, account_id } => {
                let event = contract.revoke_multisig_role(caller, role, account_id)?;
                Ok(FiatTokenEvent::RoleRevoked(event))
            },
            FiatTokenAction::UpdateBlocklister { new_blocklister_id } => {
                let event = contract.update_blocklister(caller, new_blocklister_id)?;
                Ok(FiatTokenEvent::BlocklisterChanged(event))
            },
            FiatTokenAction::Unpause => {
                let event = contract.unpause(caller)?;
                Ok(FiatTokenEvent::Unpaused(event))
            },
        }
    }
}

} // verus!
