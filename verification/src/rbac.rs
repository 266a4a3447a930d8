//! The role registry: which account holds which role.

use vstd::prelude::*;
use crate::account::{
    joined_in_turn, names, with_member, with_member_properties, without_member,
    without_member_properties, AccountId, AccountSet,
};
use crate::role::{Role, ROLE_COUNT};

verus! {

/// The members of each role, in the order in which they were granted it.
pub type RoleAssignments = Map<Role, Seq<Seq<char>>>;

/// Every role has a member list, and no list names an account twice.
pub open spec fn valid_assignments(assignments: RoleAssignments) -> bool {
    forall|role: Role|
        #![trigger assignments.contains_key(role)]
        #![trigger assignments[role]]
        assignments.contains_key(role) && assignments[role].no_duplicates()
}

/// The assignments in which no account holds any role.
pub open spec fn no_assignments() -> RoleAssignments {
    Map::new(|role: Role| true, |role: Role| Seq::<Seq<char>>::empty())
}

/// Whether `account` holds `role`.
pub open spec fn holds(assignments: RoleAssignments, account: Seq<char>, role: Role) -> bool {
    assignments[role].contains(account)
}

/// The assignments after `role` is granted to `account`.
pub open spec fn granted(assignments: RoleAssignments, account: Seq<char>, role: Role)
    -> RoleAssignments {
    assignments.insert(role, with_member(assignments[role], account))
}

/// The assignments after `role` is revoked from `account`.
pub open spec fn revoked(assignments: RoleAssignments, account: Seq<char>, role: Role)
    -> RoleAssignments {
    assignments.insert(role, without_member(assignments[role], account))
}

/// Granting and revoking keep the assignments valid.
pub proof fn grant_revoke_keep_valid(assignments: RoleAssignments, account: Seq<char>, role: Role)
    requires
        valid_assignments(assignments),
    ensures
        valid_assignments(granted(assignments, account, role)),
        valid_assignments(revoked(assignments, account, role)),
{
    with_member_properties(assignments[role], account);
    without_member_properties(assignments[role], account);
    let after_grant = granted(assignments, account, role);
    let after_revoke = revoked(assignments, account, role);
    assert forall|other: Role|
        #![trigger after_grant.contains_key(other)]
        #![trigger after_grant[other]]
        after_grant.contains_key(other) && after_grant[other].no_duplicates() by {
        assert(assignments.contains_key(other));
    }
    assert forall|other: Role|
        #![trigger after_revoke.contains_key(other)]
        #![trigger after_revoke[other]]
        after_revoke.contains_key(other) && after_revoke[other].no_duplicates() by {
        assert(assignments.contains_key(other));
    }
}

/// After a role is granted the account holds it, and after it is then revoked
/// the account no longer does. Granting twice changes nothing more than
/// granting once, and neither does revoking twice.
pub proof fn grant_revoke_laws(assignments: RoleAssignments, account: Seq<char>, role: Role)
    requires
        valid_assignments(assignments),
    ensures
        holds(granted(assignments, account, role), account, role),
        !holds(revoked(granted(assignments, account, role), account, role), account, role),
        !holds(revoked(assignments, account, role), account, role),
        granted(granted(assignments, account, role), account, role) == granted(
            assignments,
            account,
            role,
        ),
        revoked(revoked(assignments, account, role), account, role) == revoked(
            assignments,
            account,
            role,
        ),
{
    let once = granted(assignments, account, role);
    let gone = revoked(assignments, account, role);
    grant_revoke_keep_valid(assignments, account, role);
    with_member_properties(assignments[role], account);
    without_member_properties(assignments[role], account);
    without_member_properties(once[role], account);
    assert(granted(once, account, role) =~= once);
    assert(revoked(gone, account, role) =~= gone);
}

/// Granting or revoking a role leaves every other account, and every other
/// role of the same account, as it was.
pub proof fn grant_revoke_touch_nothing_else(
    assignments: RoleAssignments,
    account: Seq<char>,
    role: Role,
    other_account: Seq<char>,
    other_role: Role,
)
    requires
        valid_assignments(assignments),
        other_account != account || other_role != role,
    ensures
        holds(granted(assignments, account, role), other_account, other_role) == holds(
            assignments,
            other_account,
            other_role,
        ),
        holds(revoked(assignments, account, role), other_account, other_role) == holds(
            assignments,
            other_account,
            other_role,
        ),
{
    with_member_properties(assignments[role], account);
    without_member_properties(assignments[role], account);
}

/// The assignments that a table of member lists stands for, the list of each
/// role at the persisted position of the role. A role whose position is past
/// the end of the table has no members, so that a table written before a role
/// was added still means what it meant.
pub open spec fn assignments_of(table: Seq<Vec<AccountId>>) -> RoleAssignments {
    Map::new(
        |role: Role| true,
        |role: Role|
            if role.spec_index() < table.len() {
                joined_in_turn(names(table[role.spec_index() as int]@))
            } else {
                Seq::empty()
            },
    )
}

/// The relation between accounts and the roles they hold.
///
/// No operation fails: granting a role that is already held and revoking one
/// that is not are both without effect. Whether a caller may grant or revoke
/// is decided where the registry is used, not here.
pub struct RoleRegistry {
    multisig: AccountSet,
    admin: AccountSet,
    blocklister: AccountSet,
    controller: AccountSet,
    master_minter: AccountSet,
    minter: AccountSet,
    owner: AccountSet,
    pauser: AccountSet,
    blocklisted: AccountSet,
}

impl View for RoleRegistry {
    type V = RoleAssignments;

    closed spec fn view(&self) -> RoleAssignments {
        Map::new(|role: Role| true, |role: Role| self.members(role))
    }
}

impl RoleRegistry {
    spec fn members(&self, role: Role) -> Seq<Seq<char>> {
        match role {
            Role::Multisig => self.multisig@,
            Role::Admin => self.admin@,
            Role::Blocklister => self.blocklister@,
            Role::Controller => self.controller@,
            Role::MasterMinter => self.master_minter@,
            Role::Minter => self.minter@,
            Role::Owner => self.owner@,
            Role::Pauser => self.pauser@,
            Role::Blocklisted => self.blocklisted@,
        }
    }

    fn set_of(&self, role: Role) -> (r: &AccountSet)
        ensures
            r@ == self.members(role),
            valid_assignments(self@),
    {
        proof {
            use_type_invariant(&self.multisig);
            use_type_invariant(&self.admin);
            use_type_invariant(&self.blocklister);
            use_type_invariant(&self.controller);
            use_type_invariant(&self.master_minter);
            use_type_invariant(&self.minter);
            use_type_invariant(&self.owner);
            use_type_invariant(&self.pauser);
            use_type_invariant(&self.blocklisted);
        }
        match role {
            Role::Multisig => &self.multisig,
            Role::Admin => &self.admin,
            Role::Blocklister => &self.blocklister,
            Role::Controller => &self.controller,
            Role::MasterMinter => &self.master_minter,
            Role::Minter => &self.minter,
            Role::Owner => &self.owner,
            Role::Pauser => &self.pauser,
            Role::Blocklisted => &self.blocklisted,
        }
    }

    fn take_members(table: &mut Vec<Vec<AccountId>>, position: usize) -> (r: AccountSet)
        requires
            old(table)@.len() <= position + 1,
            position < ROLE_COUNT,
        ensures
            final(table)@.len() <= position,
            old(table)@.len() == position + 1 ==> r@ == joined_in_turn(
                names(old(table)@[position as int]@),
            ) && final(table)@ == old(table)@.drop_last(),
            old(table)@.len() <= position ==> r@ == Seq::<Seq<char>>::empty() && final(table)@
                == old(table)@,
    {
        if table.len() == position + 1 {
            match table.pop() {
                Some(members) => AccountSet::from_vec(members),
                None => AccountSet::new(),
            }
        } else {
            AccountSet::new()
        }
    }

    /// Creates the registry that a table of member lists stands for, the
    /// list of each role at the persisted position of the role. A table that
    /// is longer than the list of roles is refused.
    pub fn from_members(table: Vec<Vec<AccountId>>) -> (r: Option<Self>)
        ensures
            match r {
                Some(registry) => table@.len() <= ROLE_COUNT && registry@ == assignments_of(
                    table@,
                ),
                None => table@.len() > ROLE_COUNT,
            },
    {
        let mut rest = table;
        if rest.len() > 9 {
            return None;
        }
        let blocklisted = RoleRegistry::take_members(&mut rest, 8);
        let pauser = RoleRegistry::take_members(&mut rest, 7);
        let owner = RoleRegistry::take_members(&mut rest, 6);
        let minter = RoleRegistry::take_members(&mut rest, 5);
        let master_minter = RoleRegistry::take_members(&mut rest, 4);
        let controller = RoleRegistry::take_members(&mut rest, 3);
        let blocklister = RoleRegistry::take_members(&mut rest, 2);
        let admin = RoleRegistry::take_members(&mut rest, 1);
        let multisig = RoleRegistry::take_members(&mut rest, 0);
        let registry = RoleRegistry {
            multisig,
            admin,
            blocklister,
            controller,
            master_minter,
            minter,
            owner,
            pauser,
            blocklisted,
        };
        assert(registry@ =~= assignments_of(table@));
        Some(registry)
    }

    /// Gives up the registry for the table of its member lists, the list of
    /// each role at the persisted position of the role.
    pub fn into_members(self) -> (r: Vec<Vec<AccountId>>)
        ensures
            r@.len() == ROLE_COUNT,
            assignments_of(r@) == self@,
    {
        let mut r: Vec<Vec<AccountId>> = Vec::new();
        r.push(self.multisig.into_vec());
        r.push(self.admin.into_vec());
        r.push(self.blocklister.into_vec());
        r.push(self.controller.into_vec());
        r.push(self.master_minter.into_vec());
        r.push(self.minter.into_vec());
        r.push(self.owner.into_vec());
        r.push(self.pauser.into_vec());
        r.push(self.blocklisted.into_vec());
        assert(assignments_of(r@) =~= self@);
        r
    }

    /// Creates a registry in which no account holds any role.
    pub fn new() -> (r: Self)
        ensures
            r@ == no_assignments(),
            valid_assignments(r@),
    {
        let r = RoleRegistry {
            multisig: AccountSet::new(),
            admin: AccountSet::new(),
            blocklister: AccountSet::new(),
            controller: AccountSet::new(),
            master_minter: AccountSet::new(),
            minter: AccountSet::new(),
            owner: AccountSet::new(),
            pauser: AccountSet::new(),
            blocklisted: AccountSet::new(),
        };
        assert(r@ =~= no_assignments());
        r
    }

    /// Tells whether `account` holds `role`.
    pub fn has_role(&self, account: &AccountId, role: Role) -> (r: bool)
        ensures
            r == holds(self@, account@, role),
            valid_assignments(self@),
    {
        self.set_of(role).contains(account)
    }

    /// Returns the accounts that hold `role`, in the order in which they were
    /// granted it.
    pub fn members_of(&self, role: Role) -> (r: Vec<AccountId>)
        ensures
            names(r@) == self@[role],
            valid_assignments(self@),
    {
        self.set_of(role).to_vec()
    }

    /// Grants `role` to `account`. Without effect when the account already
    /// holds the role.
    pub fn grant(&mut self, account: AccountId, role: Role)
        ensures
            final(self)@ == granted(old(self)@, account@, role),
            holds(final(self)@, account@, role),
            valid_assignments(final(self)@),
    {
        let _ = self.set_of(role);
        proof {
            grant_revoke_keep_valid(self@, account@, role);
            grant_revoke_laws(self@, account@, role);
        }
        match role {
            Role::Multisig => self.multisig.insert(account),
            Role::Admin => self.admin.insert(account),
            Role::Blocklister => self.blocklister.insert(account),
            Role::Controller => self.controller.insert(account),
            Role::MasterMinter => self.master_minter.insert(account),
            Role::Minter => self.minter.insert(account),
            Role::Owner => self.owner.insert(account),
            Role::Pauser => self.pauser.insert(account),
            Role::Blocklisted => self.blocklisted.insert(account),
        };
        assert(self@ =~= granted(old(self)@, account@, role));
    }

    /// Revokes `role` from `account`. Without effect when the account does
    /// not hold the role.
    pub fn revoke(&mut self, account: &AccountId, role: Role)
        ensures
            final(self)@ == revoked(old(self)@, account@, role),
            !holds(final(self)@, account@, role),
            valid_assignments(final(self)@),
    {
        let _ = self.set_of(role);
        proof {
            grant_revoke_keep_valid(self@, account@, role);
            grant_revoke_laws(self@, account@, role);
        }
        match role {
            Role::Multisig => self.multisig.remove(account),
            Role::Admin => self.admin.remove(account),
            Role::Blocklister => self.blocklister.remove(account),
            Role::Controller => self.controller.remove(account),
            Role::MasterMinter => self.master_minter.remove(account),
            Role::Minter => self.minter.remove(account),
            Role::Owner => self.owner.remove(account),
            Role::Pauser => self.pauser.remove(account),
            Role::Blocklisted => self.blocklisted.remove(account),
        };
        assert(self@ =~= revoked(old(self)@, account@, role));
    }
}

} // verus!
