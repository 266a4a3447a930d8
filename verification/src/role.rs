//! The closed set of roles an account can hold.

use vstd::prelude::*;
use vstd::string::StringExecFns;

verus! {

/// A capability tag that can be granted to an account.
///
/// Roles are not mutually exclusive. The position of each role in this list is
/// its persisted identity: a new role is only ever added at the end, never
/// inserted or reordered, otherwise accounts stored under the old list would
/// silently change roles.
#[derive(Clone, Copy, Debug, PartialEq, Eq, Hash, Structural)]
pub enum Role {
    Multisig,
    Admin,
    /// Not part of the multi-signature scheme.
    Blocklister,
    Controller,
    MasterMinter,
    /// Not part of the multi-signature scheme.
    Minter,
    Owner,
    Pauser,
    /// Added after the first deployment, hence last.
    Blocklisted,
}

/// Number of roles in the closed set.
pub const ROLE_COUNT: u8 = 9;

impl Role {
    /// The persisted position of the role.
    pub open spec fn spec_index(self) -> nat {
        match self {
            Role::Multisig => 0,
            Role::Admin => 1,
            Role::Blocklister => 2,
            Role::Controller => 3,
            Role::MasterMinter => 4,
            Role::Minter => 5,
            Role::Owner => 6,
            Role::Pauser => 7,
            Role::Blocklisted => 8,
        }
    }

    /// The role stored at a persisted position, if the position is in use.
    pub open spec fn spec_from_index(index: nat) -> Option<Role> {
        if index == 0 {
            Some(Role::Multisig)
        } else if index == 1 {
            Some(Role::Admin)
        } else if index == 2 {
            Some(Role::Blocklister)
        } else if index == 3 {
            Some(Role::Controller)
        } else if index == 4 {
            Some(Role::MasterMinter)
        } else if index == 5 {
            Some(Role::Minter)
        } else if index == 6 {
            Some(Role::Owner)
        } else if index == 7 {
            Some(Role::Pauser)
        } else if index == 8 {
            Some(Role::Blocklisted)
        } else {
            None
        }
    }

    /// The display name of the role.
    pub open spec fn spec_name(self) -> Seq<char> {
        match self {
            Role::Multisig => "Multisig"@,
            Role::Admin => "Admin"@,
            Role::Blocklister => "Blocklister"@,
            Role::Controller => "Controller"@,
            Role::MasterMinter => "MasterMinter"@,
            Role::Minter => "Minter"@,
            Role::Owner => "Owner"@,
            Role::Pauser => "Pauser"@,
            Role::Blocklisted => "Blocklisted"@,
        }
    }

    /// Returns the persisted position of the role.
    pub fn index(&self) -> (r: u8)
        ensures
            r == self.spec_index(),
            r < ROLE_COUNT,
    {
        match self {
            Role::Multisig => 0,
            Role::Admin => 1,
            Role::Blocklister => 2,
            Role::Controller => 3,
            Role::MasterMinter => 4,
            Role::Minter => 5,
            Role::Owner => 6,
            Role::Pauser => 7,
            Role::Blocklisted => 8,
        }
    }

    /// Returns the role stored at a persisted position, or `None` when the
    /// position is past the end of the list.
    pub fn from_index(index: u8) -> (r: Option<Role>)
        ensures
            r == Role::spec_from_index(index as nat),
            r is Some <==> index < ROLE_COUNT,
    {
        match index {
            0 => Some(Role::Multisig),
            1 => Some(Role::Admin),
            2 => Some(Role::Blocklister),
            3 => Some(Role::Controller),
            4 => Some(Role::MasterMinter),
            5 => Some(Role::Minter),
            6 => Some(Role::Owner),
            7 => Some(Role::Pauser),
            8 => Some(Role::Blocklisted),
            _ => None,
        }
    }

    /// Returns the display name of the role, as it appears in messages.
    pub fn name(&self) -> (r: String)
        ensures
            r@ == self.spec_name(),
    {
        match self {
            Role::Multisig => String::from_str("Multisig"),
            Role::Admin => String::from_str("Admin"),
            Role::Blocklister => String::from_str("Blocklister"),
            Role::Controller => String::from_str("Controller"),
            Role::MasterMinter => String::from_str("MasterMinter"),
            Role::Minter => String::from_str("Minter"),
            Role::Owner => String::from_str("Owner"),
            Role::Pauser => String::from_str("Pauser"),
            Role::Blocklisted => String::from_str("Blocklisted"),
        }
    }

    /// A role survives a round trip through its persisted position, and every
    /// position in use names exactly one role.
    pub proof fn index_round_trip(role: Role, index: nat)
        ensures
            Role::spec_from_index(role.spec_index()) == Some(role),
            Role::spec_from_index(index) matches Some(found) ==> found.spec_index() == index,
    {
    }
}

} // verus!
