//! The minter-allowance ledger: which minter each controller controls, and
//! how much each minter may still mint.

use vstd::prelude::*;
use crate::account::AccountId;
use crate::account_map::{entry_names, stored_in_turn, AccountMap};
use crate::error::{Counter, FiatTokenError, Quantity, Spending};
use crate::rbac::{granted, revoked, valid_assignments, RoleRegistry};
use crate::role::Role;

verus! {

/// What `minter` may still mint: the quota stored for it, or nothing when none
/// is stored.
pub open spec fn quota(quotas: Map<Seq<char>, u128>, minter: Seq<char>) -> u128 {
    if quotas.contains_key(minter) {
        quotas[minter]
    } else {
        0
    }
}

/// The quota of `minter` after an increase by `increment`, or the reason for
/// which the increase is refused.
pub open spec fn increased(quotas: Map<Seq<char>, u128>, minter: Seq<char>, increment: u128)
    -> Result<u128, FiatTokenError> {
    if increment == 0 {
        Err(FiatTokenError::InvalidAmount { quantity: Quantity::MinterAllowanceIncrement })
    } else if quota(quotas, minter) + increment > u128::MAX {
        Err(FiatTokenError::Overflow { counter: Counter::MinterAllowance })
    } else {
        Ok((quota(quotas, minter) + increment) as u128)
    }
}

/// The quota of `minter` after a decrease by `decrement`, or the reason for
/// which the decrease is refused.
pub open spec fn decreased(quotas: Map<Seq<char>, u128>, minter: Seq<char>, decrement: u128)
    -> Result<u128, FiatTokenError> {
    if decrement == 0 {
        Err(FiatTokenError::InvalidAmount { quantity: Quantity::MinterAllowanceDecrement })
    } else if decrement > quota(quotas, minter) {
        Err(FiatTokenError::Underflow { counter: Counter::MinterAllowance })
    } else {
        Ok((quota(quotas, minter) - decrement) as u128)
    }
}

/// The quota of `minter` after it has minted `amount`, or the refusal when
/// the amount is more than what is left.
pub open spec fn consumed(quotas: Map<Seq<char>, u128>, minter: Seq<char>, amount: u128) -> Result<
    u128,
    FiatTokenError,
> {
    if amount > quota(quotas, minter) {
        Err(FiatTokenError::ExceedsAllowance { spending: Spending::Mint })
    } else {
        Ok((quota(quotas, minter) - amount) as u128)
    }
}

/// The quotas after an operation on `minter` with the given outcome: the new
/// quota is stored on success, and nothing changes on refusal.
pub open spec fn settled(
    quotas: Map<Seq<char>, u128>,
    minter: Seq<char>,
    outcome: Result<u128, FiatTokenError>,
) -> Map<Seq<char>, u128> {
    match outcome {
        Ok(remaining) => quotas.insert(minter, remaining),
        Err(_) => quotas,
    }
}

/// Minting `first` and then `second`, which together are no more than the
/// quota, leaves exactly the quota less both amounts.
pub proof fn consume_twice(
    quotas: Map<Seq<char>, u128>,
    minter: Seq<char>,
    first: u128,
    second: u128,
)
    requires
        first + second <= quota(quotas, minter),
    ensures
        consumed(quotas, minter, first) == Ok::<u128, FiatTokenError>(
            (quota(quotas, minter) - first) as u128,
        ),
        ({
            let after_first = settled(quotas, minter, consumed(quotas, minter, first));
            let after_second = settled(after_first, minter, consumed(after_first, minter, second));
            &&& consumed(after_first, minter, second) == Ok::<u128, FiatTokenError>(
                (quota(quotas, minter) - first - second) as u128,
            )
            &&& quota(after_second, minter) == quota(quotas, minter) - first - second
        }),
{
}

/// Minting more than what is left is refused and leaves the quotas as they
/// were.
pub proof fn consume_beyond_quota(quotas: Map<Seq<char>, u128>, minter: Seq<char>, amount: u128)
    requires
        amount > quota(quotas, minter),
    ensures
        consumed(quotas, minter, amount) == Err::<u128, FiatTokenError>(
            FiatTokenError::ExceedsAllowance { spending: Spending::Mint },
        ),
        settled(quotas, minter, consumed(quotas, minter, amount)) == quotas,
{
}

/// An increase that does not overflow, followed by a decrease by the same
/// amount, restores the quota exactly. Both go through when the amount is
/// positive; both are refused, and change nothing, when it is zero.
pub proof fn increase_then_decrease(quotas: Map<Seq<char>, u128>, minter: Seq<char>, delta: u128)
    requires
        quota(quotas, minter) + delta <= u128::MAX,
    ensures
        ({
            let raised = settled(quotas, minter, increased(quotas, minter, delta));
            let restored = settled(raised, minter, decreased(raised, minter, delta));
            &&& quota(restored, minter) == quota(quotas, minter)
            &&& delta > 0 ==> increased(quotas, minter, delta) == Ok::<u128, FiatTokenError>(
                (quota(quotas, minter) + delta) as u128,
            ) && decreased(raised, minter, delta) == Ok::<u128, FiatTokenError>(
                quota(quotas, minter),
            )
            &&& delta == 0 ==> restored == quotas
        }),
{
}

/// The controller-to-minter assignments and the remaining quota of each
/// minter.
///
/// A controller controls one minter at a time; several controllers may
/// control the same minter. A quota is only ever spent: nothing replenishes
/// it but a new configuration.
pub struct MinterAllowanceLedger {
    controllers: AccountMap<AccountId>,
    minter_allowed: AccountMap<u128>,
}

impl MinterAllowanceLedger {
    /// The minter that each controller controls.
    pub closed spec fn controllers(&self) -> Map<Seq<char>, AccountId> {
        self.controllers@
    }

    /// The quota stored for each configured minter.
    pub closed spec fn quotas(&self) -> Map<Seq<char>, u128> {
        self.minter_allowed@
    }

    /// Creates a ledger without controllers and without minters.
    pub fn new() -> (r: Self)
        ensures
            r.controllers() == Map::<Seq<char>, AccountId>::empty(),
            r.quotas() == Map::<Seq<char>, u128>::empty(),
    {
        MinterAllowanceLedger { controllers: AccountMap::new(), minter_allowed: AccountMap::new() }
    }

    /// Creates the ledger that the given assignments of controllers and
    /// quotas of minters make when they are stored in turn.
    pub fn from_parts(
        controllers: Vec<(AccountId, AccountId)>,
        minter_allowed: Vec<(AccountId, u128)>,
    ) -> (r: Self)
        ensures
            r.controllers() == stored_in_turn(controllers@),
            r.quotas() == stored_in_turn(minter_allowed@),
    {
        MinterAllowanceLedger {
            controllers: AccountMap::from_entries(controllers),
            minter_allowed: AccountMap::from_entries(minter_allowed),
        }
    }

    /// Gives up the ledger for the assignments of its controllers and the
    /// quotas of its minters, one entry for each.
    pub fn into_parts(self) -> (r: (Vec<(AccountId, AccountId)>, Vec<(AccountId, u128)>))
        ensures
            entry_names(r.0@).no_duplicates(),
            entry_names(r.1@).no_duplicates(),
            stored_in_turn(r.0@) == self.controllers(),
            stored_in_turn(r.1@) == self.quotas(),
    {
        (self.controllers.into_entries(), self.minter_allowed.into_entries())
    }

    /// Returns the minter that `controller` controls, if it controls one.
    pub fn minter_of(&self, controller: &AccountId) -> (r: Option<&AccountId>)
        ensures
            match r {
                Some(minter) => self.controllers().contains_key(controller@) && *minter
                    == self.controllers()[controller@],
                None => !self.controllers().contains_key(controller@),
            },
    {
        self.controllers.get(controller)
    }

    /// Makes `controller` control `minter`, in place of any minter it
    /// controlled before.
    pub fn assign_controller(&mut self, controller: AccountId, minter: AccountId)
        ensures
            final(self).controllers() == old(self).controllers().insert(controller@, minter),
            final(self).quotas() == old(self).quotas(),
    {
        self.controllers.insert(controller, minter);
    }

    /// Ends the control of `controller` over its minter. Returns `false`, and
    /// changes nothing, when it controls none.
    pub fn unassign_controller(&mut self, controller: &AccountId) -> (r: bool)
        ensures
            r == old(self).controllers().contains_key(controller@),
            final(self).controllers() == old(self).controllers().remove(controller@),
            final(self).quotas() == old(self).quotas(),
    {
        self.controllers.remove(controller).is_some()
    }

    /// Returns what `minter` may still mint; nothing for an account that is
    /// not a configured minter.
    pub fn minter_allowance(&self, minter: &AccountId) -> (r: u128)
        ensures
            r == quota(self.quotas(), minter@),
    {
        match self.minter_allowed.get(minter) {
            Some(allowance) => *allowance,
            None => 0,
        }
    }

    /// Grants the minter role to `minter` and sets its quota to `allowance`,
    /// whatever it was before.
    pub fn configure(&mut self, roles: &mut RoleRegistry, minter: AccountId, allowance: u128)
        ensures
            final(self).quotas() == old(self).quotas().insert(minter@, allowance),
            final(self).controllers() == old(self).controllers(),
            final(roles)@ == granted(old(roles)@, minter@, Role::Minter),
            valid_assignments(final(roles)@),
    {
        roles.grant(minter.clone(), Role::Minter);
        self.minter_allowed.insert(minter, allowance);
    }

    /// Raises the quota of `minter` by `increment`, which must be positive,
    /// and grants it the minter role. Refused, with nothing changed, when the
    /// increment is zero or the sum would not fit.
    pub fn increase(&mut self, roles: &mut RoleRegistry, minter: &AccountId, increment: u128) -> (r:
        Result<u128, FiatTokenError>)
        ensures
            r == increased(old(self).quotas(), minter@, increment),
            final(self).quotas() == settled(old(self).quotas(), minter@, r),
            final(self).controllers() == old(self).controllers(),
            final(roles)@ == if r is Ok {
                granted(old(roles)@, minter@, Role::Minter)
            } else {
                old(roles)@
            },
    {
        if increment == 0 {
            return Err(
                FiatTokenError::InvalidAmount { quantity: Quantity::MinterAllowanceIncrement },
            );
        }
        match self.minter_allowance(minter).checked_add(increment) {
            Some(allowance) => {
                self.configure(roles, minter.clone(), allowance);
                Ok(allowance)
            },
            None => Err(FiatTokenError::Overflow { counter: Counter::MinterAllowance }),
        }
    }

    /// Lowers the quota of `minter` by `decrement`, which must be positive,
    /// and grants it the minter role. Refused, with nothing changed, when the
    /// decrement is zero or more than the quota.
    pub fn decrease(&mut self, roles: &mut RoleRegistry, minter: &AccountId, decrement: u128) -> (r:
        Result<u128, FiatTokenError>)
        ensures
            r == decreased(old(self).quotas(), minter@, decrement),
            final(self).quotas() == settled(old(self).quotas(), minter@, r),
            final(self).controllers() == old(self).controllers(),
            final(roles)@ == if r is Ok {
                granted(old(roles)@, minter@, Role::Minter)
            } else {
                old(roles)@
            },
    {
        if decrement == 0 {
            return Err(
                FiatTokenError::InvalidAmount { quantity: Quantity::MinterAllowanceDecrement },
            );
        }
        match self.minter_allowance(minter).checked_sub(decrement) {
            Some(allowance) => {
                self.configure(roles, minter.clone(), allowance);
                Ok(allowance)
            },
            None => Err(FiatTokenError::Underflow { counter: Counter::MinterAllowance }),
        }
    }

    /// Revokes the minter role from `minter` and deletes its quota. A removed
    /// minter is no minter at all, which is not the same as a minter with
    /// nothing left.
    pub fn remove(&mut self, roles: &mut RoleRegistry, minter: &AccountId)
        ensures
            final(self).quotas() == old(self).quotas().remove(minter@),
            final(self).controllers() == old(self).controllers(),
            final(roles)@ == revoked(old(roles)@, minter@, Role::Minter),
            valid_assignments(final(roles)@),
    {
        roles.revoke(minter, Role::Minter);
        let _ = self.minter_allowed.remove(minter);
    }

    /// Takes `amount` off the quota of `minter`. Refused, with nothing
    /// changed, when the amount is more than what is left.
    pub fn consume(&mut self, minter: &AccountId, amount: u128) -> (r: Result<u128, FiatTokenError>)
        ensures
            r == consumed(old(self).quotas(), minter@, amount),
            final(self).quotas() == settled(old(self).quotas(), minter@, r),
            final(self).controllers() == old(self).controllers(),
    {
        match self.minter_allowance(minter).checked_sub(amount) {
            Some(remaining) => {
                self.minter_allowed.insert(minter.clone(), remaining);
                Ok(remaining)
            },
            None => Err(FiatTokenError::ExceedsAllowance { spending: Spending::Mint }),
        }
    }
}

} // verus!
