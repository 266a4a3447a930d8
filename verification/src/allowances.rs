//! The spending allowances that token holders grant to spenders.

use vstd::prelude::*;
use crate::account::AccountId;
use crate::keyed::{keyed_lookup, keyed_map, keyed_push, keyed_update};

verus! {

/// A holder and a spender, each by the characters of its identifier.
pub type HolderSpender = (Seq<char>, Seq<char>);

/// A holder, a spender and what the spender may spend of the tokens of the
/// holder.
pub type AllowanceEntry = (AccountId, AccountId, u128);

/// What `spender` may spend of the tokens of `holder`: the allowance stored
/// for the pair, or nothing when none is stored.
pub open spec fn allowance_of(
    allowances: Map<HolderSpender, u128>,
    holder: Seq<char>,
    spender: Seq<char>,
) -> u128 {
    if allowances.contains_key((holder, spender)) {
        allowances[(holder, spender)]
    } else {
        0
    }
}

/// The holder and the spender of each entry.
pub open spec fn entry_pairs(entries: Seq<AllowanceEntry>) -> Seq<HolderSpender> {
    entries.map_values(|entry: AllowanceEntry| (entry.0@, entry.1@))
}

/// The allowance of each entry.
pub open spec fn entry_amounts(entries: Seq<AllowanceEntry>) -> Seq<u128> {
    entries.map_values(|entry: AllowanceEntry| entry.2)
}

/// The allowances after each of `entries` has been approved in turn, a later
/// entry in place of an earlier one for the same holder and spender.
pub open spec fn approved_in_turn(entries: Seq<AllowanceEntry>) -> Map<HolderSpender, u128>
    decreases entries.len(),
{
    if entries.len() == 0 {
        Map::empty()
    } else {
        approved_in_turn(entries.drop_last()).insert(
            (entries.last().0@, entries.last().1@),
            entries.last().2,
        )
    }
}

/// Entries for pairs that are all different make, approved in turn, the
/// allowances that give each pair the amount of its entry.
pub proof fn distinct_entries_approved(entries: Seq<AllowanceEntry>)
    requires
        entry_pairs(entries).no_duplicates(),
    ensures
        approved_in_turn(entries) == keyed_map(entry_pairs(entries), entry_amounts(entries)),
    decreases entries.len(),
{
    if entries.len() > 0 {
        let front = entries.drop_last();
        let last = entries.last();
        let pair = (last.0@, last.1@);
        assert(entry_pairs(front) =~= entry_pairs(entries).drop_last());
        assert(entry_amounts(front) =~= entry_amounts(entries).drop_last());
        assert(entry_pairs(entries)[entries.len() - 1] == pair);
        if entry_pairs(front).contains(pair) {
            let i = entry_pairs(front).index_of(pair);
            assert(entry_pairs(entries)[i] == entry_pairs(entries)[entries.len() - 1]);
        }
        distinct_entries_approved(front);
        keyed_push(entry_pairs(front), entry_amounts(front), pair, last.2);
        assert(entry_pairs(front).push(pair) =~= entry_pairs(entries));
        assert(entry_amounts(front).push(last.2) =~= entry_amounts(entries));
    } else {
        assert(keyed_map(entry_pairs(entries), entry_amounts(entries)) =~= Map::<
            HolderSpender,
            u128,
        >::empty());
    }
}

/// The allowances of spenders over the tokens of holders.
pub struct AllowanceTable {
    entries: Vec<AllowanceEntry>,
}

impl View for AllowanceTable {
    type V = Map<HolderSpender, u128>;

    /// The allowance stored for each pair of holder and spender that has one.
    closed spec fn view(&self) -> Map<HolderSpender, u128> {
        keyed_map(entry_pairs(self.entries@), entry_amounts(self.entries@))
    }
}

impl AllowanceTable {
    #[verifier::type_invariant]
    spec fn distinct_pairs(&self) -> bool {
        entry_pairs(self.entries@).no_duplicates()
    }

    /// Creates a table without allowances.
    pub fn new() -> (r: Self)
        ensures
            r@ == Map::<HolderSpender, u128>::empty(),
    {
        let r = AllowanceTable { entries: Vec::new() };
        assert(r@ =~= Map::<HolderSpender, u128>::empty());
        r
    }

    /// Creates the table that `entries` make when they are approved in turn.
    pub fn from_entries(entries: Vec<AllowanceEntry>) -> (r: Self)
        ensures
            r@ == approved_in_turn(entries@),
    {
        let mut r = AllowanceTable::new();
        let ghost all = entries@;
        for entry in iter: entries
            invariant
                iter.seq() == all,
                r@ == approved_in_turn(all.take(iter.index() as int)),
        {
            proof {
                let next = all.take(iter.index() + 1);
                assert(next.drop_last() =~= all.take(iter.index() as int));
                assert(next.last() == entry);
            }
            r.set(entry.0, entry.1, entry.2);
        }
        assert(all.take(all.len() as int) =~= all);
        r
    }

    /// Gives up the table for its entries, one for each pair of holder and
    /// spender that has an allowance.
    pub fn into_entries(self) -> (r: Vec<AllowanceEntry>)
        ensures
            entry_pairs(r@).no_duplicates(),
            approved_in_turn(r@) == self@,
    {
        proof {
            use_type_invariant(&self);
            distinct_entries_approved(self.entries@);
        }
        self.entries
    }

    fn position(&self, holder: &AccountId, spender: &AccountId) -> (r: Option<usize>)
        ensures
            entry_pairs(self.entries@).no_duplicates(),
            match r {
                Some(i) => i < self.entries@.len() && self.entries@[i as int].0@ == holder@
                    && self.entries@[i as int].1@ == spender@ && self@.contains_key(
                    (holder@, spender@),
                ) && self@[(holder@, spender@)] == self.entries@[i as int].2,
                None => !self@.contains_key((holder@, spender@)),
            },
    {
        proof {
            use_type_invariant(self);
        }
        let mut i: usize = 0;
        while i < self.entries.len()
            invariant
                i <= self.entries@.len(),
                entry_pairs(self.entries@).no_duplicates(),
                forall|j: int| 0 <= j < i ==> entry_pairs(self.entries@)[j] != (holder@, spender@),
            decreases self.entries@.len() - i,
        {
            if self.entries[i].0 == *holder && self.entries[i].1 == *spender {
                proof {
                    keyed_lookup(
                        entry_pairs(self.entries@),
                        entry_amounts(self.entries@),
                        i as int,
                    );
                }
                return Some(i);
            }
            i += 1;
        }
        None
    }

    /// Returns what `spender` may spend of the tokens of `holder`.
    pub fn get(&self, holder: &AccountId, spender: &AccountId) -> (r: u128)
        ensures
            r == allowance_of(self@, holder@, spender@),
    {
        match self.position(holder, spender) {
            Some(i) => self.entries[i].2,
            None => 0,
        }
    }

    /// Sets what `spender` may spend of the tokens of `holder`, whatever it
    /// was before.
    pub fn set(&mut self, holder: AccountId, spender: AccountId, allowance: u128)
        ensures
            final(self)@ == old(self)@.insert((holder@, spender@), allowance),
    {
        let found = self.position(&holder, &spender);
        let mut entries: Vec<AllowanceEntry> = Vec::new();
        core::mem::swap(&mut self.entries, &mut entries);
        match found {
            Some(i) => {
                proof {
                    let after = entries@.update(i as int, (holder, spender, allowance));
                    keyed_update(
                        entry_pairs(entries@),
                        entry_amounts(entries@),
                        i as int,
                        allowance,
                    );
                    assert(entry_pairs(after) =~= entry_pairs(entries@));
                    assert(entry_amounts(after) =~= entry_amounts(entries@).update(
                        i as int,
                        allowance,
                    ));
                }
                entries[i] = (holder, spender, allowance);
            },
            None => {
                proof {
                    let after = entries@.push((holder, spender, allowance));
                    keyed_push(
                        entry_pairs(entries@),
                        entry_amounts(entries@),
                        (holder@, spender@),
                        allowance,
                    );
                    assert(entry_pairs(after) =~= entry_pairs(entries@).push((holder@, spender@)));
                    assert(entry_amounts(after) =~= entry_amounts(entries@).push(allowance));
                }
                entries.push((holder, spender, allowance));
            },
        }
        core::mem::swap(&mut self.entries, &mut entries);
    }
}

} // verus!
