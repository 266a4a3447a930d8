//! A table from accounts to values, looked up by the characters of the
//! account identifier.

use vstd::prelude::*;
use crate::account::AccountId;
use crate::keyed::{keyed_lookup, keyed_map, keyed_push, keyed_remove, keyed_update};

verus! {

/// The characters of the key of each entry.
pub open spec fn entry_names<V>(entries: Seq<(AccountId, V)>) -> Seq<Seq<char>> {
    entries.map_values(|entry: (AccountId, V)| entry.0@)
}

/// The value of each entry.
pub open spec fn entry_values<V>(entries: Seq<(AccountId, V)>) -> Seq<V> {
    entries.map_values(|entry: (AccountId, V)| entry.1)
}

/// The table that a list of entries with distinct keys stands for.
pub open spec fn entries_as_map<V>(entries: Seq<(AccountId, V)>) -> Map<Seq<char>, V> {
    keyed_map(entry_names(entries), entry_values(entries))
}

/// The table after each of `entries` has been stored in turn, a later entry
/// in place of an earlier one for the same account.
pub open spec fn stored_in_turn<V>(entries: Seq<(AccountId, V)>) -> Map<Seq<char>, V>
    decreases entries.len(),
{
    if entries.len() == 0 {
        Map::empty()
    } else {
        stored_in_turn(entries.drop_last()).insert(entries.last().0@, entries.last().1)
    }
}

/// Entries for accounts that are all different make, stored in turn, the
/// table that pairs each account with the value of its entry.
pub proof fn distinct_entries_stored<V>(entries: Seq<(AccountId, V)>)
    requires
        entry_names(entries).no_duplicates(),
    ensures
        stored_in_turn(entries) == entries_as_map(entries),
    decreases entries.len(),
{
    if entries.len() > 0 {
        let front = entries.drop_last();
        let last = entries.last();
        assert(entry_names(front) =~= entry_names(entries).drop_last());
        assert(entry_values(front) =~= entry_values(entries).drop_last());
        assert(entry_names(entries)[entries.len() - 1] == last.0@);
        if entry_names(front).contains(last.0@) {
            let i = entry_names(front).index_of(last.0@);
            assert(entry_names(entries)[i] == entry_names(entries)[entries.len() - 1]);
        }
        distinct_entries_stored(front);
        keyed_push(entry_names(front), entry_values(front), last.0@, last.1);
        assert(entry_names(front).push(last.0@) =~= entry_names(entries));
        assert(entry_values(front).push(last.1) =~= entry_values(entries));
    } else {
        assert(entries_as_map(entries) =~= Map::<Seq<char>, V>::empty());
    }
}

/// A table from accounts to values of type `V`.
pub struct AccountMap<V> {
    entries: Vec<(AccountId, V)>,
}

impl<V> View for AccountMap<V> {
    type V = Map<Seq<char>, V>;

    /// The value stored for each account that has one.
    closed spec fn view(&self) -> Map<Seq<char>, V> {
        entries_as_map(self.entries@)
    }
}

impl<V> AccountMap<V> {
    #[verifier::type_invariant]
    spec fn distinct_keys(&self) -> bool {
        entry_names(self.entries@).no_duplicates()
    }

    /// Creates a table without entries.
    pub fn new() -> (r: Self)
        ensures
            r@ == Map::<Seq<char>, V>::empty(),
    {
        let r = AccountMap { entries: Vec::new() };
        assert(r@ =~= Map::<Seq<char>, V>::empty());
        r
    }

    /// Creates the table that `entries` make when they are stored in turn.
    pub fn from_entries(entries: Vec<(AccountId, V)>) -> (r: Self)
        ensures
            r@ == stored_in_turn(entries@),
    {
        let mut r = AccountMap::new();
        let ghost all = entries@;
        for entry in iter: entries
            invariant
                iter.seq() == all,
                r@ == stored_in_turn(all.take(iter.index() as int)),
        {
            proof {
                let next = all.take(iter.index() + 1);
                assert(next.drop_last() =~= all.take(iter.index() as int));
                assert(next.last() == entry);
            }
            r.insert(entry.0, entry.1);
        }
        assert(all.take(all.len() as int) =~= all);
        r
    }

    /// Gives up the table for its entries, one for each account that has a
    /// value.
    pub fn into_entries(self) -> (r: Vec<(AccountId, V)>)
        ensures
            entry_names(r@).no_duplicates(),
            stored_in_turn(r@) == self@,
    {
        proof {
            use_type_invariant(&self);
            distinct_entries_stored(self.entries@);
        }
        self.entries
    }

    fn position(&self, key: &AccountId) -> (r: Option<usize>)
        ensures
            entry_names(self.entries@).no_duplicates(),
            match r {
                Some(i) => i < self.entries@.len() && self.entries@[i as int].0@ == key@
                    && self@.contains_key(key@) && self@[key@] == self.entries@[i as int].1,
                None => !self@.contains_key(key@),
            },
    {
        proof {
            use_type_invariant(self);
        }
        let mut i: usize = 0;
        while i < self.entries.len()
            invariant
                i <= self.entries@.len(),
                entry_names(self.entries@).no_duplicates(),
                forall|j: int| 0 <= j < i ==> entry_names(self.entries@)[j] != key@,
            decreases self.entries@.len() - i,
        {
            if self.entries[i].0 == *key {
                proof {
                    keyed_lookup(
                        entry_names(self.entries@),
                        entry_values(self.entries@),
                        i as int,
                    );
                }
                return Some(i);
            }
            i += 1;
        }
        None
    }

    /// Tells whether a value is stored for `key`.
    pub fn contains_key(&self, key: &AccountId) -> (r: bool)
        ensures
            r == self@.contains_key(key@),
    {
        self.position(key).is_some()
    }

    /// Returns the value stored for `key`, if there is one.
    pub fn get(&self, key: &AccountId) -> (r: Option<&V>)
        ensures
            match r {
                Some(value) => self@.contains_key(key@) && *value == self@[key@],
                None => !self@.contains_key(key@),
            },
    {
        match self.position(key) {
            Some(i) => Some(&self.entries[i].1),
            None => None,
        }
    }

    /// Stores `value` for `key`, in place of any value stored before.
    pub fn insert(&mut self, key: AccountId, value: V)
        ensures
            final(self)@ == old(self)@.insert(key@, value),
    {
        let found = self.position(&key);
        let mut entries: Vec<(AccountId, V)> = Vec::new();
        core::mem::swap(&mut self.entries, &mut entries);
        match found {
            Some(i) => {
                proof {
                    let after = entries@.update(i as int, (key, value));
                    keyed_update(entry_names(entries@), entry_values(entries@), i as int, value);
                    assert(entry_names(after) =~= entry_names(entries@));
                    assert(entry_values(after) =~= entry_values(entries@).update(i as int, value));
                }
                entries[i] = (key, value);
            },
            None => {
                proof {
                    let after = entries@.push((key, value));
                    keyed_push(entry_names(entries@), entry_values(entries@), key@, value);
                    assert(entry_names(after) =~= entry_names(entries@).push(key@));
                    assert(entry_values(after) =~= entry_values(entries@).push(value));
                }
                entries.push((key, value));
            },
        }
        core::mem::swap(&mut self.entries, &mut entries);
    }

    /// Deletes the entry of `key` and returns the value it held, if there was
    /// one.
    pub fn remove(&mut self, key: &AccountId) -> (r: Option<V>)
        ensures
            final(self)@ == old(self)@.remove(key@),
            r == if old(self)@.contains_key(key@) {
                Some(old(self)@[key@])
            } else {
                None
            },
    {
        match self.position(key) {
            Some(i) => {
                proof {
                    let after = self.entries@.remove(i as int);
                    keyed_remove(
                        entry_names(self.entries@),
                        entry_values(self.entries@),
                        i as int,
                    );
                    assert(entry_names(after) =~= entry_names(self.entries@).remove(i as int));
                    assert(entry_values(after) =~= entry_values(self.entries@).remove(i as int));
                }
                let mut entries: Vec<(AccountId, V)> = Vec::new();
                core::mem::swap(&mut self.entries, &mut entries);
                let entry = entries.remove(i);
                core::mem::swap(&mut self.entries, &mut entries);
                Some(entry.1)
            },
            None => {
                assert(self@.remove(key@) =~= self@);
                None
            },
        }
    }
}

} // verus!
