//! Account identifiers and ordered, duplicate-free sets of them.

use vstd::prelude::*;
use crate::keyed::{distinct_after_push, distinct_after_remove};

verus! {

/// An account identifier. Two identifiers name the same account exactly when
/// they hold the same characters.
pub type AccountId = String;

/// The characters of each identifier in a sequence of accounts.
pub open spec fn names(accounts: Seq<AccountId>) -> Seq<Seq<char>> {
    accounts.map_values(|account: AccountId| account@)
}

/// The members after `account` joins: unchanged when it is already one,
/// otherwise with `account` added at the end.
pub open spec fn with_member(members: Seq<Seq<char>>, account: Seq<char>) -> Seq<Seq<char>> {
    if members.contains(account) {
        members
    } else {
        members.push(account)
    }
}

/// The members after `account` leaves: unchanged when it is not one, otherwise
/// with its entry taken out and the order of the others kept.
pub open spec fn without_member(members: Seq<Seq<char>>, account: Seq<char>) -> Seq<Seq<char>> {
    if members.contains(account) {
        members.remove(members.index_of(account))
    } else {
        members
    }
}

/// Joining keeps a duplicate-free sequence duplicate-free and makes the
/// account a member without touching the membership of any other.
pub proof fn with_member_properties(members: Seq<Seq<char>>, account: Seq<char>)
    requires
        members.no_duplicates(),
    ensures
        with_member(members, account).no_duplicates(),
        with_member(members, account).contains(account),
        forall|other: Seq<char>|
            other != account ==> (#[trigger] with_member(members, account).contains(other)
                <==> members.contains(other)),
{
    if !members.contains(account) {
        distinct_after_push(members, account);
    }
}

/// Leaving keeps a duplicate-free sequence duplicate-free and ends the
/// membership of the account without touching the membership of any other.
pub proof fn without_member_properties(members: Seq<Seq<char>>, account: Seq<char>)
    requires
        members.no_duplicates(),
    ensures
        without_member(members, account).no_duplicates(),
        !without_member(members, account).contains(account),
        forall|other: Seq<char>|
            other != account ==> (#[trigger] without_member(members, account).contains(other)
                <==> members.contains(other)),
{
    if members.contains(account) {
        distinct_after_remove(members, members.index_of(account));
    }
}

/// The members after each of `accounts` has joined in turn: each account
/// once, at the place of its first occurrence.
pub open spec fn joined_in_turn(accounts: Seq<Seq<char>>) -> Seq<Seq<char>>
    decreases accounts.len(),
{
    if accounts.len() == 0 {
        Seq::empty()
    } else {
        with_member(joined_in_turn(accounts.drop_last()), accounts.last())
    }
}

/// Accounts that are all different join as the very sequence they come in.
pub proof fn distinct_join_as_they_are(accounts: Seq<Seq<char>>)
    requires
        accounts.no_duplicates(),
    ensures
        joined_in_turn(accounts) == accounts,
    decreases accounts.len(),
{
    if accounts.len() > 0 {
        let front = accounts.drop_last();
        distinct_join_as_they_are(front);
        if front.contains(accounts.last()) {
            let i = front.index_of(accounts.last());
            assert(accounts[i] == accounts[accounts.len() - 1]);
        }
        assert(front.push(accounts.last()) =~= accounts);
    } else {
        assert(accounts =~= Seq::<Seq<char>>::empty());
    }
}

/// A set of accounts that remembers the order in which its members joined.
pub struct AccountSet {
    members: Vec<AccountId>,
}

impl View for AccountSet {
    type V = Seq<Seq<char>>;

    /// The members in the order in which they joined.
    closed spec fn view(&self) -> Seq<Seq<char>> {
        names(self.members@)
    }
}

impl AccountSet {
    /// No account is a member twice.
    #[verifier::type_invariant]
    pub open spec fn well_formed(&self) -> bool {
        self@.no_duplicates()
    }

    /// Creates a set without members.
    pub fn new() -> (r: Self)
        ensures
            r@ == Seq::<Seq<char>>::empty(),
    {
        let r = AccountSet { members: Vec::new() };
        assert(r@ =~= Seq::<Seq<char>>::empty());
        r
    }

    /// Returns the number of members. No account is counted twice.
    pub fn len(&self) -> (r: usize)
        ensures
            r == self@.len(),
            self@.no_duplicates(),
    {
        proof {
            use_type_invariant(self);
        }
        self.members.len()
    }

    fn position(&self, account: &AccountId) -> (r: Option<usize>)
        ensures
            self@.no_duplicates(),
            match r {
                Some(i) => i < self@.len() && self@[i as int] == account@ && self@.index_of(
                    account@,
                ) == i,
                None => !self@.contains(account@),
            },
    {
        proof {
            use_type_invariant(self);
        }
        let mut i: usize = 0;
        while i < self.members.len()
            invariant
                i <= self.members@.len(),
                names(self.members@).no_duplicates(),
                forall|j: int| 0 <= j < i ==> names(self.members@)[j] != account@,
            decreases self.members@.len() - i,
        {
            if self.members[i] == *account {
                assert(names(self.members@)[i as int] == account@);
                return Some(i);
            }
            i += 1;
        }
        None
    }

    /// Tells whether `account` is a member.
    pub fn contains(&self, account: &AccountId) -> (r: bool)
        ensures
            r == self@.contains(account@),
    {
        self.position(account).is_some()
    }

    /// Makes `account` a member. Returns `true` when it was not one before.
    pub fn insert(&mut self, account: AccountId) -> (r: bool)
        ensures
            final(self)@ == with_member(old(self)@, account@),
            r == !old(self)@.contains(account@),
    {
        match self.position(&account) {
            Some(_) => false,
            None => {
                proof {
                    with_member_properties(self@, account@);
                    assert(names(self.members@.push(account)) =~= names(self.members@).push(
                        account@,
                    ));
                }
                let mut members: Vec<AccountId> = Vec::new();
                core::mem::swap(&mut self.members, &mut members);
                members.push(account);
                core::mem::swap(&mut self.members, &mut members);
                true
            },
        }
    }

    /// Ends the membership of `account`. Returns `true` when it was a member.
    pub fn remove(&mut self, account: &AccountId) -> (r: bool)
        ensures
            final(self)@ == without_member(old(self)@, account@),
            r == old(self)@.contains(account@),
    {
        match self.position(account) {
            Some(i) => {
                proof {
                    without_member_properties(self@, account@);
                    assert(names(self.members@.remove(i as int)) =~= names(self.members@).remove(
                        i as int,
                    ));
                }
                let mut members: Vec<AccountId> = Vec::new();
                core::mem::swap(&mut self.members, &mut members);
                let _ = members.remove(i);
                core::mem::swap(&mut self.members, &mut members);
                true
            },
            None => false,
        }
    }

    /// Creates the set that `accounts` make when they join in turn. An
    /// account that occurs more than once joins once.
    pub fn from_vec(accounts: Vec<AccountId>) -> (r: Self)
        ensures
            r@ == joined_in_turn(names(accounts@)),
    {
        let mut r = AccountSet::new();
        let ghost all = accounts@;
        for account in iter: accounts
            invariant
                iter.seq() == all,
                r@ == joined_in_turn(names(all.take(iter.index() as int))),
        {
            proof {
                let next = names(all.take(iter.index() + 1));
                assert(next.drop_last() =~= names(all.take(iter.index() as int)));
                assert(next.last() == account@);
            }
            let _ = r.insert(account);
        }
        assert(all.take(all.len() as int) =~= all);
        r
    }

    /// Gives up the set for its members, in the order in which they joined.
    pub fn into_vec(self) -> (r: Vec<AccountId>)
        ensures
            names(r@) == self@,
            names(r@).no_duplicates(),
            joined_in_turn(names(r@)) == self@,
    {
        proof {
            use_type_invariant(&self);
            distinct_join_as_they_are(self@);
        }
        self.members
    }

    /// Returns the members, each once, in the order in which they joined.
    pub fn to_vec(&self) -> (r: Vec<AccountId>)
        ensures
            names(r@) == self@,
            names(r@).no_duplicates(),
    {
        proof {
            use_type_invariant(self);
        }
        let mut r: Vec<AccountId> = Vec::new();
        let mut i: usize = 0;
        while i < self.members.len()
            invariant
                i <= self.members@.len(),
                r@.len() == i,
                forall|j: int| 0 <= j < i ==> r@[j]@ == self.members@[j]@,
            decreases self.members@.len() - i,
        {
            r.push(self.members[i].clone());
            i += 1;
        }
        assert(names(r@) =~= self@);
        r
    }
}

} // verus!
