//! The multi-signature request store and the rules by which a request
//! gathers approvals, becomes executable, expires and is removed.

use vstd::prelude::*;
use crate::account::{joined_in_turn, names, AccountId, AccountSet};
use crate::error::{Counter, FiatTokenError, Missing, RemovalError};
use crate::fiat_token_action::FiatTokenAction;
use crate::keyed::{
    distinct_after_push, keyed_lookup, keyed_map, keyed_push, keyed_remove, keyed_update,
};

verus! {

/// The settings of the approval scheme, fixed when the contract is set up.
#[derive(Clone, Copy, Debug, PartialEq, Eq, Structural)]
pub struct Configuration {
    /// How many distinct approvals a request needs before it can be executed.
    pub approval_threshold: u32,
    /// For how long a request stays valid, in nanoseconds. Zero means that
    /// requests never expire, and so can never be removed unexecuted.
    pub validity_period: u64,
}

impl Configuration {
    /// Creates the settings of an approval scheme.
    pub fn new(approval_threshold: u32, validity_period: u64) -> (r: Self)
        ensures
            r == (Configuration { approval_threshold, validity_period }),
    {
        Configuration { approval_threshold, validity_period }
    }

    /// Tells whether a request created at `created_at` has expired at `now`.
    pub fn is_expired(&self, created_at: u64, now: u64) -> (r: bool)
        ensures
            r == expired(*self, created_at, now),
    {
        self.validity_period != 0 && now > created_at && now - created_at > self.validity_period
    }
}

/// A pending request as the rules see it: the action it carries, the
/// accounts that have approved it so far, in the order of their approvals,
/// and the time of its creation.
pub struct RequestView {
    pub action: FiatTokenAction,
    pub approvals: Seq<Seq<char>>,
    pub created_at: u64,
}

/// A request has expired once more time than the validity period has passed
/// since its creation. With a validity period of zero no request expires.
pub open spec fn expired(config: Configuration, created_at: u64, now: u64) -> bool {
    config.validity_period != 0 && now - created_at > config.validity_period
}

/// Whether `approver` may add its approval to `request` at `now`: not to an
/// expired request, and not a second time.
pub open spec fn approval_outcome(
    config: Configuration,
    request: RequestView,
    approver: Seq<char>,
    now: u64,
) -> Result<(), FiatTokenError> {
    if expired(config, request.created_at, now) {
        Err(FiatTokenError::RequestExpired)
    } else if request.approvals.contains(approver) {
        Err(FiatTokenError::AlreadyApproved)
    } else {
        Ok(())
    }
}

/// The request after `approver` has added its approval.
pub open spec fn approved_by(request: RequestView, approver: Seq<char>) -> RequestView {
    RequestView { approvals: request.approvals.push(approver), ..request }
}

/// Whether `request` can be executed at `now`: not once it has expired, and
/// not before it has as many approvals as the threshold asks for.
pub open spec fn execution_eligibility(config: Configuration, request: RequestView, now: u64)
    -> Result<(), FiatTokenError> {
    if expired(config, request.created_at, now) {
        Err(FiatTokenError::RequestExpired)
    } else if request.approvals.len() < config.approval_threshold {
        Err(
            FiatTokenError::InsufficientApprovals {
                current: request.approvals.len() as usize,
                required: config.approval_threshold as usize,
            },
        )
    } else {
        Ok(())
    }
}

/// Whether `request` can be removed unexecuted at `now`: only once it has
/// expired.
pub open spec fn removal_eligibility(config: Configuration, request: RequestView, now: u64)
    -> Result<(), FiatTokenError> {
    if expired(config, request.created_at, now) {
        Ok(())
    } else {
        Err(FiatTokenError::RemovalNotAllowed(RemovalError::RequestStillValid))
    }
}

/// A request that has not expired cannot be executed while it has fewer
/// approvals than the threshold, and the refusal tells both numbers; with as
/// many approvals as the threshold, or more, it can.
pub proof fn quorum_boundary(config: Configuration, request: RequestView, now: u64)
    requires
        !expired(config, request.created_at, now),
    ensures
        request.approvals.len() < config.approval_threshold ==> execution_eligibility(
            config,
            request,
            now,
        ) == Err::<(), FiatTokenError>(
            FiatTokenError::InsufficientApprovals {
                current: request.approvals.len() as usize,
                required: config.approval_threshold as usize,
            },
        ),
        request.approvals.len() >= config.approval_threshold ==> execution_eligibility(
            config,
            request,
            now,
        ) is Ok,
{
}

/// Under a validity period that is not zero, a request with enough approvals
/// can be executed, and cannot be removed, for as long as no more time than
/// the period has passed since its creation; from then on it cannot be
/// executed and can be removed.
pub proof fn expiry_boundary(config: Configuration, request: RequestView, now: u64)
    requires
        config.validity_period != 0,
        request.approvals.len() >= config.approval_threshold,
    ensures
        now - request.created_at <= config.validity_period ==> execution_eligibility(
            config,
            request,
            now,
        ) is Ok && removal_eligibility(config, request, now) == Err::<(), FiatTokenError>(
            FiatTokenError::RemovalNotAllowed(RemovalError::RequestStillValid),
        ),
        now - request.created_at > config.validity_period ==> execution_eligibility(
            config,
            request,
            now,
        ) == Err::<(), FiatTokenError>(FiatTokenError::RequestExpired) && removal_eligibility(
            config,
            request,
            now,
        ) is Ok,
{
}

/// An account that has approved a request cannot approve it again, and its
/// one approval counts once towards the threshold.
pub proof fn approval_counts_once(
    config: Configuration,
    request: RequestView,
    approver: Seq<char>,
    now: u64,
)
    requires
        approval_outcome(config, request, approver, now) is Ok,
    ensures
        approved_by(request, approver).approvals.len() == request.approvals.len() + 1,
        approval_outcome(config, approved_by(request, approver), approver, now) == Err::<
            (),
            FiatTokenError,
        >(FiatTokenError::AlreadyApproved),
        request.approvals.no_duplicates() ==> approved_by(request, approver).approvals.no_duplicates(),
{
    let after = approved_by(request, approver).approvals;
    assert(after[request.approvals.len() as int] == approver);
    if request.approvals.no_duplicates() {
        distinct_after_push(request.approvals, approver);
    }
}

/// A pending request as plain data.
#[derive(Clone, Debug, PartialEq, Eq)]
pub struct RequestRecord {
    /// The identifier of the request.
    pub id: u32,
    /// The action that the request carries.
    pub action: FiatTokenAction,
    /// The accounts that have approved the request, in the order of their
    /// approvals.
    pub approved_by: Vec<AccountId>,
    /// The time at which the request was created.
    pub created_at: u64,
}

/// The identifier of each record.
pub open spec fn record_ids(records: Seq<RequestRecord>) -> Seq<u32> {
    records.map_values(|record: RequestRecord| record.id)
}

/// The request that a record stands for. An account that the record names
/// more than once has approved once.
pub open spec fn record_view(record: RequestRecord) -> RequestView {
    RequestView {
        action: record.action,
        approvals: joined_in_turn(names(record.approved_by@)),
        created_at: record.created_at,
    }
}

/// Records can stand for the pending requests of a store whose next request
/// will get `next_request_id`: no two have the same identifier, and each
/// identifier is below `next_request_id`.
pub open spec fn records_valid(next_request_id: u32, records: Seq<RequestRecord>) -> bool {
    &&& record_ids(records).no_duplicates()
    &&& forall|i: int| 0 <= i < records.len() ==> (#[trigger] records[i]).id < next_request_id
}

/// The request that each record stands for.
pub open spec fn record_views(records: Seq<RequestRecord>) -> Seq<RequestView> {
    records.map_values(|record: RequestRecord| record_view(record))
}

/// The pending requests that valid records stand for.
pub open spec fn requests_of(records: Seq<RequestRecord>) -> Map<u32, RequestView> {
    keyed_map(record_ids(records), record_views(records))
}

/// A pending multi-signature request.
struct MultisigRequest {
    id: u32,
    action: FiatTokenAction,
    approvals: AccountSet,
    created_at: u64,
}

impl View for MultisigRequest {
    type V = RequestView;

    closed spec fn view(&self) -> RequestView {
        RequestView {
            action: self.action,
            approvals: self.approvals@,
            created_at: self.created_at,
        }
    }
}

spec fn request_ids(requests: Seq<MultisigRequest>) -> Seq<u32> {
    requests.map_values(|request: MultisigRequest| request.id)
}

spec fn request_views(requests: Seq<MultisigRequest>) -> Seq<RequestView> {
    requests.map_values(|request: MultisigRequest| request@)
}

/// The pending requests, each under the identifier it was given at its
/// creation.
///
/// Identifiers come from a counter that starts at zero and only ever grows,
/// so no identifier is used twice, not even after its request is gone.
pub struct MultisigRequestStore {
    config: Configuration,
    next_request_id: u32,
    requests: Vec<MultisigRequest>,
}

impl MultisigRequestStore {
    #[verifier::type_invariant]
    spec fn well_formed(&self) -> bool {
        &&& request_ids(self.requests@).no_duplicates()
        &&& forall|i: int|
            0 <= i < self.requests@.len() ==> (#[trigger] self.requests@[i]).id
                < self.next_request_id
        &&& forall|i: int|
            0 <= i < self.requests@.len() ==> (#[trigger] self.requests@[i]).approvals.well_formed()
    }

    /// The settings of the approval scheme.
    pub closed spec fn config(&self) -> Configuration {
        self.config
    }

    /// The identifier that the next request will get.
    pub closed spec fn next_id(&self) -> u32 {
        self.next_request_id
    }

    /// The pending requests by identifier.
    pub closed spec fn requests(&self) -> Map<u32, RequestView> {
        keyed_map(request_ids(self.requests@), request_views(self.requests@))
    }

    /// Creates a store without requests, whose first request will get the
    /// identifier zero.
    pub fn new(config: Configuration) -> (r: Self)
        ensures
            r.config() == config,
            r.next_id() == 0,
            r.requests() == Map::<u32, RequestView>::empty(),
    {
        let r = MultisigRequestStore { config, next_request_id: 0, requests: Vec::new() };
        assert(r.requests() =~= Map::<u32, RequestView>::empty());
        r
    }

    fn holds_id(requests: &Vec<MultisigRequest>, request_id: u32) -> (r: bool)
        ensures
            r == request_ids(requests@).contains(request_id),
    {
        let mut i: usize = 0;
        while i < requests.len()
            invariant
                i <= requests@.len(),
                forall|j: int| 0 <= j < i ==> request_ids(requests@)[j] != request_id,
            decreases requests@.len() - i,
        {
            if requests[i].id == request_id {
                assert(request_ids(requests@)[i as int] == request_id);
                return true;
            }
            i += 1;
        }
        false
    }

    /// Creates the store that has the given settings and counter of
    /// identifiers and the pending requests that `records` stand for.
    /// Refused when two records have the same identifier or one has an
    /// identifier that the counter has not reached yet.
    pub fn from_parts(config: Configuration, next_request_id: u32, records: Vec<RequestRecord>)
        -> (r: Option<Self>)
        ensures
            match r {
                Some(store) => {
                    &&& records_valid(next_request_id, records@)
                    &&& store.config() == config
                    &&& store.next_id() == next_request_id
                    &&& store.requests() == requests_of(records@)
                },
                None => !records_valid(next_request_id, records@),
            },
    {
        let mut requests: Vec<MultisigRequest> = Vec::new();
        let ghost all = records@;
        for record in iter: records
            invariant
                iter.seq() == all,
                requests@.len() == iter.index(),
                request_ids(requests@) == record_ids(all.take(iter.index() as int)),
                request_views(requests@) == record_views(all.take(iter.index() as int)),
                records_valid(next_request_id, all.take(iter.index() as int)),
                forall|j: int|
                    0 <= j < requests@.len() ==> (#[trigger] requests@[j]).approvals.well_formed(),
                forall|j: int| 0 <= j < requests@.len() ==> (#[trigger] requests@[j]).id == all[j].id,
        {
            let ghost at = iter.index() as int;
            let ghost before = all.take(at);
            let ghost after = all.take(at + 1);
            let ghost built = requests@;
            proof {
                assert(after =~= before.push(record));
                assert(record_ids(after) =~= record_ids(before).push(record.id));
                assert(record_views(after) =~= record_views(before).push(record_view(record)));
            }
            if record.id >= next_request_id {
                assert(all[at] == record);
                return None;
            }
            if MultisigRequestStore::holds_id(&requests, record.id) {
                proof {
                    let j = record_ids(before).index_of(record.id);
                    assert(record_ids(all)[j] == all[j].id);
                    assert(record_ids(all)[at] == all[at].id);
                    assert(all[j].id == all[at].id);
                }
                return None;
            }
            let approvals = AccountSet::from_vec(record.approved_by);
            proof {
                use_type_invariant(&approvals);
                distinct_after_push(record_ids(before), record.id);
            }
            let request = MultisigRequest {
                id: record.id,
                action: record.action,
                approvals,
                created_at: record.created_at,
            };
            assert(request@ == record_view(record));
            requests.push(request);
            proof {
                assert(request_ids(requests@) =~= request_ids(built).push(request.id));
                assert(request_views(requests@) =~= request_views(built).push(request@));
                assert forall|i: int| 0 <= i < after.len() implies (#[trigger] after[i]).id
                    < next_request_id by {
                    if i < at {
                        assert(before[i] == after[i]);
                    }
                }
            }
        }
        assert(all.take(all.len() as int) =~= all);
        Some(MultisigRequestStore { config, next_request_id, requests })
    }

    /// Gives up the store for its settings, its counter of identifiers and
    /// one record for each pending request.
    pub fn into_parts(self) -> (r: (Configuration, u32, Vec<RequestRecord>))
        ensures
            r.0 == self.config(),
            r.1 == self.next_id(),
            records_valid(r.1, r.2@),
            requests_of(r.2@) == self.requests(),
    {
        proof {
            use_type_invariant(&self);
        }
        let config = self.config;
        let next_request_id = self.next_request_id;
        let requests = self.requests;
        let ghost all = requests@;
        let mut records: Vec<RequestRecord> = Vec::new();
        for request in iter: requests
            invariant
                iter.seq() == all,
                records@.len() == iter.index(),
                record_ids(records@) == request_ids(all.take(iter.index() as int)),
                record_views(records@) == request_views(all.take(iter.index() as int)),
        {
            let ghost at = iter.index() as int;
            let ghost built = records@;
            proof {
                assert(all.take(at + 1) =~= all.take(at).push(request));
                assert(request_ids(all.take(at + 1)) =~= request_ids(all.take(at)).push(
                    request.id,
                ));
                assert(request_views(all.take(at + 1)) =~= request_views(all.take(at)).push(
                    request@,
                ));
            }
            let record = RequestRecord {
                id: request.id,
                action: request.action,
                approved_by: request.approvals.into_vec(),
                created_at: request.created_at,
            };
            assert(record_view(record) == request@);
            records.push(record);
            proof {
                assert(record_ids(records@) =~= record_ids(built).push(record.id));
                assert(record_views(records@) =~= record_views(built).push(record_view(record)));
            }
        }
        proof {
            assert(all.take(all.len() as int) =~= all);
            assert forall|i: int| 0 <= i < records@.len() implies (#[trigger] records@[i]).id
                < next_request_id by {
                assert(record_ids(records@)[i] == request_ids(all)[i]);
                assert(all[i].id < next_request_id);
            }
        }
        (config, next_request_id, records)
    }

    /// Returns the settings of the approval scheme.
    pub fn configuration(&self) -> (r: Configuration)
        ensures
            r == self.config(),
    {
        self.config
    }

    /// Returns the identifier that the next request will get. Every pending
    /// request has a smaller one, and no approval set names an account twice.
    pub fn next_request_id(&self) -> (r: u32)
        ensures
            r == self.next_id(),
            forall|id: u32| #[trigger] self.requests().contains_key(id) ==> id < self.next_id(),
            forall|id: u32| #[trigger]
                self.requests().contains_key(id) ==> self.requests()[id].approvals.no_duplicates(),
    {
        proof {
            use_type_invariant(self);
            let ids = request_ids(self.requests@);
            let views = request_views(self.requests@);
            assert forall|id: u32| #[trigger] self.requests().contains_key(id) implies id
                < self.next_id() && self.requests()[id].approvals.no_duplicates() by {
                let i = ids.index_of(id);
                keyed_lookup(ids, views, i);
                assert(self.requests@[i].id == id);
                assert(self.requests@[i].approvals.well_formed());
            }
        }
        self.next_request_id
    }

    fn position(&self, request_id: u32) -> (r: Option<usize>)
        ensures
            request_ids(self.requests@).no_duplicates(),
            match r {
                Some(i) => i < self.requests@.len() && self.requests@[i as int].id == request_id
                    && self.requests().contains_key(request_id) && self.requests()[request_id]
                    == self.requests@[i as int]@,
                None => !self.requests().contains_key(request_id),
            },
    {
        proof {
            use_type_invariant(self);
        }
        let mut i: usize = 0;
        while i < self.requests.len()
            invariant
                i <= self.requests@.len(),
                request_ids(self.requests@).no_duplicates(),
                forall|j: int| 0 <= j < i ==> request_ids(self.requests@)[j] != request_id,
            decreases self.requests@.len() - i,
        {
            if self.requests[i].id == request_id {
                proof {
                    keyed_lookup(
                        request_ids(self.requests@),
                        request_views(self.requests@),
                        i as int,
                    );
                }
                return Some(i);
            }
            i += 1;
        }
        None
    }

    /// Returns the action of the pending request `request_id`, if there is
    /// such a request.
    pub fn action_of(&self, request_id: u32) -> (r: Option<&FiatTokenAction>)
        ensures
            match r {
                Some(action) => self.requests().contains_key(request_id) && *action
                    == self.requests()[request_id].action,
                None => !self.requests().contains_key(request_id),
            },
    {
        match self.position(request_id) {
            Some(i) => Some(&self.requests[i].action),
            None => None,
        }
    }

    /// Returns the accounts that have approved the pending request
    /// `request_id`, in the order of their approvals, if there is such a
    /// request.
    pub fn approvals_of(&self, request_id: u32) -> (r: Option<Vec<AccountId>>)
        ensures
            match r {
                Some(approvals) => self.requests().contains_key(request_id)
                    && names(approvals@) == self.requests()[request_id].approvals,
                None => !self.requests().contains_key(request_id),
            },
    {
        match self.position(request_id) {
            Some(i) => Some(self.requests[i].approvals.to_vec()),
            None => None,
        }
    }

    /// Returns the time at which the pending request `request_id` was
    /// created, if there is such a request.
    pub fn created_at_of(&self, request_id: u32) -> (r: Option<u64>)
        ensures
            match r {
                Some(created_at) => self.requests().contains_key(request_id) && created_at
                    == self.requests()[request_id].created_at,
                None => !self.requests().contains_key(request_id),
            },
    {
        match self.position(request_id) {
            Some(i) => Some(self.requests[i].created_at),
            None => None,
        }
    }

    /// Stores a new request for `action`, created at `now` and approved by
    /// nobody yet, and returns its identifier. Refused only when the counter
    /// of identifiers is exhausted.
    pub fn create_request(&mut self, action: FiatTokenAction, now: u64) -> (r: Result<
        u32,
        FiatTokenError,
    >)
        ensures
            final(self).config() == old(self).config(),
            old(self).next_id() < u32::MAX ==> {
                &&& r == Ok::<u32, FiatTokenError>(old(self).next_id())
                &&& final(self).next_id() == old(self).next_id() + 1
                &&& !old(self).requests().contains_key(old(self).next_id())
                &&& final(self).requests() == old(self).requests().insert(
                    old(self).next_id(),
                    RequestView { action, approvals: Seq::empty(), created_at: now },
                )
            },
            old(self).next_id() == u32::MAX ==> {
                &&& r == Err::<u32, FiatTokenError>(
                    FiatTokenError::Overflow { counter: Counter::RequestId },
                )
                &&& final(self).next_id() == old(self).next_id()
                &&& final(self).requests() == old(self).requests()
            },
    {
        let request_id = self.next_request_id();
        if request_id == u32::MAX {
            return Err(FiatTokenError::Overflow { counter: Counter::RequestId });
        }
        let request = MultisigRequest {
            id: request_id,
            action,
            approvals: AccountSet::new(),
            created_at: now,
        };
        proof {
            use_type_invariant(&*self);
            let ids = request_ids(self.requests@);
            let views = request_views(self.requests@);
            assert(!ids.contains(request_id)) by {
                if ids.contains(request_id) {
                    let i = ids.index_of(request_id);
                    assert(self.requests@[i].id == request_id);
                }
            }
            keyed_push(ids, views, request_id, request@);
            assert(request_ids(self.requests@.push(request)) =~= ids.push(request_id));
            assert(request_views(self.requests@.push(request)) =~= views.push(request@));
        }
        let mut requests: Vec<MultisigRequest> = Vec::new();
        core::mem::swap(&mut self.requests, &mut requests);
        self.next_request_id = request_id + 1;
        requests.push(request);
        core::mem::swap(&mut self.requests, &mut requests);
        Ok(request_id)
    }

    /// Adds the approval of `approver` to the pending request `request_id`.
    /// Refused, with nothing changed, when there is no such request, when the
    /// request has expired, or when `approver` has approved it before.
    pub fn approve_request(&mut self, request_id: u32, approver: AccountId, now: u64) -> (r: Result<
        (),
        FiatTokenError,
    >)
        ensures
            final(self).config() == old(self).config(),
            final(self).next_id() == old(self).next_id(),
            r == if old(self).requests().contains_key(request_id) {
                approval_outcome(
                    old(self).config(),
                    old(self).requests()[request_id],
                    approver@,
                    now,
                )
            } else {
                Err(FiatTokenError::NotFound { missing: Missing::Request })
            },
            final(self).requests() == if r is Ok {
                old(self).requests().insert(
                    request_id,
                    approved_by(old(self).requests()[request_id], approver@),
                )
            } else {
                old(self).requests()
            },
    {
        let at = match self.position(request_id) {
            Some(i) => i,
            None => {
                return Err(FiatTokenError::NotFound { missing: Missing::Request });
            },
        };
        if self.config.is_expired(self.requests[at].created_at, now) {
            return Err(FiatTokenError::RequestExpired);
        }
        if self.requests[at].approvals.contains(&approver) {
            return Err(FiatTokenError::AlreadyApproved);
        }
        proof {
            use_type_invariant(&*self);
        }
        let ghost before = self.requests@;
        let mut requests: Vec<MultisigRequest> = Vec::new();
        core::mem::swap(&mut self.requests, &mut requests);
        let mut request = requests.remove(at);
        let _ = request.approvals.insert(approver);
        proof {
            assert(request@ == approved_by(before[at as int]@, approver@));
            let after = before.remove(at as int).insert(at as int, request);
            assert(after =~= before.update(at as int, request));
            keyed_update(request_ids(before), request_views(before), at as int, request@);
            assert(request_ids(after) =~= request_ids(before));
            assert(request_views(after) =~= request_views(before).update(at as int, request@));
        }
        requests.insert(at, request);
        core::mem::swap(&mut self.requests, &mut requests);
        Ok(())
    }

    /// Tells whether the pending request `request_id` can be executed at
    /// `now`. It cannot when there is no such request, when the request has
    /// expired, or while it has fewer approvals than the threshold.
    pub fn is_approved_for_execution(&self, request_id: u32, now: u64) -> (r: Result<
        (),
        FiatTokenError,
    >)
        ensures
            r == if self.requests().contains_key(request_id) {
                execution_eligibility(self.config(), self.requests()[request_id], now)
            } else {
                Err(FiatTokenError::NotFound { missing: Missing::Request })
            },
    {
        let at = match self.position(request_id) {
            Some(i) => i,
            None => {
                return Err(FiatTokenError::NotFound { missing: Missing::Request });
            },
        };
        if self.config.is_expired(self.requests[at].created_at, now) {
            return Err(FiatTokenError::RequestExpired);
        }
        let current = self.requests[at].approvals.len();
        let required = self.config.approval_threshold as usize;
        if current < required {
            return Err(FiatTokenError::InsufficientApprovals { current, required });
        }
        Ok(())
    }

    /// Tells whether the pending request `request_id` can be removed
    /// unexecuted at `now`. It cannot when there is no such request, or while
    /// the request is still valid.
    pub fn is_removable(&self, request_id: u32, now: u64) -> (r: Result<(), FiatTokenError>)
        ensures
            r == if self.requests().contains_key(request_id) {
                removal_eligibility(self.config(), self.requests()[request_id], now)
            } else {
                Err(FiatTokenError::NotFound { missing: Missing::Request })
            },
    {
        let at = match self.position(request_id) {
            Some(i) => i,
            None => {
                return Err(FiatTokenError::NotFound { missing: Missing::Request });
            },
        };
        if self.config.is_expired(self.requests[at].created_at, now) {
            Ok(())
        } else {
            Err(FiatTokenError::RemovalNotAllowed(RemovalError::RequestStillValid))
        }
    }

    /// Deletes the pending request `request_id`, whatever its state. Returns
    /// `false`, and changes nothing, when there is no such request. The
    /// counter of identifiers is not touched.
    pub fn remove(&mut self, request_id: u32) -> (r: bool)
        ensures
            final(self).config() == old(self).config(),
            final(self).next_id() == old(self).next_id(),
            r == old(self).requests().contains_key(request_id),
            final(self).requests() == old(self).requests().remove(request_id),
    {
        match self.position(request_id) {
            Some(at) => {
                proof {
                    use_type_invariant(&*self);
                    let before = self.requests@;
                    let after = before.remove(at as int);
                    before.remove_ensures(at as int);
                    keyed_remove(request_ids(before), request_views(before), at as int);
                    assert(request_ids(after) =~= request_ids(before).remove(at as int));
                    assert(request_views(after) =~= request_views(before).remove(at as int));
                }
                let mut requests: Vec<MultisigRequest> = Vec::new();
                core::mem::swap(&mut self.requests, &mut requests);
                let _ = requests.remove(at);
                core::mem::swap(&mut self.requests, &mut requests);
                true
            },
            None => {
                assert(self.requests().remove(request_id) =~= self.requests());
                false
            },
        }
    }
}

} // verus!
