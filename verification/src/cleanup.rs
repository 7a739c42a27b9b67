//! The expiry sweep: tokens older than the configured age are purged, and
//! the sessions that were opened under them are told so.

use vstd::prelude::*;

use crate::auth::ConfigurationAuth;
use crate::channel::{addressed, all_carry, sessions_of, Attempt, Subscriber};
use crate::message::{MessageView, WsMessage};
use crate::registry::{attempt_all, listed, Registry};
use crate::status::Status;
use crate::token_store::{expired, records_view, retained, AuthRecord, RecordView, TokenStore};

verus! {

/// The ids of a list of records, in the list's order.
pub open spec fn ids_of(records: Seq<RecordView>) -> Seq<Seq<char>> {
    records.map_values(|r: RecordView| r.id)
}

/// The registry without the entries of `ids`.
pub open spec fn without(registry: Map<Seq<char>, Seq<u64>>, ids: Seq<Seq<char>>) -> Map<
    Seq<char>,
    Seq<u64>,
> {
    registry.remove_keys(ids.to_set())
}

/// Whether `notices` holds, for each of `ids` in order, one attempt for each
/// session that was still subscribed to it when its turn came, in
/// subscription order, each made with the message that the token has
/// expired: an id that stands in `ids` a second time has no subscribers left
/// by then.
pub open spec fn notices_match(
    notices: Seq<Vec<Attempt>>,
    registry: Map<Seq<char>, Seq<u64>>,
    ids: Seq<Seq<char>>,
) -> bool {
    &&& notices.len() == ids.len()
    &&& forall|k: int|
        0 <= k < ids.len() ==> addressed((#[trigger] notices[k])@) == listed(
            without(registry, ids.take(k)),
            ids[k],
        ) && all_carry(notices[k]@, MessageView::TokenExpired)
}

/// The result of one sweep.
pub struct Sweep {
    /// `Accepted` where the sweep ran, `InternalServerError` where the query
    /// for expired records had failed and nothing was done.
    pub status: Status,
    /// For each expired record in order, what became of the notice to each
    /// session subscribed to its id.
    pub notices: Vec<Vec<Attempt>>,
}

/// Removing the entries of a list of ids one more id at a time.
proof fn lemma_without_step(registry: Map<Seq<char>, Seq<u64>>, ids: Seq<Seq<char>>, k: int)
    requires
        0 <= k < ids.len(),
    ensures
        without(registry, ids.take(k)).remove(ids[k]) == without(registry, ids.take(k + 1)),
{
    let shorter = ids.take(k);
    let longer = ids.take(k + 1);
    assert(longer =~= shorter.push(ids[k]));
    assert forall|id: Seq<char>| longer.to_set().contains(id) <==> (shorter.to_set().contains(id)
        || id == ids[k]) by {
        if shorter.contains(id) {
            let m = choose|m: int| 0 <= m < shorter.len() && shorter[m] == id;
            assert(longer[m] == id);
        }
        if id == ids[k] {
            assert(longer[k] == id);
        }
    }
    assert(without(registry, shorter).remove(ids[k]) =~= without(registry, longer));
}

/// After a sweep no swept id has an entry, and every other id has the list
/// that it had before.
pub proof fn lemma_without(registry: Map<Seq<char>, Seq<u64>>, ids: Seq<Seq<char>>, id: Seq<char>)
    ensures
        ids.contains(id) ==> listed(without(registry, ids), id) == Seq::<u64>::empty(),
        !ids.contains(id) ==> listed(without(registry, ids), id) == listed(registry, id),
{
}

/// Where no two records have the same id, each swept id still has all its
/// subscribers when its turn comes: the notices of a sweep address, for each
/// expired record, every session that was subscribed to its id before the
/// sweep.
pub proof fn lemma_notices_reach_all(
    notices: Seq<Vec<Attempt>>,
    registry: Map<Seq<char>, Seq<u64>>,
    ids: Seq<Seq<char>>,
    k: int,
)
    requires
        notices_match(notices, registry, ids),
        ids.no_duplicates(),
        0 <= k < ids.len(),
    ensures
        addressed(notices[k]@) == listed(registry, ids[k]),
{
    let earlier = ids.take(k);
    if earlier.contains(ids[k]) {
        let m = choose|m: int| 0 <= m < earlier.len() && earlier[m] == ids[k];
        assert(ids[m] == ids[k]);
    }
    lemma_without(registry, earlier, ids[k]);
}

/// The ids of records with unique ids hold no id twice.
pub proof fn lemma_unique_ids_no_duplicates(records: Seq<RecordView>)
    requires
        crate::token_store::unique_ids(records),
    ensures
        ids_of(records).no_duplicates(),
{
    assert forall|i: int, j: int|
        0 <= i < ids_of(records).len() && 0 <= j < ids_of(records).len() && i != j implies ids_of(
        records,
    )[i] != ids_of(records)[j] by {
        if i < j {
            assert(records[i].id != records[j].id);
        } else {
            assert(records[j].id != records[i].id);
        }
    }
}

/// Tells each of `subscribers` whose channel is open that its token has
/// expired, in the list's order, and closes a channel that was open and did
/// not take the message. A closed channel is passed over.
pub fn notify_expired(subscribers: &Vec<Subscriber>) -> (attempts: Vec<Attempt>)
    ensures
        addressed(attempts@) == sessions_of(subscribers@),
        all_carry(attempts@, MessageView::TokenExpired),
{
    attempt_all(subscribers, &WsMessage::TokenExpired, true)
}

/// Evicts the sessions of every record of `records`: for each record in
/// order, the whole entry of its id leaves the registry and each of its
/// subscribers is told that its token has expired.
pub fn evict_expired(records: &Vec<AuthRecord>, registry: &mut Registry) -> (notices: Vec<
    Vec<Attempt>,
>)
    ensures
        final(registry)@ == without(old(registry)@, ids_of(records_view(records@))),
        notices_match(notices@, old(registry)@, ids_of(records_view(records@))),
        old(registry).wf() ==> final(registry).wf(),
{
    let ghost before = registry@;
    let ghost ids = ids_of(records_view(records@));
    let mut notices: Vec<Vec<Attempt>> = Vec::new();
    let mut i: usize = 0;
    assert(without(before, ids.take(0)) =~= before);
    while i < records.len()
        invariant
            i <= records.len(),
            ids == ids_of(records_view(records@)),
            registry@ == without(before, ids.take(i as int)),
            before == old(registry)@,
            old(registry).wf() ==> registry.wf(),
            notices.len() == i,
            forall|k: int|
                0 <= k < i ==> addressed((#[trigger] notices[k])@) == listed(
                    without(before, ids.take(k)),
                    ids[k],
                ) && all_carry(notices[k]@, MessageView::TokenExpired),
        decreases records.len() - i,
    {
        assert(ids[i as int] == records[i as int].id@);
        let gone = registry.evict(records[i].id.as_str());
        let attempts = notify_expired(&gone);
        proof {
            lemma_without_step(before, ids, i as int);
        }
        notices.push(attempts);
        i += 1;
    }
    assert(ids.take(i as int) =~= ids);
    notices
}

/// Runs the part of a sweep that follows the query for expired records.
/// Where the query failed (`None`), nothing is touched and the status is
/// `InternalServerError`. Where it answered, the sessions of every record are
/// evicted and told, and the status is `Accepted`.
pub fn sweep(query: Option<Vec<AuthRecord>>, registry: &mut Registry) -> (done: Sweep)
    ensures
        match query {
            None => {
                &&& done.status == Status::InternalServerError
                &&& done.notices@.len() == 0
                &&& final(registry)@ == old(registry)@
            },
            Some(records) => {
                &&& done.status == Status::Accepted
                &&& final(registry)@ == without(old(registry)@, ids_of(records_view(records@)))
                &&& notices_match(done.notices@, old(registry)@, ids_of(records_view(records@)))
            },
        },
        old(registry).wf() ==> final(registry).wf(),
{
    match query {
        None => Sweep { status: Status::InternalServerError, notices: Vec::new() },
        Some(records) => {
            let notices = evict_expired(&records, registry);
            Sweep { status: Status::Accepted, notices }
        },
    }
}

/// The moment before which a token has expired at `now`, where tokens live
/// for `max_age` seconds.
pub fn cutoff(now: i64, max_age: i64) -> (moment: i128)
    ensures
        moment == now - max_age,
{
    now as i128 - max_age as i128
}

/// Runs one sweep at `now`, with tokens living for `max_age` seconds: every
/// record issued before `now - max_age` is purged from the store, the whole
/// registry entry of its id is evicted, and each subscriber of that entry is
/// told that its token has expired. Younger records and their sessions are
/// not touched.
pub fn cleanup_tokens(
    _ca: ConfigurationAuth,
    now: i64,
    max_age: i64,
    store: &mut TokenStore,
    registry: &mut Registry,
) -> (done: Sweep)
    ensures
        done.status == Status::Accepted,
        final(store)@ == retained(old(store)@, now - max_age),
        final(registry)@ == without(old(registry)@, ids_of(expired(old(store)@, now - max_age))),
        notices_match(done.notices@, old(registry)@, ids_of(expired(old(store)@, now - max_age))),
        old(store).wf() ==> final(store).wf(),
        old(registry).wf() ==> final(registry).wf(),
{
    let moment = cutoff(now, max_age);
    let records = store.expired_before_moment(moment);
    let done = sweep(Some(records), registry);
    let _ = store.delete_before_moment(moment);
    done
}

} // verus!
