//! The registry of live subscribers: for each endpoint id, the sessions that
//! are subscribed to it, in the order in which they subscribed.
//!
//! The entries live in a sharded concurrent map. Every change goes through an
//! exclusive borrow of the registry, so that no other task changes the map
//! between two steps of one operation; that is what lets a contract say what
//! the registry holds afterwards.

use dashmap::DashMap;
use vstd::prelude::*;

use crate::channel::{
    addressed, all_carry, approach_for, conclusion_for, sessions_of, Attempt, Delivery, Subscriber,
};
use crate::message::WsMessage;

verus! {

/// `dashmap::DashMap`, a sharded concurrent hash map. Nothing of its state is
/// visible to the verifier but through [`entries`].
#[verifier::external_type_specification]
#[verifier::external_body]
#[verifier::reject_recursive_types(K)]
#[verifier::reject_recursive_types(V)]
#[verifier::reject_recursive_types(S)]
pub struct ExDashMap<K, V, S>(DashMap<K, V, S>);

/// What the map holds: for each key, the session numbers of the subscribers
/// listed under it, in the list's order.
pub uninterp spec fn entries(map: DashMap<String, Vec<Subscriber>>) -> Map<Seq<char>, Seq<u64>>;

/// The registry that lists nothing.
pub open spec fn empty_registry() -> Map<Seq<char>, Seq<u64>> {
    Map::empty()
}

/// The sessions subscribed to `id`, in subscription order; none where the
/// registry has no entry for `id`.
pub open spec fn listed(registry: Map<Seq<char>, Seq<u64>>, id: Seq<char>) -> Seq<u64> {
    if registry.dom().contains(id) {
        registry[id]
    } else {
        Seq::empty()
    }
}

/// Whether no entry of the registry has an empty list.
pub open spec fn populated(registry: Map<Seq<char>, Seq<u64>>) -> bool {
    forall|id: Seq<char>| #[trigger] registry.dom().contains(id) ==> registry[id].len() > 0
}

/// The registry after `session` has subscribed to `id`: it stands at the end
/// of the list of `id`, and the entry exists from then on.
pub open spec fn subscribed(registry: Map<Seq<char>, Seq<u64>>, id: Seq<char>, session: u64) -> Map<
    Seq<char>,
    Seq<u64>,
> {
    registry.insert(id, listed(registry, id).push(session))
}

/// Whether at least one of the attempts is a delivery.
pub open spec fn any_delivered(attempts: Seq<Attempt>) -> bool {
    exists|i: int| 0 <= i < attempts.len() && (#[trigger] attempts[i]).outcome == Delivery::Delivered
}

/// The sessions that took the message: those to which an attempt is a
/// delivery, in the order of the attempts.
pub open spec fn survivors(attempts: Seq<Attempt>) -> Seq<u64> {
    addressed(attempts.filter(|a: Attempt| a.outcome == Delivery::Delivered))
}

/// The registry after a dispatch to `id` that went as `attempts` say: the list
/// of `id` keeps the sessions that took the message, the entry goes once none
/// is left, and no other entry changes.
pub open spec fn settled(registry: Map<Seq<char>, Seq<u64>>, id: Seq<char>, attempts: Seq<Attempt>)
    -> Map<Seq<char>, Seq<u64>> {
    let kept = survivors(attempts);
    if kept.len() == 0 {
        registry.remove(id)
    } else {
        registry.insert(id, kept)
    }
}

/// Whether `all` lists every entry of `registry` exactly once, each with its
/// sessions in subscription order. The order of the entries is left open.
pub open spec fn is_snapshot_of(all: Seq<(Seq<char>, Seq<u64>)>, registry: Map<Seq<char>, Seq<u64>>)
    -> bool {
    &&& forall|i: int|
        0 <= i < all.len() ==> registry.dom().contains(#[trigger] all[i].0) && registry[all[i].0]
            == all[i].1
    &&& forall|i: int, j: int|
        0 <= i < j < all.len() ==> #[trigger] all[i].0 != #[trigger] all[j].0
    &&& forall|id: Seq<char>| #[trigger]
        registry.dom().contains(id) ==> exists|i: int| 0 <= i < all.len() && #[trigger] all[i].0 == id
}

/// What a list of entries says: each id with the session numbers of its
/// subscribers.
pub open spec fn snapshot_view(all: Seq<(String, Vec<Subscriber>)>) -> Seq<(Seq<char>, Seq<u64>)> {
    all.map_values(|entry: (String, Vec<Subscriber>)| (entry.0@, sessions_of(entry.1@)))
}

/// `DashMap::new` makes a map that holds nothing.
#[verifier::external_body]
fn map_new() -> (fresh: DashMap<String, Vec<Subscriber>>)
    ensures
        entries(fresh) == empty_registry(),
{
    DashMap::new()
}

/// `DashMap::insert` puts `list` under `id` in place of what was there before,
/// which is dropped here; every other key keeps its list. The map is borrowed
/// exclusively, so nothing else changes it meanwhile.
#[verifier::external_body]
fn map_insert(map: &mut DashMap<String, Vec<Subscriber>>, id: String, list: Vec<Subscriber>)
    ensures
        entries(*final(map)) == entries(*old(map)).insert(id@, sessions_of(list@)),
{
    map.insert(id, list);
}

/// `DashMap::remove` takes the entry under `id` out of the map and returns it,
/// of which the list is handed on here, or returns `None` where the map has no
/// such key; every other key keeps its list. The map is borrowed exclusively,
/// so nothing else changes it meanwhile.
#[verifier::external_body]
fn map_remove(map: &mut DashMap<String, Vec<Subscriber>>, id: &str) -> (list: Option<
    Vec<Subscriber>,
>)
    ensures
        entries(*final(map)) == entries(*old(map)).remove(id@),
        match list {
            Some(list) => entries(*old(map)).dom().contains(id@) && sessions_of(list@) == entries(
                *old(map),
            )[id@],
            None => !entries(*old(map)).dom().contains(id@),
        },
{
    map.remove(id).map(|entry| entry.1)
}

/// `DashMap::get` looks `id` up and lends its entry, of which a second record
/// of each subscriber is handed out here, or returns `None` where the map has
/// no such key. The map is not changed.
#[verifier::external_body]
fn map_get(map: &DashMap<String, Vec<Subscriber>>, id: &str) -> (list: Option<Vec<Subscriber>>)
    ensures
        match list {
            Some(list) => entries(*map).dom().contains(id@) && sessions_of(list@) == entries(
                *map,
            )[id@],
            None => !entries(*map).dom().contains(id@),
        },
{
    map.get(id).map(|entry| entry.value().iter().map(|s| s.duplicate()).collect())
}

/// `DashMap::iter` walks the map and lends each entry once, of which the key
/// and a second record of each subscriber are handed out here. In which order
/// the entries come is left open. The map is not changed.
#[verifier::external_body]
fn map_snapshot(map: &DashMap<String, Vec<Subscriber>>) -> (all: Vec<(String, Vec<Subscriber>)>)
    ensures
        is_snapshot_of(snapshot_view(all@), entries(*map)),
{
    map.iter().map(
        |entry| (entry.key().clone(), entry.value().iter().map(|s| s.duplicate()).collect()),
    ).collect()
}

/// Tries to hand a copy of `message` to each of `subscribers`, in the list's
/// order, and returns what became of each attempt. A closed channel is passed
/// over. A channel that was open and did not take the message is closed where
/// `close_failed` asks for that.
pub fn attempt_all(subscribers: &Vec<Subscriber>, message: &WsMessage, close_failed: bool) -> (attempts:
    Vec<Attempt>)
    ensures
        addressed(attempts@) == sessions_of(subscribers@),
        all_carry(attempts@, message@),
{
    let mut attempts: Vec<Attempt> = Vec::new();
    let mut i: usize = 0;
    while i < subscribers.len()
        invariant
            i <= subscribers.len(),
            attempts.len() == i,
            forall|k: int| 0 <= k < i ==> (#[trigger] attempts[k]).session == subscribers[k].spec_session(),
            all_carry(attempts@, message@),
        decreases subscribers.len() - i,
    {
        attempts.push(subscribers[i].attempt(message.duplicate(), close_failed));
        i += 1;
    }
    assert(addressed(attempts@) =~= sessions_of(subscribers@));
    attempts
}

/// Whether at least one of `attempts` is a delivery.
pub fn delivered(attempts: &Vec<Attempt>) -> (any: bool)
    ensures
        any == any_delivered(attempts@),
{
    let mut i: usize = 0;
    while i < attempts.len()
        invariant
            i <= attempts.len(),
            forall|k: int| 0 <= k < i ==> (#[trigger] attempts[k]).outcome != Delivery::Delivered,
        decreases attempts.len() - i,
    {
        if attempts[i].outcome == Delivery::Delivered {
            return true;
        }
        i += 1;
    }
    false
}

/// The survivors of a longer list of attempts are those of the list without
/// its last attempt, and the session of that attempt after them if it is a
/// delivery.
pub proof fn lemma_survivors_push(attempts: Seq<Attempt>, last: Attempt)
    ensures
        survivors(attempts.push(last)) == if last.outcome == Delivery::Delivered {
            survivors(attempts).push(last.session)
        } else {
            survivors(attempts)
        },
{
    let took = |a: Attempt| a.outcome == Delivery::Delivered;
    attempts.lemma_filter_push(last, took);
    if last.outcome == Delivery::Delivered {
        assert(addressed(attempts.filter(took).push(last)) =~= addressed(attempts.filter(took)).push(
            last.session,
        ));
    }
}

/// The survivors of two passes, one after the other, are those of the first
/// followed by those of the second.
pub proof fn lemma_survivors_concat(first: Seq<Attempt>, second: Seq<Attempt>)
    ensures
        survivors(first + second) == survivors(first) + survivors(second),
{
    let took = |a: Attempt| a.outcome == Delivery::Delivered;
    Seq::filter_distributes_over_add(first, second, took);
    assert(addressed(first.filter(took) + second.filter(took)) =~= addressed(first.filter(took))
        + addressed(second.filter(took)));
}

/// A session survives a pass exactly where the pass has a delivery addressed
/// to it; so a pass has survivors exactly where it has a delivery.
pub proof fn lemma_survivors_are_the_delivered(attempts: Seq<Attempt>, session: u64)
    ensures
        survivors(attempts).contains(session) <==> exists|i: int|
            0 <= i < attempts.len() && (#[trigger] attempts[i]).outcome == Delivery::Delivered
                && attempts[i].session == session,
        survivors(attempts).len() > 0 <==> any_delivered(attempts),
{
    let took = |a: Attempt| a.outcome == Delivery::Delivered;
    let taken = attempts.filter(took);
    if survivors(attempts).contains(session) {
        let k = choose|k: int| 0 <= k < survivors(attempts).len() && survivors(attempts)[k] == session;
        attempts.lemma_filter_pred(took, k);
        attempts.lemma_filter_contains_rev(took, taken[k]);
        let i = choose|i: int| 0 <= i < attempts.len() && attempts[i] == taken[k];
        assert(attempts[i].outcome == Delivery::Delivered && attempts[i].session == session);
    }
    if exists|i: int|
        0 <= i < attempts.len() && (#[trigger] attempts[i]).outcome == Delivery::Delivered
            && attempts[i].session == session {
        let i = choose|i: int|
            0 <= i < attempts.len() && (#[trigger] attempts[i]).outcome == Delivery::Delivered
                && attempts[i].session == session;
        attempts.lemma_filter_contains(took, i);
        let k = choose|k: int| 0 <= k < taken.len() && taken[k] == attempts[i];
        assert(survivors(attempts)[k] == session);
    }
    if survivors(attempts).len() > 0 {
        attempts.lemma_filter_pred(took, 0);
        attempts.lemma_filter_contains_rev(took, taken[0]);
        let i = choose|i: int| 0 <= i < attempts.len() && attempts[i] == taken[0];
        assert(attempts[i].outcome == Delivery::Delivered);
    }
    if any_delivered(attempts) {
        let i = choose|i: int|
            0 <= i < attempts.len() && (#[trigger] attempts[i]).outcome == Delivery::Delivered;
        attempts.lemma_filter_contains(took, i);
    }
}

/// Where every attempt of a pass is a delivery, every addressed session
/// survives, in the same order.
pub proof fn lemma_all_delivered_all_survive(attempts: Seq<Attempt>)
    requires
        forall|i: int| 0 <= i < attempts.len() ==> (#[trigger] attempts[i]).outcome == Delivery::Delivered,
    ensures
        survivors(attempts) == addressed(attempts),
    decreases attempts.len(),
{
    if attempts.len() == 0 {
        assert(survivors(attempts) =~= addressed(attempts)) by {
            reveal(Seq::filter);
        }
    } else {
        let front = attempts.drop_last();
        lemma_all_delivered_all_survive(front);
        lemma_survivors_push(front, attempts.last());
        assert(front.push(attempts.last()) =~= attempts);
        assert(addressed(front).push(attempts.last().session) =~= addressed(attempts));
    }
}

/// A subscriber whose attempt is no delivery leaves the list, and the others
/// fare as they would have without it.
pub proof fn lemma_undelivered_leaves(before: Seq<Attempt>, lost: Attempt, after: Seq<Attempt>)
    requires
        lost.outcome != Delivery::Delivered,
    ensures
        survivors(before.push(lost) + after) == survivors(before) + survivors(after),
{
    lemma_survivors_concat(before.push(lost), after);
    lemma_survivors_push(before, lost);
}

/// Of two subscribers of an id, the first with a channel that says it is
/// closed and the second with an open one that takes the message, a dispatch
/// passes over the first and leaves exactly the second in the list of the
/// id.
pub proof fn lemma_closed_subscriber_is_dropped(
    registry: Map<Seq<char>, Seq<u64>>,
    id: Seq<char>,
    first: Attempt,
    second: Attempt,
    taken: bool,
    close_failed: bool,
)
    requires
        first.outcome == conclusion_for(approach_for(true), taken, close_failed).outcome,
        second.outcome == conclusion_for(approach_for(false), true, close_failed).outcome,
    ensures
        approach_for(true) == crate::channel::Approach::PassOver,
        first.outcome == Delivery::Closed,
        second.outcome == Delivery::Delivered,
        listed(settled(registry, id, seq![first, second]), id) == seq![second.session],
{
    let none = Seq::<Attempt>::empty();
    assert(survivors(none) =~= Seq::<u64>::empty()) by {
        reveal(Seq::filter);
    }
    lemma_survivors_push(none, first);
    lemma_survivors_push(none.push(first), second);
    assert(none.push(first).push(second) =~= seq![first, second]);
    assert(survivors(seq![first, second]) =~= seq![second.session]);
}

/// Two sessions that subscribe to an id stand at the end of its list in the
/// order in which they subscribed. A dispatch to that id addresses exactly the
/// list of that id, and neither subscribing nor dispatching touches the list
/// of any other id.
pub proof fn lemma_dispatch_follows_subscription(
    registry: Map<Seq<char>, Seq<u64>>,
    id: Seq<char>,
    first: u64,
    second: u64,
    attempts: Seq<Attempt>,
    other: Seq<char>,
)
    requires
        addressed(attempts) == listed(subscribed(subscribed(registry, id, first), id, second), id),
    ensures
        addressed(attempts) == listed(registry, id).push(first).push(second),
        other != id ==> listed(subscribed(subscribed(registry, id, first), id, second), other)
            == listed(registry, other),
        other != id ==> listed(
            settled(subscribed(subscribed(registry, id, first), id, second), id, attempts),
            other,
        ) == listed(registry, other),
        listed(settled(subscribed(subscribed(registry, id, first), id, second), id, attempts), id)
            == survivors(attempts),
{
}

/// Dispatching keeps a registry free of empty lists, and so does subscribing.
pub proof fn lemma_registry_stays_populated(
    registry: Map<Seq<char>, Seq<u64>>,
    id: Seq<char>,
    session: u64,
    attempts: Seq<Attempt>,
)
    requires
        populated(registry),
    ensures
        populated(subscribed(registry, id, session)),
        populated(settled(registry, id, attempts)),
        populated(registry.remove(id)),
{
}

/// Compacts a list of subscribers after a pass over it in which attempt `i`
/// was addressed to subscriber `i`: keeps the subscribers that took the
/// message, in the same order, and drops the others. A subscriber without an
/// attempt is dropped.
pub fn settle(subscribers: Vec<Subscriber>, attempts: &Vec<Attempt>) -> (kept: Vec<Subscriber>)
    ensures
        addressed(attempts@) == sessions_of(subscribers@) ==> sessions_of(kept@) == survivors(
            attempts@,
        ),
        kept.len() <= subscribers.len(),
{
    let ghost all = sessions_of(subscribers@);
    let ghost aligned = addressed(attempts@) == all;
    let count = subscribers.len();
    let mut kept: Vec<Subscriber> = Vec::new();
    let mut i: usize = 0;
    assert(survivors(attempts@.take(0)) =~= Seq::<u64>::empty()) by {
        reveal(Seq::filter);
    }
    for subscriber in walk: subscribers
        invariant
            i == walk.index(),
            walk.seq().len() == all.len() == count,
            sessions_of(walk.seq()) == all,
            aligned == (addressed(attempts@) == all),
            aligned ==> sessions_of(kept@) == survivors(attempts@.take(i as int)),
            kept.len() <= i,
    {
        proof {
            if aligned {
                assert(attempts@.len() == all.len());
                lemma_survivors_push(attempts@.take(i as int), attempts@[i as int]);
                assert(attempts@.take(i as int).push(attempts@[i as int]) =~= attempts@.take(i + 1));
                assert(attempts@[i as int].session == addressed(attempts@)[i as int]);
                assert(subscriber.spec_session() == all[i as int]);
            }
        }
        if i < attempts.len() && attempts[i].outcome == Delivery::Delivered {
            let ghost so_far = sessions_of(kept@);
            kept.push(subscriber);
            assert(sessions_of(kept@) =~= so_far.push(subscriber.spec_session()));
        }
        i += 1;
    }
    proof {
        if aligned {
            assert(attempts@.take(i as int) =~= attempts@);
        }
    }
    kept
}

/// The subscribers of every endpoint id.
pub struct Registry {
    map: DashMap<String, Vec<Subscriber>>,
}

impl Registry {
    /// For each endpoint id with subscribers, their session numbers in the
    /// order in which they subscribed.
    pub closed spec fn view(&self) -> Map<Seq<char>, Seq<u64>> {
        entries(self.map)
    }

    /// Whether no entry has an empty list. A new registry is well formed,
    /// and every operation keeps it so.
    pub open spec fn wf(&self) -> bool {
        populated(self@)
    }

    /// A registry without subscribers.
    pub fn new() -> (registry: Registry)
        ensures
            registry@ == empty_registry(),
            registry.wf(),
    {
        Registry { map: map_new() }
    }

    /// Appends `subscriber` to the list of `id`, and makes the entry where
    /// there was none.
    pub fn subscribe(&mut self, id: &str, subscriber: Subscriber)
        ensures
            final(self)@ == subscribed(old(self)@, id@, subscriber.spec_session()),
            old(self).wf() ==> final(self).wf(),
    {
        let ghost before = self@;
        let mut list = match map_remove(&mut self.map, id) {
            Some(list) => list,
            None => Vec::new(),
        };
        assert(sessions_of(list@) == listed(before, id@));
        let ghost session = subscriber.spec_session();
        list.push(subscriber);
        assert(sessions_of(list@) == listed(before, id@).push(session));
        map_insert(&mut self.map, id.to_owned(), list);
        assert(self@ == subscribed(before, id@, session));
    }

    /// Takes the whole entry of `id` out of the registry and returns its
    /// subscribers, in subscription order; none where there was no entry.
    pub fn evict(&mut self, id: &str) -> (gone: Vec<Subscriber>)
        ensures
            final(self)@ == old(self)@.remove(id@),
            sessions_of(gone@) == listed(old(self)@, id@),
            old(self).wf() ==> final(self).wf(),
    {
        match map_remove(&mut self.map, id) {
            Some(list) => list,
            None => {
                let list: Vec<Subscriber> = Vec::new();
                assert(sessions_of(list@) == Seq::<u64>::empty());
                list
            },
        }
    }

    /// Tries to hand a copy of `message` to each subscriber of `id`, in
    /// subscription order, and returns what became of each attempt. A closed
    /// channel is passed over, and one that was open and did not take the
    /// message is closed. The list of `id` keeps the subscribers that took
    /// the message; the entry goes once none is left. No other entry is
    /// touched.
    pub fn dispatch_each(&mut self, id: &str, message: &WsMessage) -> (attempts: Vec<Attempt>)
        ensures
            addressed(attempts@) == listed(old(self)@, id@),
            all_carry(attempts@, message@),
            final(self)@ == settled(old(self)@, id@, attempts@),
            old(self).wf() ==> final(self).wf(),
    {
        let ghost before = self@;
        match map_remove(&mut self.map, id) {
            Some(list) => {
                let attempts = attempt_all(&list, message, true);
                let kept = settle(list, &attempts);
                if kept.len() > 0 {
                    map_insert(&mut self.map, id.to_owned(), kept);
                    assert(self@ =~= settled(before, id@, attempts@));
                } else {
                    assert(self@ =~= settled(before, id@, attempts@));
                }
                attempts
            },
            None => {
                let attempts: Vec<Attempt> = Vec::new();
                assert(addressed(attempts@) =~= listed(before, id@));
                assert(survivors(attempts@) =~= Seq::<u64>::empty()) by {
                    reveal(Seq::filter);
                }
                assert(self@ =~= settled(before, id@, attempts@));
                attempts
            },
        }
    }

    /// Fans `message` out to the subscribers of `id` as [`Registry::dispatch_each`]
    /// does, and returns whether at least one of them took it.
    pub fn dispatch(&mut self, id: &str, message: &WsMessage) -> (any: bool)
        ensures
            exists|attempts: Seq<Attempt>|
                addressed(attempts) == listed(old(self)@, id@) && all_carry(attempts, message@)
                    && any == any_delivered(attempts) && final(self)@ == #[trigger] settled(
                    old(self)@,
                    id@,
                    attempts,
                ),
            old(self).wf() ==> final(self).wf(),
    {
        let attempts = self.dispatch_each(id, message);
        delivered(&attempts)
    }

    /// A second record of each subscriber of `id`, in subscription order.
    pub fn subscribers(&self, id: &str) -> (list: Vec<Subscriber>)
        ensures
            sessions_of(list@) == listed(self@, id@),
    {
        match map_get(&self.map, id) {
            Some(list) => list,
            None => {
                let list: Vec<Subscriber> = Vec::new();
                assert(sessions_of(list@) == Seq::<u64>::empty());
                list
            },
        }
    }

    /// Every entry with a second record of each of its subscribers.
    pub fn snapshot(&self) -> (all: Vec<(String, Vec<Subscriber>)>)
        ensures
            is_snapshot_of(snapshot_view(all@), self@),
    {
        map_snapshot(&self.map)
    }
}

} // verus!
