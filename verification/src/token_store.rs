//! The store of issued tokens: one record for each registered endpoint id.

use vstd::prelude::*;

use crate::status::Status;
use crate::text::same_text;

verus! {

/// The record of one registration: the endpoint id, its token (empty for a
/// public endpoint), and when it was issued, in seconds since the configured
/// epoch.
#[derive(Debug)]
pub struct AuthRecord {
    pub id: String,
    pub token: String,
    pub issued_at: i64,
}

/// What a record says.
pub struct RecordView {
    pub id: Seq<char>,
    pub token: Seq<char>,
    pub issued_at: int,
}

impl View for AuthRecord {
    type V = RecordView;

    open spec fn view(&self) -> RecordView {
        RecordView { id: self.id@, token: self.token@, issued_at: self.issued_at as int }
    }
}

impl AuthRecord {
    /// The record of `id` with `token`, issued at `issued_at`.
    pub fn new(id: &str, token: &str, issued_at: i64) -> (record: AuthRecord)
        ensures
            record@ == (RecordView { id: id@, token: token@, issued_at: issued_at as int }),
    {
        AuthRecord { id: id.to_owned(), token: token.to_owned(), issued_at }
    }
}

impl Clone for AuthRecord {
    fn clone(&self) -> (copy: AuthRecord)
        ensures
            copy@ == self@,
    {
        AuthRecord { id: self.id.clone(), token: self.token.clone(), issued_at: self.issued_at }
    }
}

/// What a list of records says, record by record.
pub open spec fn records_view(records: Seq<AuthRecord>) -> Seq<RecordView> {
    records.map_values(|r: AuthRecord| r@)
}

/// Whether a record of `id` is among `records`.
pub open spec fn registered(records: Seq<RecordView>, id: Seq<char>) -> bool {
    exists|i: int| 0 <= i < records.len() && (#[trigger] records[i]).id == id
}

/// Whether no two of `records` have the same id.
pub open spec fn unique_ids(records: Seq<RecordView>) -> bool {
    forall|i: int, j: int|
        0 <= i < j < records.len() ==> (#[trigger] records[i]).id != (#[trigger] records[j]).id
}

/// The first record of `id` among `records`, where there is one.
pub open spec fn find(records: Seq<RecordView>, id: Seq<char>) -> Option<RecordView>
    decreases records.len(),
{
    if records.len() == 0 {
        None
    } else if records[0].id == id {
        Some(records[0])
    } else {
        find(records.drop_first(), id)
    }
}

/// The first record with the token `token` among `records`, where there is
/// one.
pub open spec fn find_token(records: Seq<RecordView>, token: Seq<char>) -> Option<RecordView>
    decreases records.len(),
{
    if records.len() == 0 {
        None
    } else if records[0].token == token {
        Some(records[0])
    } else {
        find_token(records.drop_first(), token)
    }
}

/// Whether a stored token lets a presented one pass: an empty stored token
/// matches every presented token, any other only itself.
pub open spec fn token_matches(stored: Seq<char>, presented: Seq<char>) -> bool {
    stored.len() == 0 || stored == presented
}

/// The answer to a presented token for `id`: `NotFound` where `id` is not
/// registered, success where its stored token matches, `Unauthorized` else.
pub open spec fn verdict(records: Seq<RecordView>, id: Seq<char>, presented: Seq<char>) -> Result<
    (),
    Status,
> {
    match find(records, id) {
        None => Err(Status::NotFound),
        Some(record) => if token_matches(record.token, presented) {
            Ok(())
        } else {
            Err(Status::Unauthorized)
        },
    }
}

/// The records issued before `cutoff`, in the order of `records`.
pub open spec fn expired(records: Seq<RecordView>, cutoff: int) -> Seq<RecordView> {
    records.filter(|r: RecordView| r.issued_at < cutoff)
}

/// The records issued at `cutoff` or later, in the order of `records`.
pub open spec fn retained(records: Seq<RecordView>, cutoff: int) -> Seq<RecordView> {
    records.filter(|r: RecordView| r.issued_at >= cutoff)
}

/// A record of an id is found exactly where the id is registered, and it has
/// that id.
pub proof fn lemma_find_registered(records: Seq<RecordView>, id: Seq<char>)
    ensures
        find(records, id) is Some <==> registered(records, id),
        find(records, id) matches Some(record) ==> record.id == id && records.contains(record),
    decreases records.len(),
{
    if records.len() > 0 {
        let rest = records.drop_first();
        lemma_find_registered(rest, id);
        if records[0].id == id {
            assert(records[0].id == id);
        } else {
            if registered(rest, id) {
                let k = choose|k: int| 0 <= k < rest.len() && (#[trigger] rest[k]).id == id;
                assert(records[k + 1].id == id);
                assert(records[k + 1] == rest[k]);
            }
            if registered(records, id) {
                let k = choose|k: int| 0 <= k < records.len() && (#[trigger] records[k]).id == id;
                assert(rest[k - 1].id == id);
            }
        }
    }
}

/// Among records with unique ids, the record found for an id is the one that
/// has it, wherever it stands.
pub proof fn lemma_find_unique(records: Seq<RecordView>, i: int)
    requires
        unique_ids(records),
        0 <= i < records.len(),
    ensures
        find(records, records[i].id) == Some(records[i]),
    decreases records.len(),
{
    if i > 0 {
        let rest = records.drop_first();
        assert(records[0].id != records[i].id);
        assert(unique_ids(rest)) by {
            assert forall|a: int, b: int| 0 <= a < b < rest.len() implies (#[trigger] rest[a]).id != (
            #[trigger] rest[b]).id by {
                assert(records[a + 1].id != records[b + 1].id);
            }
        }
        assert(rest[i - 1] == records[i]);
        lemma_find_unique(rest, i - 1);
    }
}

/// Selecting records by any rule keeps their ids unique, and selects no record
/// that was not there.
pub proof fn lemma_filter_keeps_unique_ids(records: Seq<RecordView>, keep: spec_fn(RecordView) -> bool)
    requires
        unique_ids(records),
    ensures
        unique_ids(records.filter(keep)),
        forall|id: Seq<char>|
            registered(records.filter(keep), id) ==> #[trigger] registered(records, id),
    decreases records.len(),
{
    reveal(Seq::filter);
    if records.len() > 0 {
        let front = records.drop_last();
        let last = records.last();
        assert(unique_ids(front)) by {
            assert forall|i: int, j: int| 0 <= i < j < front.len() implies (#[trigger] front[i]).id
                != (#[trigger] front[j]).id by {
                assert(records[i].id != records[j].id);
            }
        }
        lemma_filter_keeps_unique_ids(front, keep);
        let chosen = front.filter(keep);
        assert forall|id: Seq<char>| registered(records.filter(keep), id) implies #[trigger] registered(
            records,
            id,
        ) by {
            let k = choose|k: int|
                0 <= k < records.filter(keep).len() && (#[trigger] records.filter(keep)[k]).id == id;
            if k < chosen.len() {
                assert(chosen[k].id == id);
                assert(registered(chosen, id));
                assert(registered(front, id));
                let m = choose|m: int| 0 <= m < front.len() && (#[trigger] front[m]).id == id;
                assert(records[m].id == id);
            } else {
                assert(records[records.len() - 1].id == id);
            }
        }
        if keep(last) {
            assert forall|i: int, j: int| 0 <= i < j < chosen.push(last).len() implies (
            #[trigger] chosen.push(last)[i]).id != (#[trigger] chosen.push(last)[j]).id by {
                if j == chosen.len() {
                    if chosen[i].id == last.id {
                        assert(registered(chosen, last.id));
                        assert(registered(front, last.id));
                        let m = choose|m: int|
                            0 <= m < front.len() && (#[trigger] front[m]).id == last.id;
                        assert(records[m].id != records[records.len() - 1].id);
                    }
                } else {
                    assert(chosen[i].id != chosen[j].id);
                }
            }
        }
    }
}

/// A check on an id answers `NotFound` exactly where the id is not
/// registered, whatever token is presented.
pub proof fn lemma_not_found_iff_unregistered(
    records: Seq<RecordView>,
    id: Seq<char>,
    presented: Seq<char>,
)
    ensures
        verdict(records, id, presented) == Err::<(), Status>(Status::NotFound) <==> !registered(
            records,
            id,
        ),
{
    lemma_find_registered(records, id);
}

/// Once a record is stored its id is registered, so a second registration of
/// the same id is a conflict; what was registered before stays registered,
/// and nothing else becomes registered.
pub proof fn lemma_registered_after_push(records: Seq<RecordView>, record: RecordView, id: Seq<char>)
    ensures
        registered(records.push(record), record.id),
        registered(records.push(record), id) <==> registered(records, id) || id == record.id,
{
    let after = records.push(record);
    assert(after[records.len() as int].id == record.id);
    if registered(records, id) {
        let k = choose|k: int| 0 <= k < records.len() && (#[trigger] records[k]).id == id;
        assert(after[k].id == id);
    }
    if registered(after, id) && id != record.id {
        let k = choose|k: int| 0 <= k < after.len() && (#[trigger] after[k]).id == id;
        assert(records[k].id == id);
    }
}

/// A stored record keeps answering for its id after a later registration of
/// another id.
pub proof fn lemma_find_after_push(records: Seq<RecordView>, record: RecordView, id: Seq<char>)
    ensures
        find(records.push(record), id) == if find(records, id) is Some {
            find(records, id)
        } else if record.id == id {
            Some(record)
        } else {
            None
        },
    decreases records.len(),
{
    let after = records.push(record);
    if records.len() == 0 {
        assert(after.drop_first() =~= records);
    } else {
        assert(after[0] == records[0]);
        assert(after.drop_first() =~= records.drop_first().push(record));
        if records[0].id != id {
            lemma_find_after_push(records.drop_first(), record, id);
        }
    }
}

/// An endpoint whose stored token is empty is public: every presented token
/// passes.
pub proof fn lemma_empty_token_admits_all(
    records: Seq<RecordView>,
    id: Seq<char>,
    presented: Seq<char>,
)
    requires
        find(records, id) matches Some(record) && record.token.len() == 0,
    ensures
        verdict(records, id, presented) is Ok,
{
}

/// Against a stored token that is not empty, a presented token passes exactly
/// where it is the same; any other is answered `Unauthorized`.
pub proof fn lemma_token_must_match(records: Seq<RecordView>, id: Seq<char>, presented: Seq<char>)
    requires
        find(records, id) matches Some(record) && record.token.len() > 0,
    ensures
        verdict(records, id, presented) is Ok <==> presented == find(records, id).unwrap().token,
        verdict(records, id, presented) is Err ==> verdict(records, id, presented) == Err::<
            (),
            Status,
        >(Status::Unauthorized),
{
}

/// A sweep with a given cutoff parts the records in two: a record is purged
/// exactly where it was issued before the cutoff, and kept exactly where it
/// was not.
pub proof fn lemma_purged_iff_expired(records: Seq<RecordView>, cutoff: int, record: RecordView)
    ensures
        expired(records, cutoff).contains(record) <==> records.contains(record) && record.issued_at
            < cutoff,
        retained(records, cutoff).contains(record) <==> records.contains(record)
            && record.issued_at >= cutoff,
{
    let old_enough = |r: RecordView| r.issued_at < cutoff;
    let young_enough = |r: RecordView| r.issued_at >= cutoff;
    if records.contains(record) {
        let k = choose|k: int| 0 <= k < records.len() && records[k] == record;
        if record.issued_at < cutoff {
            records.lemma_filter_contains(old_enough, k);
        } else {
            records.lemma_filter_contains(young_enough, k);
        }
    }
    if expired(records, cutoff).contains(record) {
        let k = choose|k: int|
            0 <= k < records.filter(old_enough).len() && records.filter(old_enough)[k] == record;
        records.lemma_filter_pred(old_enough, k);
        records.lemma_filter_contains_rev(old_enough, record);
    }
    if retained(records, cutoff).contains(record) {
        let k = choose|k: int|
            0 <= k < records.filter(young_enough).len() && records.filter(young_enough)[k] == record;
        records.lemma_filter_pred(young_enough, k);
        records.lemma_filter_contains_rev(young_enough, record);
    }
}

/// The issued tokens, one record for each registered endpoint id, in the
/// order of registration.
pub struct TokenStore {
    records: Vec<AuthRecord>,
}

impl TokenStore {
    /// The records, in the order of registration.
    pub closed spec fn view(&self) -> Seq<RecordView> {
        records_view(self.records@)
    }

    /// Whether no two records have the same id. A new store is well formed,
    /// and every operation keeps it so.
    pub open spec fn wf(&self) -> bool {
        unique_ids(self@)
    }

    /// A store without records.
    pub fn new() -> (store: TokenStore)
        ensures
            store@ == Seq::<RecordView>::empty(),
            store.wf(),
    {
        let store = TokenStore { records: Vec::new() };
        assert(store@ =~= Seq::<RecordView>::empty());
        store
    }

    /// The number of records.
    pub fn len(&self) -> (count: usize)
        ensures
            count == self@.len(),
    {
        self.records.len()
    }

    /// The first record of `id`, where `id` is registered.
    pub fn lookup(&self, id: &str) -> (found: Option<&AuthRecord>)
        ensures
            match found {
                Some(record) => find(self@, id@) == Some(record@),
                None => find(self@, id@) is None,
            },
    {
        let mut i: usize = 0;
        assert(self@.skip(0) =~= self@);
        while i < self.records.len()
            invariant
                i <= self.records.len(),
                find(self@, id@) == find(self@.skip(i as int), id@),
            decreases self.records.len() - i,
        {
            assert(self@.skip(i as int).drop_first() =~= self@.skip(i + 1));
            if same_text(self.records[i].id.as_str(), id) {
                return Some(&self.records[i]);
            }
            i += 1;
        }
        None
    }

    /// The first record whose token is `token`, where there is one.
    pub fn lookup_token(&self, token: &str) -> (found: Option<&AuthRecord>)
        ensures
            match found {
                Some(record) => find_token(self@, token@) == Some(record@),
                None => find_token(self@, token@) is None,
            },
    {
        let mut i: usize = 0;
        assert(self@.skip(0) =~= self@);
        while i < self.records.len()
            invariant
                i <= self.records.len(),
                find_token(self@, token@) == find_token(self@.skip(i as int), token@),
            decreases self.records.len() - i,
        {
            assert(self@.skip(i as int).drop_first() =~= self@.skip(i + 1));
            if same_text(self.records[i].token.as_str(), token) {
                return Some(&self.records[i]);
            }
            i += 1;
        }
        None
    }

    /// Checks a presented token against the stored token of `id`.
    pub fn check(&self, id: &str, presented: &str) -> (answer: Result<(), Status>)
        ensures
            answer == verdict(self@, id@, presented@),
    {
        match self.lookup(id) {
            None => Err(Status::NotFound),
            Some(record) => {
                if record.token.as_str().is_empty() || same_text(
                    record.token.as_str(),
                    presented,
                ) {
                    Ok(())
                } else {
                    Err(Status::Unauthorized)
                }
            },
        }
    }

    /// Adds `record` behind the others, unless a record of the same id is in
    /// the store already: then the store stays as it is and the answer is
    /// `Conflict`.
    pub fn insert(&mut self, record: AuthRecord) -> (answer: Result<(), Status>)
        ensures
            registered(old(self)@, record@.id) ==> answer == Err::<(), Status>(Status::Conflict)
                && final(self)@ == old(self)@,
            !registered(old(self)@, record@.id) ==> answer is Ok && final(self)@ == old(self)@.push(
                record@,
            ),
            old(self).wf() ==> final(self).wf(),
    {
        proof {
            lemma_find_registered(self@, record@.id);
        }
        if self.lookup(record.id.as_str()).is_some() {
            return Err(Status::Conflict);
        }
        let ghost before = self@;
        assert(unique_ids(before) ==> unique_ids(before.push(record@))) by {
            if unique_ids(before) {
                assert forall|i: int, j: int| 0 <= i < j < before.push(record@).len() implies (
                #[trigger] before.push(record@)[i]).id != (#[trigger] before.push(record@)[j]).id by {
                    if j == before.len() {
                        assert(before[i].id != record@.id);
                    } else {
                        assert(before[i].id != before[j].id);
                    }
                }
            }
        }
        self.records.push(record);
        assert(self@ =~= before.push(record@));
        Ok(())
    }

    /// A copy of every record issued before `cutoff`, in the order of
    /// registration.
    pub fn expired_before(&self, cutoff: i64) -> (found: Vec<AuthRecord>)
        ensures
            records_view(found@) == expired(self@, cutoff as int),
    {
        self.expired_before_moment(cutoff as i128)
    }

    /// Removes every record issued before `cutoff` and returns how many went.
    /// The others keep their order.
    pub fn delete_before(&mut self, cutoff: i64) -> (gone: usize)
        ensures
            final(self)@ == retained(old(self)@, cutoff as int),
            gone == old(self)@.len() - final(self)@.len(),
            old(self).wf() ==> final(self).wf(),
    {
        self.delete_before_moment(cutoff as i128)
    }

    /// As [`TokenStore::expired_before`], for a cutoff that need not be an
    /// issue time itself: the difference of two is one.
    pub fn expired_before_moment(&self, cutoff: i128) -> (found: Vec<AuthRecord>)
        ensures
            records_view(found@) == expired(self@, cutoff as int),
    {
        let ghost old_enough = |r: RecordView| r.issued_at < cutoff as int;
        let mut found: Vec<AuthRecord> = Vec::new();
        let mut i: usize = 0;
        assert(self@.take(0).filter(old_enough) =~= Seq::<RecordView>::empty()) by {
            reveal(Seq::filter);
        }
        while i < self.records.len()
            invariant
                i <= self.records.len(),
                old_enough == |r: RecordView| r.issued_at < cutoff as int,
                records_view(found@) == self@.take(i as int).filter(old_enough),
            decreases self.records.len() - i,
        {
            proof {
                self@.take(i as int).lemma_filter_push(self@[i as int], old_enough);
                assert(self@.take(i as int).push(self@[i as int]) =~= self@.take(i + 1));
            }
            if (self.records[i].issued_at as i128) < cutoff {
                let ghost so_far = records_view(found@);
                found.push(self.records[i].clone());
                assert(records_view(found@) =~= so_far.push(self@[i as int]));
            }
            i += 1;
        }
        assert(self@.take(i as int) =~= self@);
        found
    }

    /// As [`TokenStore::delete_before`], for a cutoff that need not be an
    /// issue time itself.
    pub fn delete_before_moment(&mut self, cutoff: i128) -> (gone: usize)
        ensures
            final(self)@ == retained(old(self)@, cutoff as int),
            gone == old(self)@.len() - final(self)@.len(),
            old(self).wf() ==> final(self).wf(),
    {
        let ghost before = self@;
        let ghost young_enough = |r: RecordView| r.issued_at >= cutoff as int;
        let mut kept: Vec<AuthRecord> = Vec::new();
        let mut i: usize = 0;
        assert(before.take(0).filter(young_enough) =~= Seq::<RecordView>::empty()) by {
            reveal(Seq::filter);
        }
        while i < self.records.len()
            invariant
                i <= self.records.len(),
                self@ == before,
                young_enough == |r: RecordView| r.issued_at >= cutoff as int,
                records_view(kept@) == before.take(i as int).filter(young_enough),
                kept.len() <= i,
            decreases self.records.len() - i,
        {
            proof {
                before.take(i as int).lemma_filter_push(before[i as int], young_enough);
                assert(before.take(i as int).push(before[i as int]) =~= before.take(i + 1));
            }
            if (self.records[i].issued_at as i128) >= cutoff {
                let ghost so_far = records_view(kept@);
                kept.push(self.records[i].clone());
                assert(records_view(kept@) =~= so_far.push(before[i as int]));
            }
            i += 1;
        }
        assert(before.take(i as int) =~= before);
        proof {
            if unique_ids(before) {
                lemma_filter_keeps_unique_ids(before, young_enough);
            }
        }
        let gone = self.records.len() - kept.len();
        self.records = kept;
        gone
    }
}

} // verus!
