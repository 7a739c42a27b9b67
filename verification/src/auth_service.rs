//! The guards of the routes: the token that a request presents, checked
//! against the store, and the registration of new endpoints.

use chrono::NaiveDateTime;
use vstd::prelude::*;

use crate::auth::{Auth, AuthGuardDb, AuthView, NewAuth};
use crate::config::custom_timestamp;
use crate::ident::{
    all_url_safe, complete_id, completes, lemma_completed_id_keeps_prefix, MIN_ID_CHARS,
    RANDOM_CHARS,
};
use crate::status::Status;
use crate::token_store::{
    find_token, registered, verdict, AuthRecord, RecordView, TokenStore,
};

verus! {

/// The token that a request presents: the one in its header where there is
/// one; else, where the route allows it, the one in its query.
pub open spec fn presented_token(
    header: Option<Seq<char>>,
    query: Option<Seq<char>>,
    allow_query: bool,
) -> Option<Seq<char>> {
    match header {
        Some(token) => Some(token),
        None => if allow_query {
            query
        } else {
            None
        },
    }
}

/// The characters of an optional piece of text.
pub open spec fn text_view(text: Option<&str>) -> Option<Seq<char>> {
    match text {
        Some(text) => Some(text@),
        None => None,
    }
}

/// The guard of a route that needs a token: it holds the token that the
/// request presented, the empty one where it presented none.
pub struct AuthService {
    token: String,
}

impl AuthService {
    /// The token that the request presented.
    pub closed spec fn token_view(&self) -> Seq<char> {
        self.token@
    }

    /// The token that a request presents, where it presents one.
    pub fn get_token<'a>(header: Option<&'a str>, query: Option<&'a str>, allow_query: bool) -> (token:
        Option<&'a str>)
        ensures
            text_view(token) == presented_token(text_view(header), text_view(query), allow_query),
    {
        match header {
            Some(token) => Some(token),
            None => if allow_query {
                query
            } else {
                None
            },
        }
    }

    /// The guard for a request with the given header and query values.
    pub fn from_request(header: Option<&str>, query: Option<&str>, allow_query: bool) -> (guard:
        AuthService)
        ensures
            guard.token_view() == match presented_token(
                text_view(header),
                text_view(query),
                allow_query,
            ) {
                Some(token) => token,
                None => Seq::<char>::empty(),
            },
    {
        match AuthService::get_token(header, query, allow_query) {
            Some(token) => AuthService { token: token.to_owned() },
            None => AuthService { token: String::new() },
        }
    }

    /// The token that the request presented.
    pub fn token(&self) -> (token: &str)
        ensures
            token@ == self.token_view(),
    {
        self.token.as_str()
    }

    /// Checks the presented token against the stored token of `id`.
    pub fn check(&self, store: &TokenStore, id: &str) -> (answer: Result<(), Status>)
        ensures
            answer == verdict(store@, id@, self.token_view()),
    {
        store.check(id, self.token.as_str())
    }

    /// Whether the presented token passes for `id`.
    pub fn check_bool(&self, store: &TokenStore, id: &str) -> (passes: bool)
        ensures
            passes == (verdict(store@, id@, self.token_view()) is Ok),
    {
        self.check(store, id).is_ok()
    }
}

/// What the lookup of a guard by its token answers: the stored pair of the
/// first record with the presented token, `Unauthorized` where no token is
/// presented or no record has it.
pub open spec fn guard_for(records: Seq<RecordView>, presented: Option<Seq<char>>) -> Result<
    AuthView,
    Status,
> {
    match presented {
        None => Err(Status::Unauthorized),
        Some(token) => match find_token(records, token) {
            Some(record) => Ok(AuthView { id: record.id, token: record.token }),
            None => Err(Status::Unauthorized),
        },
    }
}

impl AuthGuardDb {
    /// Looks the guard up by the token that a request presents in its header
    /// or, failing that, in its query.
    pub fn from_request(header: Option<&str>, query: Option<&str>, store: &TokenStore) -> (guard:
        Result<AuthGuardDb, Status>)
        ensures
            match guard_for(store@, presented_token(text_view(header), text_view(query), true)) {
                Ok(pair) => guard matches Ok(found) && found@ == pair,
                Err(status) => guard matches Err(refusal) && refusal == status,
            },
    {
        let token = match AuthService::get_token(header, query, true) {
            Some(token) => token,
            None => return Err(Status::Unauthorized),
        };
        match store.lookup_token(token) {
            Some(record) => Ok(AuthGuardDb::new(record.id.clone(), record.token.clone())),
            None => Err(Status::Unauthorized),
        }
    }
}

impl NewAuth {
    /// Makes up a random id with a random token and registers the pair at
    /// `issued_at`. It fails only where the id drawn is taken: then the store
    /// stays as it is and the answer is `InternalServerError`.
    pub fn from_request(store: &mut TokenStore, issued_at: i64) -> (made: Result<NewAuth, Status>)
        ensures
            match made {
                Ok(pair) => {
                    &&& !registered(old(store)@, pair@.id)
                    &&& final(store)@ == old(store)@.push(record_for(pair@, issued_at as int))
                    &&& pair@.id.len() == RANDOM_CHARS
                    &&& pair@.token.len() == RANDOM_CHARS
                    &&& all_url_safe(pair@.id)
                    &&& all_url_safe(pair@.token)
                },
                Err(status) => {
                    &&& status == Status::InternalServerError
                    &&& final(store)@ == old(store)@
                    &&& exists|id: Seq<char>|
                        id.len() == RANDOM_CHARS && all_url_safe(id) && #[trigger] registered(
                            old(store)@,
                            id,
                        )
                },
            },
            old(store).wf() ==> final(store).wf(),
    {
        let pair = NewAuth::generate();
        match store.insert(AuthRecord::new(pair.id(), pair.token(), issued_at)) {
            Ok(()) => Ok(pair),
            Err(_) => Err(Status::InternalServerError),
        }
    }
}

/// The guard of the registration routes: it holds the time of the request, in
/// seconds since the configured epoch, which becomes the issue time.
pub struct NewAuthService {
    issued_at: i64,
}

/// The record that registration stores for a saved pair.
pub open spec fn record_for(saved: AuthView, issued_at: int) -> RecordView {
    RecordView { id: saved.id, token: saved.token, issued_at }
}

impl NewAuthService {
    /// The issue time of what this guard registers.
    pub closed spec fn issue_time(&self) -> int {
        self.issued_at as int
    }

    /// The guard for a request made at `issued_at`.
    pub fn new(issued_at: i64) -> (guard: NewAuthService)
        ensures
            guard.issue_time() == issued_at,
    {
        NewAuthService { issued_at }
    }

    /// The guard for a request made now, by the local clock, with issue times
    /// counted from `epoch`.
    pub fn from_request(epoch: NaiveDateTime) -> (guard: NewAuthService) {
        NewAuthService::new(custom_timestamp(epoch))
    }

    /// Registers the pair under exactly its id, which must not be taken.
    pub fn save_exact(self, store: &mut TokenStore, auth: Auth) -> (answer: Result<Auth, Status>)
        ensures
            registered(old(store)@, auth@.id) ==> answer == Err::<Auth, Status>(Status::Conflict)
                && final(store)@ == old(store)@,
            !registered(old(store)@, auth@.id) ==> (answer matches Ok(saved) && saved@ == auth@)
                && final(store)@ == old(store)@.push(record_for(auth@, self.issue_time())),
            old(store).wf() ==> final(store).wf(),
    {
        let record = AuthRecord::new(auth.id(), auth.token(), self.issued_at);
        match store.insert(record) {
            Ok(()) => Ok(auth),
            Err(_) => Err(Status::Conflict),
        }
    }

    /// Registers the pair. An id of fewer than eight characters first gets
    /// random url-safe characters behind it until it has eight. If the id is
    /// taken, the store stays as it is and the answer is `Conflict`; else the
    /// record goes behind the others and the answer is the pair as stored.
    pub fn save(self, store: &mut TokenStore, auth: Auth) -> (answer: Result<Auth, Status>)
        ensures
            match answer {
                Ok(saved) => {
                    &&& completes(auth@.id, saved@.id)
                    &&& saved@.token == auth@.token
                    &&& !registered(old(store)@, saved@.id)
                    &&& final(store)@ == old(store)@.push(record_for(saved@, self.issue_time()))
                    &&& saved@.id.len() >= MIN_ID_CHARS
                    &&& auth@.id.is_prefix_of(saved@.id)
                },
                Err(status) => {
                    &&& status == Status::Conflict
                    &&& final(store)@ == old(store)@
                    &&& exists|id: Seq<char>|
                        completes(auth@.id, id) && #[trigger] registered(old(store)@, id)
                },
            },
            auth@.id.len() >= MIN_ID_CHARS ==> (answer is Ok <==> !registered(
                old(store)@,
                auth@.id,
            )),
            old(store).wf() ==> final(store).wf(),
    {
        let ghost candidate = auth@.id;
        let (id, token) = auth.into_parts();
        let id = complete_id(id);
        proof {
            lemma_completed_id_keeps_prefix(candidate, id@);
            if candidate.len() >= MIN_ID_CHARS {
                crate::ident::lemma_long_id_is_complete(candidate, id@);
            }
        }
        self.save_exact(store, Auth::new(id, token))
    }

    /// Registers a random id with a random token, twenty-one url-safe
    /// characters each. It fails, with `Conflict`, only where the id drawn is
    /// taken.
    pub fn save_random(self, store: &mut TokenStore) -> (answer: Result<Auth, Status>)
        ensures
            match answer {
                Ok(saved) => {
                    &&& !registered(old(store)@, saved@.id)
                    &&& final(store)@ == old(store)@.push(record_for(saved@, self.issue_time()))
                    &&& saved@.id.len() == RANDOM_CHARS
                    &&& saved@.token.len() == RANDOM_CHARS
                    &&& all_url_safe(saved@.id)
                    &&& all_url_safe(saved@.token)
                },
                Err(status) => {
                    &&& status == Status::Conflict
                    &&& final(store)@ == old(store)@
                    &&& exists|id: Seq<char>|
                        id.len() == RANDOM_CHARS && all_url_safe(id) && #[trigger] registered(
                            old(store)@,
                            id,
                        )
                },
            },
            old(store).wf() ==> final(store).wf(),
    {
        let pair = Auth::rnd();
        let ghost drawn = pair@.id;
        proof {
            assert forall|id: Seq<char>| completes(drawn, id) implies id == drawn by {
                crate::ident::lemma_long_id_is_complete(drawn, id);
            }
        }
        self.save(store, pair)
    }
}

} // verus!
