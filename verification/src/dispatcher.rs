//! The dispatcher: authorizes an inbound call and fans its payload out to
//! the live subscribers of the endpoint.

use vstd::prelude::*;

use crate::auth_service::AuthService;
use crate::channel::{addressed, all_carry, Attempt};
use crate::message::{MessageView, WsMessage};
use crate::registry::{listed, settled, Registry};
use crate::status::Status;
use crate::token_store::{verdict, RecordView, TokenStore};

verus! {

/// What became of one call to an endpoint.
pub struct Handled {
    /// The answer to the caller.
    pub status: Status,
    /// One attempt for each subscriber that the payload was addressed to, in
    /// subscription order; none where the call was refused.
    pub attempts: Vec<Attempt>,
}

/// Whether a call to `id` with the token `presented` and the captured
/// request `payload` may have ended in `status` with `attempts` and have left
/// `after` of the registry `before`. Where the token does not pass, the
/// status is the one that says why, nothing is attempted and the registry
/// stays as it is. Where it passes, the status is `Accepted`, the attempts are
/// addressed to the subscribers of `id` in subscription order, each with the
/// payload as a request, and the registry is settled by them.
pub open spec fn handled(
    records: Seq<RecordView>,
    before: Map<Seq<char>, Seq<u64>>,
    id: Seq<char>,
    presented: Seq<char>,
    payload: Seq<char>,
    status: Status,
    attempts: Seq<Attempt>,
    after: Map<Seq<char>, Seq<u64>>,
) -> bool {
    match verdict(records, id, presented) {
        Err(refusal) => status == refusal && attempts.len() == 0 && after == before,
        Ok(_) => {
            &&& status == Status::Accepted
            &&& addressed(attempts) == listed(before, id)
            &&& all_carry(attempts, MessageView::Request(payload))
            &&& after == settled(before, id, attempts)
        },
    }
}

/// Handles one call to the endpoint `id` whose captured request is `payload`,
/// and reports every attempt made. Where the presented token does not pass,
/// the answer is the status that says why, nothing is sent and the registry
/// stays as it is. Where it passes, the payload is dispatched to the
/// subscribers of `id` and the answer is `Accepted`, whether or not any of
/// them took it.
pub fn handle_each(
    id: &str,
    auth: &AuthService,
    store: &TokenStore,
    registry: &mut Registry,
    payload: &str,
) -> (done: Handled)
    ensures
        handled(
            store@,
            old(registry)@,
            id@,
            auth.token_view(),
            payload@,
            done.status,
            done.attempts@,
            final(registry)@,
        ),
        old(registry).wf() ==> final(registry).wf(),
{
    if let Err(refusal) = auth.check(store, id) {
        return Handled { status: refusal, attempts: Vec::new() };
    }
    let message = WsMessage::request(payload);
    let attempts = registry.dispatch_each(id, &message);
    Handled { status: Status::Accepted, attempts }
}

/// Handles one call to the endpoint `id` as [`handle_each`] does, and returns
/// the answer to the caller alone.
pub fn handle(
    id: &str,
    auth: &AuthService,
    store: &TokenStore,
    registry: &mut Registry,
    payload: &str,
) -> (status: Status)
    ensures
        exists|attempts: Seq<Attempt>| #[trigger]
            handled(
                store@,
                old(registry)@,
                id@,
                auth.token_view(),
                payload@,
                status,
                attempts,
                final(registry)@,
            ),
        old(registry).wf() ==> final(registry).wf(),
{
    handle_each(id, auth, store, registry, payload).status
}

} // verus!
