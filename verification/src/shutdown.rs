//! The farewell at process stop: every live session is told that the server
//! shuts down.

use vstd::prelude::*;

use crate::channel::{addressed, all_carry, sessions_of, Attempt, Subscriber};
use crate::message::{MessageView, WsMessage};
use crate::registry::{attempt_all, Registry};

verus! {

/// What became of the farewell to the subscribers of one endpoint id, one
/// attempt for each subscriber in subscription order.
pub struct Farewell {
    pub id: String,
    pub attempts: Vec<Attempt>,
}

/// Whether `report` answers for every entry of `registry` exactly once, with
/// one attempt for each subscriber of the entry, in subscription order, each
/// made with the message that the server shuts down.
pub open spec fn covers(report: Seq<Farewell>, registry: Map<Seq<char>, Seq<u64>>) -> bool {
    &&& forall|k: int|
        0 <= k < report.len() ==> registry.dom().contains((#[trigger] report[k]).id@)
            && addressed(report[k].attempts@) == registry[report[k].id@] && all_carry(
            report[k].attempts@,
            MessageView::ServerShutdown,
        )
    &&& forall|k: int, m: int|
        0 <= k < m < report.len() ==> (#[trigger] report[k]).id@ != (#[trigger] report[m]).id@
    &&& forall|id: Seq<char>| #[trigger]
        registry.dom().contains(id) ==> exists|k: int|
            0 <= k < report.len() && (#[trigger] report[k]).id@ == id
}

/// Tells each of `subscribers` whose channel is open that the server shuts
/// down, in the list's order. A closed channel is passed over, and one that
/// does not take the message is left as it is.
pub fn bid_farewell(subscribers: &Vec<Subscriber>) -> (attempts: Vec<Attempt>)
    ensures
        addressed(attempts@) == sessions_of(subscribers@),
        all_carry(attempts@, MessageView::ServerShutdown),
{
    attempt_all(subscribers, &WsMessage::ServerShutdown, false)
}

/// Tells every subscriber of every entry whose channel is open that the
/// server shuts down, and reports what became of each. The registry is not
/// changed, and nothing is waited for.
pub fn close_websockets(registry: &Registry) -> (report: Vec<Farewell>)
    ensures
        covers(report@, registry@),
{
    let all = registry.snapshot();
    let mut report: Vec<Farewell> = Vec::new();
    let mut i: usize = 0;
    while i < all.len()
        invariant
            i <= all.len(),
            report.len() == i,
            forall|k: int|
                0 <= k < i ==> (#[trigger] report[k]).id@ == all[k].0@ && addressed(
                    report[k].attempts@,
                ) == sessions_of(all[k].1@) && all_carry(
                    report[k].attempts@,
                    MessageView::ServerShutdown,
                ),
        decreases all.len() - i,
    {
        let attempts = bid_farewell(&all[i].1);
        report.push(Farewell { id: all[i].0.clone(), attempts });
        i += 1;
    }
    proof {
        let listing = crate::registry::snapshot_view(all@);
        assert forall|k: int| 0 <= k < report.len() implies registry@.dom().contains(
            (#[trigger] report[k]).id@,
        ) && addressed(report[k].attempts@) == registry@[report[k].id@] && all_carry(
            report[k].attempts@,
            MessageView::ServerShutdown,
        ) by {
            assert(listing[k].0 == all[k].0@);
            assert(listing[k].1 == sessions_of(all[k].1@));
        }
        assert forall|k: int, m: int| 0 <= k < m < report.len() implies (#[trigger] report[k]).id@
            != (#[trigger] report[m]).id@ by {
            assert(listing[k].0 == all[k].0@);
            assert(listing[m].0 == all[m].0@);
        }
        assert forall|id: Seq<char>| #[trigger] registry@.dom().contains(id) implies exists|k: int|
            0 <= k < report.len() && (#[trigger] report[k]).id@ == id by {
            let k = choose|k: int| 0 <= k < listing.len() && (#[trigger] listing[k]).0 == id;
            assert(listing[k].0 == all[k].0@);
            assert(report[k].id@ == id);
        }
    }
    report
}

} // verus!
