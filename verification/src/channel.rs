//! The bounded channel between the broker and one relay session, and the
//! subscriber record that the registry keeps of its sending half.

use futures_channel::mpsc::{Receiver, Sender, TrySendError};
use vstd::prelude::*;

use crate::message::{MessageView, WsMessage};

verus! {

/// `futures_channel::mpsc::Sender`, the sending half of a bounded channel.
/// Nothing of its state is visible to the verifier.
#[verifier::external_type_specification]
#[verifier::external_body]
#[verifier::reject_recursive_types(T)]
pub struct ExSender<T>(Sender<T>);

/// `futures_channel::mpsc::Receiver`, the receiving half of a bounded channel.
/// Nothing of its state is visible to the verifier.
#[verifier::external_type_specification]
#[verifier::external_body]
#[verifier::reject_recursive_types(T)]
pub struct ExReceiver<T>(Receiver<T>);

/// `futures_channel::mpsc::TrySendError`, which hands back a message that
/// could not be sent.
#[verifier::external_type_specification]
#[verifier::external_body]
#[verifier::reject_recursive_types(T)]
pub struct ExTrySendError<T>(TrySendError<T>);

/// `futures_channel::mpsc::channel` makes a channel with `buffer` shared slots.
/// It panics on a buffer of a quarter of the address space or more, which the
/// precondition leaves out. Nothing is claimed of the two halves.
pub assume_specification<T>[ futures_channel::mpsc::channel::<T> ](buffer: usize) -> (halves: (
    Sender<T>,
    Receiver<T>,
))
    requires
        buffer < usize::MAX / 4,
;

/// `Sender::is_closed` reads whether the channel is closed at this moment. The
/// answer depends on what the receiving side has done, so nothing is claimed.
pub assume_specification<T>[ Sender::<T>::is_closed ](sender: &Sender<T>) -> (closed: bool);

/// `Sender::close_channel` closes the channel from the sending side. Nothing is
/// claimed of the sender afterwards.
pub assume_specification<T>[ Sender::<T>::close_channel ](sender: &mut Sender<T>);

/// `Sender::try_send` queues a message without waiting, or hands it back where
/// the channel is closed or this sender's own slot is taken. Which of the two
/// depends on the receiving side, so nothing is claimed. It panics only once
/// the channel holds half the address space of messages.
pub assume_specification<T>[ Sender::<T>::try_send ](sender: &mut Sender<T>, msg: T) -> (sent:
    Result<(), TrySendError<T>>);

/// `Clone::clone` of a `Sender` makes one more sending half of the same
/// channel, with a slot of its own. Nothing is claimed of it. It panics only
/// once the channel has half the address space of senders.
pub assume_specification<T>[ <Sender<T> as Clone>::clone ](sender: &Sender<T>) -> (copy: Sender<T>);

/// How many messages a session's channel buffers beyond each sender's own slot.
pub const CHANNEL_CAPACITY: usize = 8;

/// What became of one attempt to hand a message to a subscriber.
#[derive(Clone, Copy, Debug, PartialEq, Eq, Structural)]
pub enum Delivery {
    /// The message was queued on the subscriber's channel.
    Delivered,
    /// The channel was open and did not take the message.
    Failed,
    /// The channel was closed already; nothing was sent.
    Closed,
}

/// One attempt to hand a message to a subscriber: the session it was addressed
/// to, what became of it, and what the message said.
#[derive(Clone, Copy)]
pub struct Attempt {
    pub session: u64,
    pub outcome: Delivery,
    pub carried: Ghost<MessageView>,
}

impl Attempt {
    /// The attempt to hand `message` to the session `session` that ended in
    /// `outcome`.
    pub fn new(session: u64, outcome: Delivery, message: &WsMessage) -> (attempt: Attempt)
        ensures
            attempt.session == session,
            attempt.outcome == outcome,
            attempt.carried@ == message@,
    {
        Attempt { session, outcome, carried: Ghost(message@) }
    }
}

/// The sessions that a list of attempts was addressed to, in the list's order.
pub open spec fn addressed(attempts: Seq<Attempt>) -> Seq<u64> {
    attempts.map_values(|a: Attempt| a.session)
}

/// Whether every one of the attempts was made with a message that says
/// `message`.
pub open spec fn all_carry(attempts: Seq<Attempt>, message: MessageView) -> bool {
    forall|i: int| 0 <= i < attempts.len() ==> (#[trigger] attempts[i]).carried@ == message
}

/// How a subscriber is approached once its channel has said whether it is
/// closed.
#[derive(Clone, Copy, Debug, PartialEq, Eq, Structural)]
pub enum Approach {
    /// The channel is closed: nothing is sent.
    PassOver,
    /// The channel is open: the message is sent.
    Send,
}

/// How an attempt ends: what became of it, and whether the subscriber's
/// channel is to be closed.
#[derive(Clone, Copy, Debug, PartialEq, Eq, Structural)]
pub struct Conclusion {
    pub outcome: Delivery,
    pub close: bool,
}

/// A closed channel is passed over, an open one is sent to.
pub open spec fn approach_for(closed: bool) -> Approach {
    if closed {
        Approach::PassOver
    } else {
        Approach::Send
    }
}

/// A subscriber that was passed over counts as closed. One that was sent to
/// counts as delivered to where its channel took the message, as failed where
/// it did not; a failed one is closed where the caller asks for that.
pub open spec fn conclusion_for(approach: Approach, taken: bool, close_failed: bool) -> Conclusion {
    match approach {
        Approach::PassOver => Conclusion { outcome: Delivery::Closed, close: false },
        Approach::Send => if taken {
            Conclusion { outcome: Delivery::Delivered, close: false }
        } else {
            Conclusion { outcome: Delivery::Failed, close: close_failed }
        },
    }
}

/// Decides how to approach a subscriber whose channel has answered `closed`
/// to the question whether it is closed.
pub fn approach(closed: bool) -> (approach: Approach)
    ensures
        approach == approach_for(closed),
{
    if closed {
        Approach::PassOver
    } else {
        Approach::Send
    }
}

/// Decides how an attempt ends, from the approach taken and, where the
/// message was sent, from whether the channel took it.
pub fn conclude(approach: Approach, taken: bool, close_failed: bool) -> (conclusion: Conclusion)
    ensures
        conclusion == conclusion_for(approach, taken, close_failed),
{
    match approach {
        Approach::PassOver => Conclusion { outcome: Delivery::Closed, close: false },
        Approach::Send => if taken {
            Conclusion { outcome: Delivery::Delivered, close: false }
        } else {
            Conclusion { outcome: Delivery::Failed, close: close_failed }
        },
    }
}

/// An attempt is a delivery exactly where the channel said it was open and
/// took the message; a channel that said it was closed is never delivered to,
/// and only a failed attempt closes a channel.
pub proof fn lemma_delivery_needs_an_open_channel(closed: bool, taken: bool, close_failed: bool)
    ensures
        conclusion_for(approach_for(closed), taken, close_failed).outcome == Delivery::Delivered
            <==> !closed && taken,
        closed ==> conclusion_for(approach_for(closed), taken, close_failed) == (Conclusion {
            outcome: Delivery::Closed,
            close: false,
        }),
        conclusion_for(approach_for(closed), taken, close_failed).close <==> !closed && !taken
            && close_failed,
{
}

/// One live subscription: the number of the relay session that holds the
/// receiving half, and the sending half of its channel.
pub struct Subscriber {
    session: u64,
    sender: Sender<WsMessage>,
}

impl Subscriber {
    /// The number of the session that this subscriber stands for.
    pub closed spec fn spec_session(&self) -> u64 {
        self.session
    }

    /// A subscriber record for the session `session`, which receives what is
    /// sent through `sender`.
    pub fn new(session: u64, sender: Sender<WsMessage>) -> (subscriber: Subscriber)
        ensures
            subscriber.spec_session() == session,
    {
        Subscriber { session, sender }
    }

    /// The number of the session that this subscriber stands for.
    #[verifier::when_used_as_spec(spec_session)]
    pub fn session(&self) -> (session: u64)
        ensures
            session == self.spec_session(),
    {
        self.session
    }

    /// A second record of the same session, with a sending half of its own on
    /// the same channel.
    pub fn duplicate(&self) -> (copy: Subscriber)
        ensures
            copy.spec_session() == self.spec_session(),
    {
        Subscriber { session: self.session, sender: self.sender.clone() }
    }

    /// Whether the subscriber's channel is closed at this moment.
    pub fn is_closed(&self) -> bool {
        self.sender.is_closed()
    }

    /// Closes the subscriber's channel from the sending side.
    pub fn close(&self) {
        let mut sender = self.sender.clone();
        sender.close_channel();
    }

    /// Tries once to hand `message` to the subscriber. The channel is asked
    /// whether it is closed and approached as [`approach`] decides; an open one
    /// is sent to through a sending half made for this one message, which has
    /// a slot of its own, so the send does not wait. The attempt ends as
    /// [`conclude`] decides, which closes a channel that did not take the
    /// message where `close_failed` asks for that.
    pub fn attempt(&self, message: WsMessage, close_failed: bool) -> (attempt: Attempt)
        ensures
            attempt.session == self.spec_session(),
            attempt.carried@ == message@,
    {
        let carried = Ghost(message@);
        let approach = approach(self.sender.is_closed());
        let taken = match approach {
            Approach::PassOver => false,
            Approach::Send => {
                let mut sender = self.sender.clone();
                match sender.try_send(message) {
                    Ok(()) => true,
                    Err(_) => false,
                }
            },
        };
        let conclusion = conclude(approach, taken, close_failed);
        if conclusion.close {
            self.close();
        }
        Attempt { session: self.session, outcome: conclusion.outcome, carried }
    }

    /// Tries once to hand `message` to the subscriber and leaves a channel
    /// that did not take it as it is.
    pub fn notify(&self, message: WsMessage) -> (attempt: Attempt)
        ensures
            attempt.session == self.spec_session(),
            attempt.carried@ == message@,
    {
        self.attempt(message, false)
    }

    /// Tries once to hand `message` to the subscriber and closes a channel
    /// that was open and did not take it.
    pub fn deliver(&self, message: WsMessage) -> (attempt: Attempt)
        ensures
            attempt.session == self.spec_session(),
            attempt.carried@ == message@,
    {
        self.attempt(message, true)
    }
}

/// The session numbers of a list of subscribers, in the list's order.
pub open spec fn sessions_of(subscribers: Seq<Subscriber>) -> Seq<u64> {
    subscribers.map_values(|s: Subscriber| s.spec_session())
}

/// Opens the channel of one relay session and returns the subscriber record
/// for the registry together with the receiving half for the session.
pub fn open_channel(session: u64) -> (halves: (Subscriber, Receiver<WsMessage>))
    ensures
        halves.0.spec_session() == session,
{
    let (sender, receiver) = futures_channel::mpsc::channel::<WsMessage>(CHANNEL_CAPACITY);
    (Subscriber::new(session, sender), receiver)
}

} // verus!
