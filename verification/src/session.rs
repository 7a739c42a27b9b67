//! The relay session of one accepted connection: its states, and what it
//! does with each thing that reaches it.

use futures_channel::mpsc::Receiver;
use vstd::prelude::*;

use crate::auth_service::AuthService;
use crate::channel::open_channel;
use crate::message::{MessageView, WsMessage};
use crate::registry::{subscribed, Registry};
use crate::status::Status;
use crate::token_store::{verdict, TokenStore};

verus! {

/// The close code of a normal closure.
pub const CLOSE_NORMAL: u16 = 1000;

/// The close code that tells a client that the server is going away.
pub const CLOSE_AWAY: u16 = 1001;

/// The close code, from the range reserved for applications, that tells a
/// client that its token has expired.
pub const CLOSE_TOKEN_EXPIRED: u16 = 4001;

/// The code and reason of a close frame.
#[derive(Debug)]
pub struct CloseFrame {
    pub code: u16,
    pub reason: String,
}

/// A frame that a session sends to its client.
#[derive(Debug)]
pub enum Message {
    /// A data frame with text.
    Text(String),
    /// A close frame, bare or with code and reason.
    Close(Option<CloseFrame>),
}

/// What a frame says.
pub enum FrameView {
    Text(Seq<char>),
    Close(Option<(u16, Seq<char>)>),
}

impl View for Message {
    type V = FrameView;

    open spec fn view(&self) -> FrameView {
        match self {
            Message::Text(text) => FrameView::Text(text@),
            Message::Close(None) => FrameView::Close(None),
            Message::Close(Some(frame)) => FrameView::Close(Some((frame.code, frame.reason@))),
        }
    }
}

/// What reached a session from its client.
#[derive(Clone, Copy, Debug, PartialEq, Eq, Structural)]
pub enum Inbound {
    /// A data frame. Its content plays no part.
    Data,
    /// A close frame.
    Close,
    /// The transport failed to read.
    Error,
}

/// One thing that reached a session, from either of its two sources.
#[derive(Debug)]
pub enum MyMessage {
    /// From the client.
    In(Inbound),
    /// From the session's own channel.
    Out(WsMessage),
}

/// What a [`MyMessage`] says.
pub enum EventView {
    In(Inbound),
    Out(MessageView),
}

impl View for MyMessage {
    type V = EventView;

    open spec fn view(&self) -> EventView {
        match self {
            MyMessage::In(inbound) => EventView::In(*inbound),
            MyMessage::Out(message) => EventView::Out(message@),
        }
    }
}

/// Where a session stands.
#[derive(Clone, Copy, Debug, PartialEq, Eq, Structural)]
pub enum SessionState {
    /// The upgrade was asked for and the token is not checked yet.
    Connecting,
    /// The token passed; the session is not subscribed yet.
    Authenticated,
    /// The session is subscribed and relays.
    Relaying,
    /// The session has ended. Nothing leads out of this state.
    Closed,
}

/// The reason text of every close frame that the server sends on its own.
pub open spec fn server_reason() -> Seq<char> {
    "SERVER"@
}

/// The frame with which a relaying session answers a message from its
/// channel: a request goes out as text, each of the others as its close frame.
pub open spec fn frame_for(message: MessageView) -> FrameView {
    match message {
        MessageView::Request(payload) => FrameView::Text(payload),
        MessageView::TokenExpired => FrameView::Close(Some((CLOSE_TOKEN_EXPIRED, server_reason()))),
        MessageView::ServerShutdown => FrameView::Close(Some((CLOSE_AWAY, server_reason()))),
        MessageView::Shutdown => FrameView::Close(None),
    }
}

/// The state after a session in `state` has handled `event`. A relaying
/// session stays so on client data and on a request; everything else closes
/// it. In any other state an event changes nothing.
pub open spec fn next_state(state: SessionState, event: EventView) -> SessionState {
    if state != SessionState::Relaying {
        state
    } else {
        match event {
            EventView::In(Inbound::Data) => SessionState::Relaying,
            EventView::In(_) => SessionState::Closed,
            EventView::Out(MessageView::Request(_)) => SessionState::Relaying,
            EventView::Out(_) => SessionState::Closed,
        }
    }
}

/// The frame that a session in `state` sends on `event`: a relaying session
/// answers each message from its channel, and nothing else is answered.
pub open spec fn emitted(state: SessionState, event: EventView) -> Option<FrameView> {
    match event {
        EventView::Out(message) => if state == SessionState::Relaying {
            Some(frame_for(message))
        } else {
            None
        },
        EventView::In(_) => None,
    }
}

/// Nothing leads out of the closed state, and a closed session sends nothing.
pub proof fn lemma_closed_is_final(event: EventView)
    ensures
        next_state(SessionState::Closed, event) == SessionState::Closed,
        emitted(SessionState::Closed, event) is None,
{
}

/// A relaying session ends on a close frame or a read error from its client
/// and on every message of its channel but a request, and on nothing else;
/// what it sends before it ends is a close frame, and a request goes out as
/// one text frame with the payload.
pub proof fn lemma_relaying_ends_on_terminal_events(event: EventView)
    ensures
        next_state(SessionState::Relaying, event) == SessionState::Closed <==> !(event
            == EventView::In(Inbound::Data) || (event matches EventView::Out(message)
            && message is Request)),
        next_state(SessionState::Relaying, event) == SessionState::Closed || next_state(
            SessionState::Relaying,
            event,
        ) == SessionState::Relaying,
        event matches EventView::Out(message) ==> (emitted(SessionState::Relaying, event)
            matches Some(frame) && (frame is Close <==> next_state(SessionState::Relaying, event)
            == SessionState::Closed)),
        event matches EventView::Out(MessageView::Request(payload)) ==> emitted(
            SessionState::Relaying,
            event,
        ) == Some(FrameView::Text(payload)),
{
}

/// A session that is told that its token has expired sends a close frame
/// with the code reserved for that and the server's reason, and ends; one that
/// is told that the server shuts down does so with the going-away code.
pub proof fn lemma_notice_closes_session()
    ensures
        emitted(SessionState::Relaying, EventView::Out(MessageView::TokenExpired)) == Some(
            FrameView::Close(Some((CLOSE_TOKEN_EXPIRED, server_reason()))),
        ),
        next_state(SessionState::Relaying, EventView::Out(MessageView::TokenExpired))
            == SessionState::Closed,
        emitted(SessionState::Relaying, EventView::Out(MessageView::ServerShutdown)) == Some(
            FrameView::Close(Some((CLOSE_AWAY, server_reason()))),
        ),
        next_state(SessionState::Relaying, EventView::Out(MessageView::ServerShutdown))
            == SessionState::Closed,
        emitted(SessionState::Relaying, EventView::Out(MessageView::Shutdown)) == Some(
            FrameView::Close(None),
        ),
        next_state(SessionState::Relaying, EventView::Out(MessageView::Shutdown))
            == SessionState::Closed,
{
}

/// What an optional frame says.
pub open spec fn frame_view(frame: Option<Message>) -> Option<FrameView> {
    match frame {
        Some(frame) => Some(frame@),
        None => None,
    }
}

/// The close frame of the given code with the server's reason text.
pub fn server_close(code: u16) -> (frame: Message)
    ensures
        frame@ == FrameView::Close(Some((code, server_reason()))),
{
    Message::Close(Some(CloseFrame { code, reason: "SERVER".to_owned() }))
}

/// The frame with which a relaying session answers `message`.
pub fn answer(message: WsMessage) -> (frame: Message)
    ensures
        frame@ == frame_for(message@),
{
    match message {
        WsMessage::Request(payload) => Message::Text(payload),
        WsMessage::TokenExpired => server_close(CLOSE_TOKEN_EXPIRED),
        WsMessage::ServerShutdown => server_close(CLOSE_AWAY),
        WsMessage::Shutdown => Message::Close(None),
    }
}

/// The relay session of one connection to the endpoint `id`.
pub struct RelaySession {
    id: String,
    session: u64,
    state: SessionState,
}

impl RelaySession {
    /// The endpoint id that the session relays for.
    pub closed spec fn spec_id(&self) -> Seq<char> {
        self.id@
    }

    /// The number under which the session subscribes.
    pub closed spec fn spec_session(&self) -> u64 {
        self.session
    }

    /// Where the session stands.
    pub closed spec fn spec_state(&self) -> SessionState {
        self.state
    }

    /// The session of a connection that asks to be upgraded.
    pub fn connecting(id: &str, session: u64) -> (relay: RelaySession)
        ensures
            relay.spec_id() == id@,
            relay.spec_session() == session,
            relay.spec_state() == SessionState::Connecting,
    {
        RelaySession { id: id.to_owned(), session, state: SessionState::Connecting }
    }

    /// The endpoint id that the session relays for.
    pub fn id(&self) -> (id: &str)
        ensures
            id@ == self.spec_id(),
    {
        self.id.as_str()
    }

    /// The number under which the session subscribes.
    #[verifier::when_used_as_spec(spec_session)]
    pub fn session(&self) -> (session: u64)
        ensures
            session == self.spec_session(),
    {
        self.session
    }

    /// Where the session stands.
    #[verifier::when_used_as_spec(spec_state)]
    pub fn state(&self) -> (state: SessionState)
        ensures
            state == self.spec_state(),
    {
        self.state
    }

    /// Checks the token of a connecting session. Where it passes, the session
    /// is authenticated; where it does not, the session is closed and the
    /// answer says why. A session in any other state is left alone and the
    /// answer is `InternalServerError`.
    pub fn authenticate(&mut self, auth: &AuthService, store: &TokenStore) -> (answer: Result<
        (),
        Status,
    >)
        ensures
            final(self).spec_id() == old(self).spec_id(),
            final(self).spec_session() == old(self).spec_session(),
            old(self).spec_state() == SessionState::Connecting ==> answer == verdict(
                store@,
                old(self).spec_id(),
                auth.token_view(),
            ) && final(self).spec_state() == if answer is Ok {
                SessionState::Authenticated
            } else {
                SessionState::Closed
            },
            old(self).spec_state() != SessionState::Connecting ==> answer == Err::<(), Status>(
                Status::InternalServerError,
            ) && final(self).spec_state() == old(self).spec_state(),
    {
        if self.state != SessionState::Connecting {
            return Err(Status::InternalServerError);
        }
        let answer = auth.check(store, self.id.as_str());
        self.state = if answer.is_ok() {
            SessionState::Authenticated
        } else {
            SessionState::Closed
        };
        answer
    }

    /// Opens the channel of an authenticated session, subscribes its sending
    /// half under the session's id, and hands out the receiving half; the
    /// session relays from then on. A session in any other state is left
    /// alone, and so is the registry.
    pub fn relay(&mut self, registry: &mut Registry) -> (receiver: Option<Receiver<WsMessage>>)
        ensures
            final(self).spec_id() == old(self).spec_id(),
            final(self).spec_session() == old(self).spec_session(),
            old(self).spec_state() == SessionState::Authenticated ==> {
                &&& receiver is Some
                &&& final(self).spec_state() == SessionState::Relaying
                &&& final(registry)@ == subscribed(
                    old(registry)@,
                    old(self).spec_id(),
                    old(self).spec_session(),
                )
            },
            old(self).spec_state() != SessionState::Authenticated ==> {
                &&& receiver is None
                &&& final(self).spec_state() == old(self).spec_state()
                &&& final(registry)@ == old(registry)@
            },
            old(registry).wf() ==> final(registry).wf(),
    {
        if self.state != SessionState::Authenticated {
            return None;
        }
        let (subscriber, receiver) = open_channel(self.session);
        registry.subscribe(self.id.as_str(), subscriber);
        self.state = SessionState::Relaying;
        Some(receiver)
    }

    /// Handles one thing that reached the session and returns the frame to
    /// send, if any.
    pub fn on_message(&mut self, event: MyMessage) -> (frame: Option<Message>)
        ensures
            final(self).spec_id() == old(self).spec_id(),
            final(self).spec_session() == old(self).spec_session(),
            final(self).spec_state() == next_state(old(self).spec_state(), event@),
            frame_view(frame) == emitted(old(self).spec_state(), event@),
    {
        if self.state != SessionState::Relaying {
            return None;
        }
        match event {
            MyMessage::In(Inbound::Data) => None,
            MyMessage::In(_) => {
                self.state = SessionState::Closed;
                None
            },
            MyMessage::Out(message) => {
                if message.is_terminal() {
                    self.state = SessionState::Closed;
                }
                Some(answer(message))
            },
        }
    }
}

/// Accepts a connection to the endpoint `id`: checks the presented token,
/// and where it passes opens the session's channel, subscribes it and returns
/// the relaying session with the receiving half. Where it does not pass, the
/// upgrade is refused with the status that says why, and the registry stays
/// as it is.
pub fn websocket(
    id: &str,
    auth: &AuthService,
    store: &TokenStore,
    registry: &mut Registry,
    session: u64,
) -> (accepted: Result<(RelaySession, Receiver<WsMessage>), Status>)
    ensures
        match verdict(store@, id@, auth.token_view()) {
            Ok(_) => {
                &&& accepted matches Ok(pair)
                &&& pair.0.spec_id() == id@
                &&& pair.0.spec_session() == session
                &&& pair.0.spec_state() == SessionState::Relaying
                &&& final(registry)@ == subscribed(old(registry)@, id@, session)
            },
            Err(status) => {
                &&& accepted matches Err(refusal)
                &&& refusal == status
                &&& final(registry)@ == old(registry)@
            },
        },
        old(registry).wf() ==> final(registry).wf(),
{
    let mut relay = RelaySession::connecting(id, session);
    match relay.authenticate(auth, store) {
        Err(status) => Err(status),
        Ok(()) => {
            match relay.relay(registry) {
                Some(receiver) => Ok((relay, receiver)),
                None => Err(Status::InternalServerError),
            }
        },
    }
}

} // verus!
