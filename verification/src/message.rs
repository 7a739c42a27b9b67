//! The messages that travel from the broker to a relay session.

use vstd::prelude::*;

verus! {

/// A message on a session's channel.
#[derive(Debug)]
pub enum WsMessage {
    /// The session is to end with a bare close frame.
    Shutdown,
    /// The process is stopping.
    ServerShutdown,
    /// The token under which the session was opened has expired.
    TokenExpired,
    /// A captured request, already serialized for the wire.
    Request(String),
}

/// What a [`WsMessage`] says, with the payload as a sequence of characters.
pub enum MessageView {
    Shutdown,
    ServerShutdown,
    TokenExpired,
    Request(Seq<char>),
}

impl View for WsMessage {
    type V = MessageView;

    open spec fn view(&self) -> MessageView {
        match self {
            WsMessage::Shutdown => MessageView::Shutdown,
            WsMessage::ServerShutdown => MessageView::ServerShutdown,
            WsMessage::TokenExpired => MessageView::TokenExpired,
            WsMessage::Request(payload) => MessageView::Request(payload@),
        }
    }
}

impl WsMessage {
    /// A message that wraps a serialized payload.
    pub fn request(payload: &str) -> (message: WsMessage)
        ensures
            message@ == MessageView::Request(payload@),
    {
        WsMessage::Request(payload.to_owned())
    }

    /// A second message that says the same.
    pub fn duplicate(&self) -> (copy: WsMessage)
        ensures
            copy@ == self@,
    {
        match self {
            WsMessage::Shutdown => WsMessage::Shutdown,
            WsMessage::ServerShutdown => WsMessage::ServerShutdown,
            WsMessage::TokenExpired => WsMessage::TokenExpired,
            WsMessage::Request(payload) => WsMessage::Request(payload.clone()),
        }
    }

    /// Whether a session ends once it has handled the message.
    pub open spec fn spec_is_terminal(&self) -> bool {
        !(self is Request)
    }

    /// Whether a session ends once it has handled the message.
    #[verifier::when_used_as_spec(spec_is_terminal)]
    pub fn is_terminal(&self) -> (terminal: bool)
        ensures
            terminal == self.spec_is_terminal(),
    {
        match self {
            WsMessage::Request(_) => false,
            _ => true,
        }
    }
}

impl Clone for WsMessage {
    fn clone(&self) -> (copy: WsMessage)
        ensures
            copy@ == self@,
    {
        self.duplicate()
    }
}

} // verus!
