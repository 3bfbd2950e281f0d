//! Messages exchanged with the client over the `general` data channel.

use vstd::prelude::*;

verus! {

/// Sent from the server to control or inform the client.
#[derive(Debug)]
pub enum ServerMessage {
    /// Casual, non-chatty information.
    Info { message: String },
    /// A recovered error: stronger than a warning, but not fatal.
    Notice { message: String },
    /// A fatal error that should be displayed to the client.
    Error { message: String },
    /// Sent after the client requested a graceful end of the session.
    SessionComplete,
}

/// The abstract content of a `ServerMessage`.
pub enum ServerMessageView {
    Info(Seq<char>),
    Notice(Seq<char>),
    Error(Seq<char>),
    SessionComplete,
}

impl View for ServerMessage {
    type V = ServerMessageView;

    open spec fn view(&self) -> ServerMessageView {
        match self {
            ServerMessage::Info { message } => ServerMessageView::Info(message@),
            ServerMessage::Notice { message } => ServerMessageView::Notice(message@),
            ServerMessage::Error { message } => ServerMessageView::Error(message@),
            ServerMessage::SessionComplete => ServerMessageView::SessionComplete,
        }
    }
}

impl ServerMessage {
    /// An `Info` message carrying `message`.
    pub fn info(message: &str) -> (res: ServerMessage)
        ensures
            res@ == ServerMessageView::Info(message@),
    {
        ServerMessage::Info { message: message.to_owned() }
    }

    /// A `Notice` message carrying `message`.
    pub fn notice(message: &str) -> (res: ServerMessage)
        ensures
            res@ == ServerMessageView::Notice(message@),
    {
        ServerMessage::Notice { message: message.to_owned() }
    }

    /// An `Error` message carrying `message`.
    pub fn error(message: &str) -> (res: ServerMessage)
        ensures
            res@ == ServerMessageView::Error(message@),
    {
        ServerMessage::Error { message: message.to_owned() }
    }
}

impl PartialEq for ServerMessage {
    fn eq(&self, other: &Self) -> (res: bool) {
        match (self, other) {
            (ServerMessage::Info { message: a }, ServerMessage::Info { message: b }) => *a == *b,
            (ServerMessage::Notice { message: a }, ServerMessage::Notice { message: b }) => *a == *b,
            (ServerMessage::Error { message: a }, ServerMessage::Error { message: b }) => *a == *b,
            (ServerMessage::SessionComplete, ServerMessage::SessionComplete) => true,
            _ => false,
        }
    }
}

impl vstd::std_specs::cmp::PartialEqSpecImpl for ServerMessage {
    open spec fn obeys_eq_spec() -> bool {
        true
    }

    open spec fn eq_spec(&self, other: &ServerMessage) -> bool {
        self@ == other@
    }
}

impl Eq for ServerMessage {
}

/// Sent from the client to inform the server. Best effort: the client can
/// disappear at any time.
#[derive(Debug)]
pub enum ClientMessage {
    Info { message: String },
    Error { message: String },
    /// The client is done sending video for the session.
    SessionEnding,
}

impl ClientMessage {
    /// Whether the message asks the server to end the session gracefully.
    pub fn requests_graceful_shutdown(&self) -> (res: bool)
        ensures
            res <==> self is SessionEnding,
    {
        match self {
            ClientMessage::SessionEnding => true,
            _ => false,
        }
    }
}

} // verus!
