//! The protocol conversation with one admitted peer.
//!
//! The session sends `send-details` as soon as it opens, then reacts to whichever
//! comes first: a frame from the peer or a command from the controller.
use crate::messages::{ConnectedMessage, ConnectedNotification};
use crate::protocol::{bool_text, frame_text, json_quoted, ServerMessage};
use vstd::prelude::*;
use vstd::string::*;

verus! {

/// What arrived from the peer.
pub enum Inbound {
    /// A frame that decoded to a message.
    Frame(ServerMessage),
    /// A text frame that did not decode; `reason` is the decoder's explanation.
    Malformed { reason: String },
    /// A frame that carries no text (binary, ping, pong); it is ignored.
    NonText,
    /// The peer closed the connection.
    Closed,
}

/// What the session does in answer to one event.
pub struct SessionStep {
    /// Handed to the controller.
    pub notification: Option<ConnectedNotification>,
    /// Sent to the peer.
    pub reply: Option<ServerMessage>,
    /// The loop ends and the admission permit is released.
    pub exit: bool,
}

/// How a session ended when the transport reported an error.
#[derive(Debug, Clone, Copy, PartialEq, Eq)]
pub enum SessionErrorKind {
    ConnectionClosed,
    Protocol,
    Utf8,
    Other,
}

impl SessionErrorKind {
    /// A closed connection, a protocol violation or bad encoding ends the session
    /// quietly; anything else is reported as an operational error.
    pub fn is_benign(&self) -> (r: bool)
        ensures
            r == !(*self is Other),
    {
        match self {
            SessionErrorKind::Other => false,
            _ => true,
        }
    }
}

pub open spec fn unexpected_text() -> Seq<char> {
    "unexpected message"@
}

/// The frame that the session sends to the peer for a command of the controller;
/// `None` for a closed channel.
pub open spec fn command_reply(command: Option<ConnectedMessage>) -> Option<ServerMessage> {
    match command {
        Some(ConnectedMessage::AppReady) => Some(ServerMessage::AppReady),
        Some(ConnectedMessage::UpdateCode { code, play }) => Some(
            ServerMessage::UpdateCode { code, play },
        ),
        Some(ConnectedMessage::SendCode) => Some(ServerMessage::SendCode),
        Some(ConnectedMessage::Terminate) => None,
        None => None,
    }
}

/// An `UpdateCode` command reaches the wire as one `update-code` frame whose `code`
/// field is the command's code, unchanged, written as one JSON string literal.
pub proof fn lemma_update_code_reaches_wire(code: String, play: bool)
    ensures
        command_reply(Some(ConnectedMessage::UpdateCode { code, play })) matches Some(m)
            && frame_text(m) == "{\"action\":\"update-code\",\"payload\":{\"code\":"@
            + json_quoted(code@) + ",\"play\":"@ + bool_text(play) + "}}"@,
{
}

/// One admitted connection, from its first frame until its loop exits.
pub struct Session {
    /// The admission permit, held while the loop runs and dropped when it exits.
    permit: Option<semaphore::SemaphoreGuard<()>>,
}

impl Session {
    /// The loop runs, and the session holds its admission permit.
    pub closed spec fn is_open(&self) -> bool {
        self.permit is Some
    }

    /// Opens the session on an admitted connection; the returned message is the
    /// first frame to send.
    pub fn open(permit: semaphore::SemaphoreGuard<()>) -> (r: (Session, ServerMessage))
        ensures
            r.0.is_open(),
            r.1 is SendDetails,
    {
        (Session { permit: Some(permit) }, ServerMessage::SendDetails)
    }

    /// Ends the loop and gives the admission permit back.
    fn close(&mut self)
        ensures
            !final(self).is_open(),
    {
        self.permit = None;
    }

    pub fn running(&self) -> (r: bool)
        ensures
            r == self.is_open(),
    {
        self.permit.is_some()
    }

    /// Reacts to what the peer sent.
    pub fn on_inbound(&mut self, inbound: Inbound) -> (r: SessionStep)
        requires
            old(self).is_open(),
        ensures
            final(self).is_open() == !r.exit,
            match inbound {
                Inbound::Frame(ServerMessage::Details { title, question_id }) => r.reply is None
                    && !r.exit && r.notification == Some(
                    ConnectedNotification::Details { title, question_id },
                ),
                Inbound::Frame(ServerMessage::Code { code }) => r.reply is None && !r.exit
                    && r.notification == Some(ConnectedNotification::Code { code }),
                Inbound::Frame(_) => r.notification is None && !r.exit && (r.reply matches Some(
                    ServerMessage::Error { message },
                ) && message@ == unexpected_text()),
                Inbound::Malformed { reason } => r.notification is None && !r.exit
                    && r.reply == Some(ServerMessage::Error { message: reason }),
                Inbound::NonText => r.notification is None && r.reply is None && !r.exit,
                Inbound::Closed => r.notification is None && r.reply is None && r.exit,
            },
    {
        match inbound {
            Inbound::Frame(msg) => match msg {
                ServerMessage::Details { title, question_id } => SessionStep {
                    notification: Some(ConnectedNotification::Details { title, question_id }),
                    reply: None,
                    exit: false,
                },
                ServerMessage::Code { code } => SessionStep {
                    notification: Some(ConnectedNotification::Code { code }),
                    reply: None,
                    exit: false,
                },
                _ => SessionStep {
                    notification: None,
                    reply: Some(
                        ServerMessage::Error { message: String::from_str("unexpected message") },
                    ),
                    exit: false,
                },
            },
            Inbound::Malformed { reason } => SessionStep {
                notification: None,
                reply: Some(ServerMessage::Error { message: reason }),
                exit: false,
            },
            Inbound::NonText => SessionStep { notification: None, reply: None, exit: false },
            Inbound::Closed => {
                self.close();
                SessionStep { notification: None, reply: None, exit: true }
            },
        }
    }

    /// Reacts to a command of the controller; `None` stands for a closed channel.
    pub fn on_command(&mut self, command: Option<ConnectedMessage>) -> (r: SessionStep)
        requires
            old(self).is_open(),
        ensures
            final(self).is_open() == !r.exit,
            r.notification is None,
            r.reply == command_reply(command),
            r.exit == (command is None || command == Some(ConnectedMessage::Terminate)),
    {
        match command {
            Some(ConnectedMessage::AppReady) => SessionStep {
                notification: None,
                reply: Some(ServerMessage::AppReady),
                exit: false,
            },
            Some(ConnectedMessage::UpdateCode { code, play }) => SessionStep {
                notification: None,
                reply: Some(ServerMessage::UpdateCode { code, play }),
                exit: false,
            },
            Some(ConnectedMessage::SendCode) => SessionStep {
                notification: None,
                reply: Some(ServerMessage::SendCode),
                exit: false,
            },
            Some(ConnectedMessage::Terminate) | None => {
                self.close();
                SessionStep { notification: None, reply: None, exit: true }
            },
        }
    }
}

} // verus!
