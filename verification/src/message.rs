//! The events that travel between the clients and the room.

use vstd::prelude::*;

verus! {

/// What a client sends.
#[derive(Debug, Clone, PartialEq, Eq)]
pub enum ClientMessage {
    Join { username: String },
    Message { message: String },
    Typing,
    StopTyping,
}

/// The payload of a chat message.
#[derive(Debug, Clone, PartialEq, Eq)]
pub struct MessageData {
    pub username: String,
    pub message: String,
    pub timestamp: u64,
    pub msg_type: String,
}

/// What the room sends to a client.
#[derive(Debug, Clone, PartialEq, Eq)]
pub enum ServerMessage {
    UserList { users: Vec<String> },
    Message(MessageData),
    UserJoined { username: String, timestamp: u64 },
    UserLeft { username: String, timestamp: u64 },
    Typing { username: String },
    StopTyping { username: String },
    Error { message: String },
}

/// A client event as a mathematical value.
pub enum ClientEvent {
    Join { username: Seq<char> },
    Message { message: Seq<char> },
    Typing,
    StopTyping,
}

/// A chat message payload as a mathematical value.
pub struct ChatLine {
    pub username: Seq<char>,
    pub message: Seq<char>,
    pub timestamp: u64,
    pub msg_type: Seq<char>,
}

/// A room event as a mathematical value.
pub enum ChatEvent {
    UserList { users: Seq<Seq<char>> },
    Message(ChatLine),
    UserJoined { username: Seq<char>, timestamp: u64 },
    UserLeft { username: Seq<char>, timestamp: u64 },
    Typing { username: Seq<char> },
    StopTyping { username: Seq<char> },
    Error { message: Seq<char> },
}

impl View for ClientMessage {
    type V = ClientEvent;

    open spec fn view(&self) -> ClientEvent {
        match *self {
            ClientMessage::Join { username } => ClientEvent::Join { username: username@ },
            ClientMessage::Message { message } => ClientEvent::Message { message: message@ },
            ClientMessage::Typing => ClientEvent::Typing,
            ClientMessage::StopTyping => ClientEvent::StopTyping,
        }
    }
}

impl View for MessageData {
    type V = ChatLine;

    open spec fn view(&self) -> ChatLine {
        ChatLine {
            username: self.username@,
            message: self.message@,
            timestamp: self.timestamp,
            msg_type: self.msg_type@,
        }
    }
}

impl View for ServerMessage {
    type V = ChatEvent;

    open spec fn view(&self) -> ChatEvent {
        match *self {
            ServerMessage::UserList { users } => ChatEvent::UserList { users: users.deep_view() },
            ServerMessage::Message(data) => ChatEvent::Message(data@),
            ServerMessage::UserJoined { username, timestamp } => ChatEvent::UserJoined {
                username: username@,
                timestamp,
            },
            ServerMessage::UserLeft { username, timestamp } => ChatEvent::UserLeft {
                username: username@,
                timestamp,
            },
            ServerMessage::Typing { username } => ChatEvent::Typing { username: username@ },
            ServerMessage::StopTyping { username } => ChatEvent::StopTyping { username: username@ },
            ServerMessage::Error { message } => ChatEvent::Error { message: message@ },
        }
    }
}

impl DeepView for ServerMessage {
    type V = ChatEvent;

    open spec fn deep_view(&self) -> ChatEvent {
        self@
    }
}

} // verus!
