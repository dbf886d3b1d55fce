//! The protocol of one connection: what each client event does to the
//! session and to the registry, what is sent back to the client and what is
//! published to the room.

use crate::clock::current_timestamp;
use crate::ident::{fresh_id, is_random_layout, RANDOM_LAYOUT};
use crate::message::{ChatEvent, ChatLine, ClientEvent, ClientMessage, MessageData, ServerMessage};
use crate::state::{claim_result, is_listing, AppState, Registry};
use crate::text::trimmed;
use crate::user::JoinError;
use vstd::prelude::*;

verus! {

/// The state of a connection.
#[derive(Debug, Clone, PartialEq, Eq)]
pub enum Session {
    /// Connected, no name claimed yet.
    Unauthenticated,
    /// A name is claimed: the identity under which the user is registered,
    /// and the name.
    Joined { id: u128, username: String },
    /// Torn down.
    Closed,
}

/// The state of a connection as a mathematical value.
pub enum Phase {
    Unauthenticated,
    Joined { id: u128, username: Seq<char> },
    Closed,
}

impl View for Session {
    type V = Phase;

    open spec fn view(&self) -> Phase {
        match *self {
            Session::Unauthenticated => Phase::Unauthenticated,
            Session::Joined { id, username } => Phase::Joined { id, username: username@ },
            Session::Closed => Phase::Closed,
        }
    }
}

/// What a session asks of the connection that runs it.
#[derive(Debug, Clone, PartialEq, Eq)]
pub enum Action {
    /// Send the event to this session's own client.
    Send(ServerMessage),
    /// Publish the event to every subscriber of the hub.
    Publish(ServerMessage),
}

/// An action as a mathematical value.
pub enum Effect {
    Send(ChatEvent),
    Publish(ChatEvent),
}

impl View for Action {
    type V = Effect;

    open spec fn view(&self) -> Effect {
        match *self {
            Action::Send(message) => Effect::Send(message@),
            Action::Publish(message) => Effect::Publish(message@),
        }
    }
}

impl DeepView for Action {
    type V = Effect;

    open spec fn deep_view(&self) -> Effect {
        self@
    }
}

/// What the reader of a connection hands to its session.
#[derive(Debug, Clone, PartialEq, Eq)]
pub enum Inbound {
    /// A frame that decoded into a client event.
    Event(ClientMessage),
    /// A frame that did not decode.
    Malformed,
    /// The transport closed or failed.
    Disconnected,
}

/// An inbound item as a mathematical value.
pub enum Input {
    Event(ClientEvent),
    Malformed,
    Disconnected,
}

impl View for Inbound {
    type V = Input;

    open spec fn view(&self) -> Input {
        match *self {
            Inbound::Event(message) => Input::Event(message@),
            Inbound::Malformed => Input::Malformed,
            Inbound::Disconnected => Input::Disconnected,
        }
    }
}

/// The name under which the room itself speaks.
pub open spec fn system_name() -> Seq<char> {
    "系统"@
}

/// The greeting for a user who joined.
pub open spec fn welcome_text(username: Seq<char>) -> Seq<char> {
    "欢迎 "@ + username + " 加入聊天室！"@
}

/// The system message that greets a user who joined.
pub open spec fn welcome_event(username: Seq<char>, now: u64) -> ChatEvent {
    ChatEvent::Message(
        ChatLine {
            username: system_name(),
            message: welcome_text(username),
            timestamp: now,
            msg_type: "system"@,
        },
    )
}

/// The message that a user says to the room.
pub open spec fn said_event(username: Seq<char>, message: Seq<char>, now: u64) -> ChatEvent {
    ChatEvent::Message(ChatLine { username, message, timestamp: now, msg_type: "user"@ })
}

/// What a `Join` does to a session that has no name yet.
///
/// A refused name leaves everything as it was and sends the reason to the
/// client. An accepted name registers the user under the trimmed name and
/// binds the session to it; the client is sent a listing of the registry as
/// it then stands and a greeting, and the arrival is published.
pub open spec fn joined(
    registry: Registry,
    username: Seq<char>,
    id: u128,
    now: u64,
    post: Phase,
    after: Registry,
    effects: Seq<Effect>,
) -> bool {
    match claim_result(registry, username, id, now) {
        Err(e) => {
            &&& post == Phase::Unauthenticated
            &&& after == registry
            &&& effects == seq![Effect::Send(ChatEvent::Error { message: e.text() })]
        },
        Ok(user) => {
            &&& post == Phase::Joined { id, username: trimmed(username) }
            &&& after == registry.insert(id, user)
            &&& effects.len() == 3
            &&& effects[0] matches Effect::Send(ChatEvent::UserList { users })
            &&& is_listing(after, users)
            &&& effects[1] == Effect::Send(welcome_event(trimmed(username), now))
            &&& effects[2] == Effect::Publish(
                ChatEvent::UserJoined { username: trimmed(username), timestamp: now },
            )
        },
    }
}

/// What a joined session publishes for a client event.
pub open spec fn relayed(username: Seq<char>, event: ClientEvent, now: u64) -> Seq<Effect> {
    match event {
        ClientEvent::Join { .. } => Seq::empty(),
        ClientEvent::Message { message } => seq![
            Effect::Publish(said_event(username, message, now)),
        ],
        ClientEvent::Typing => seq![Effect::Publish(ChatEvent::Typing { username })],
        ClientEvent::StopTyping => seq![Effect::Publish(ChatEvent::StopTyping { username })],
    }
}

/// The transition of a session on a client event that arrives at the time
/// `now`, where `id` is the identity that a new user would get.
///
/// Before a name is claimed only `Join` has any effect. Once joined, the
/// session relays messages and typing notices under its name and ignores a
/// further `Join`. A closed session ignores everything.
pub open spec fn handled(
    pre: Phase,
    registry: Registry,
    event: ClientEvent,
    id: u128,
    now: u64,
    post: Phase,
    after: Registry,
    effects: Seq<Effect>,
) -> bool {
    match pre {
        Phase::Unauthenticated => match event {
            ClientEvent::Join { username } => joined(
                registry,
                username,
                id,
                now,
                post,
                after,
                effects,
            ),
            _ => post == pre && after == registry && effects == Seq::<Effect>::empty(),
        },
        Phase::Joined { id: _, username } => {
            &&& post == pre
            &&& after == registry
            &&& effects == relayed(username, event, now)
        },
        Phase::Closed => post == pre && after == registry && effects == Seq::<Effect>::empty(),
    }
}

/// The registry after a session's connection is torn down: the session's
/// user, if it has one, is gone.
pub open spec fn closed_registry(pre: Phase, registry: Registry) -> Registry {
    match pre {
        Phase::Joined { id, .. } => registry.remove(id),
        _ => registry,
    }
}

/// What the teardown of a session's connection publishes: the departure of
/// the user that was registered for it, if there was one.
pub open spec fn closed_effects(pre: Phase, registry: Registry, now: u64) -> Seq<Effect> {
    match pre {
        Phase::Joined { id, .. } => if registry.contains_key(id) {
            seq![
                Effect::Publish(
                    ChatEvent::UserLeft { username: registry[id].username, timestamp: now },
                ),
            ]
        } else {
            Seq::empty()
        },
        _ => Seq::empty(),
    }
}

/// The transition of a session on what its reader hands it at the time
/// `now`, where `id` is the identity that a new user would get.
///
/// A client event is handled; a frame that did not decode changes nothing;
/// the end of the transport tears the session down.
pub open spec fn received(
    pre: Phase,
    registry: Registry,
    input: Input,
    id: u128,
    now: u64,
    post: Phase,
    after: Registry,
    effects: Seq<Effect>,
) -> bool {
    match input {
        Input::Event(event) => handled(pre, registry, event, id, now, post, after, effects),
        Input::Malformed => post == pre && after == registry && effects == Seq::<Effect>::empty(),
        Input::Disconnected => {
            &&& post == Phase::Closed
            &&& after == closed_registry(pre, registry)
            &&& effects == closed_effects(pre, registry, now)
        },
    }
}

/// The system message that greets a user who joined.
pub fn welcome_message(username: &str, now: u64) -> (message: ServerMessage)
    ensures
        message@ == welcome_event(username@, now),
{
    let mut text = String::from_str("欢迎 ");
    text.append(username);
    text.append(" 加入聊天室！");
    ServerMessage::Message(
        MessageData {
            username: String::from_str("系统"),
            message: text,
            timestamp: now,
            msg_type: String::from_str("system"),
        },
    )
}

/// The message that a user says to the room.
pub fn said_message(username: String, message: String, now: u64) -> (said: ServerMessage)
    ensures
        said@ == said_event(username@, message@, now),
{
    ServerMessage::Message(
        MessageData { username, message, timestamp: now, msg_type: String::from_str("user") },
    )
}

impl Session {
    /// The session of a connection that was just accepted.
    pub fn new() -> (session: Self)
        ensures
            session@ == Phase::Unauthenticated,
    {
        Session::Unauthenticated
    }

    /// Tells whether the session has no name yet.
    pub fn awaits_name(&self) -> (b: bool)
        ensures
            b == (self@ is Unauthenticated),
    {
        match self {
            Session::Unauthenticated => true,
            _ => false,
        }
    }

    /// Tells whether the session is torn down.
    pub fn is_closed(&self) -> (b: bool)
        ensures
            b == (self@ is Closed),
    {
        match self {
            Session::Closed => true,
            _ => false,
        }
    }

    /// Handles a `Join` in a session that has no name yet.
    fn join(&mut self, state: &mut AppState, username: String, id: u128, now: u64) -> (actions:
        Vec<Action>)
        requires
            old(state).wf(),
            old(self)@ == Phase::Unauthenticated,
        ensures
            final(state).wf(),
            joined(
                old(state)@,
                username@,
                id,
                now,
                final(self)@,
                final(state)@,
                actions.deep_view(),
            ),
    {
        let mut actions: Vec<Action> = Vec::new();
        match state.add_user_with(username, id, now) {
            Ok(user) => {
                let users = state.get_user_list();
                let welcome = welcome_message(user.username.as_str(), now);
                let arrival = ServerMessage::UserJoined {
                    username: user.username.clone(),
                    timestamp: now,
                };
                *self = Session::Joined { id: user.id, username: user.username };
                actions.push(Action::Send(ServerMessage::UserList { users }));
                actions.push(Action::Send(welcome));
                actions.push(Action::Publish(arrival));
            },
            Err(e) => {
                actions.push(Action::Send(ServerMessage::Error { message: e.message() }));
                proof {
                    assert(actions.deep_view() =~= seq![
                        Effect::Send(ChatEvent::Error { message: e.text() }),
                    ]);
                }
            },
        }
        actions
    }

    /// Handles a client event that arrives at the time `now`, where `id` is
    /// the identity to give to the user if the event makes one.
    pub fn handle_message_with(
        &mut self,
        state: &mut AppState,
        message: ClientMessage,
        id: u128,
        now: u64,
    ) -> (actions: Vec<Action>)
        requires
            old(state).wf(),
        ensures
            final(state).wf(),
            handled(
                old(self)@,
                old(state)@,
                message@,
                id,
                now,
                final(self)@,
                final(state)@,
                actions.deep_view(),
            ),
    {
        let mut actions: Vec<Action> = Vec::new();
        match &*self {
            Session::Unauthenticated => {
                if let ClientMessage::Join { username } = message {
                    return self.join(state, username, id, now);
                }
            },
            Session::Joined { id: _, username } => {
                match message {
                    ClientMessage::Join { .. } => {},
                    ClientMessage::Message { message } => {
                        actions.push(
                            Action::Publish(said_message(username.clone(), message, now)),
                        );
                    },
                    ClientMessage::Typing => {
                        actions.push(
                            Action::Publish(ServerMessage::Typing { username: username.clone() }),
                        );
                    },
                    ClientMessage::StopTyping => {
                        actions.push(
                            Action::Publish(
                                ServerMessage::StopTyping { username: username.clone() },
                            ),
                        );
                    },
                }
                proof {
                    assert(actions.deep_view() =~= relayed(username@, message@, now));
                }
            },
            Session::Closed => {},
        }
        proof {
            assert(actions.deep_view() =~= Seq::<Effect>::empty() || self@ is Joined);
        }
        actions
    }

    /// Handles a client event: reads the clock, draws the identity that a
    /// new user would get, and proceeds as `handle_message_with` does.
    pub fn handle_message(&mut self, state: &mut AppState, message: ClientMessage) -> (actions:
        Vec<Action>)
        requires
            old(state).wf(),
        ensures
            final(state).wf(),
            exists|id: u128, now: u64|
                {
                    &&& is_random_layout(id)
                    &&& #[trigger] handled(
                        old(self)@,
                        old(state)@,
                        message@,
                        id,
                        now,
                        final(self)@,
                        final(state)@,
                        actions.deep_view(),
                    )
                },
    {
        let now = current_timestamp();
        if self.awaits_name() {
            let id = fresh_id();
            self.handle_message_with(state, message, id, now)
        } else {
            let actions = self.handle_message_with(state, message, RANDOM_LAYOUT, now);
            proof {
                assert(is_random_layout(RANDOM_LAYOUT)) by (bit_vector);
            }
            actions
        }
    }

    /// Handles what the reader of the connection hands over: reads the
    /// clock, draws the identity that a new user would get, and does what
    /// `received` says.
    pub fn receive(&mut self, state: &mut AppState, inbound: Inbound) -> (actions: Vec<Action>)
        requires
            old(state).wf(),
        ensures
            final(state).wf(),
            exists|id: u128, now: u64|
                {
                    &&& is_random_layout(id)
                    &&& #[trigger] received(
                        old(self)@,
                        old(state)@,
                        inbound@,
                        id,
                        now,
                        final(self)@,
                        final(state)@,
                        actions.deep_view(),
                    )
                },
    {
        match inbound {
            Inbound::Event(message) => {
                let ghost event = message@;
                let actions = self.handle_message(state, message);
                proof {
                    let (id, now) = choose|id: u128, now: u64|
                        is_random_layout(id) && #[trigger] handled(
                            old(self)@,
                            old(state)@,
                            event,
                            id,
                            now,
                            self@,
                            state@,
                            actions.deep_view(),
                        );
                    assert(received(
                        old(self)@,
                        old(state)@,
                        Input::Event(event),
                        id,
                        now,
                        self@,
                        state@,
                        actions.deep_view(),
                    ));
                }
                actions
            },
            Inbound::Malformed => {
                let actions: Vec<Action> = Vec::new();
                proof {
                    assert(is_random_layout(RANDOM_LAYOUT)) by (bit_vector);
                    assert(actions.deep_view() =~= Seq::<Effect>::empty());
                    assert(received(
                        old(self)@,
                        old(state)@,
                        inbound@,
                        RANDOM_LAYOUT,
                        0,
                        self@,
                        state@,
                        actions.deep_view(),
                    ));
                }
                actions
            },
            Inbound::Disconnected => {
                let now = current_timestamp();
                let actions = self.disconnect_with(state, now);
                proof {
                    assert(is_random_layout(RANDOM_LAYOUT)) by (bit_vector);
                    assert(received(
                        old(self)@,
                        old(state)@,
                        inbound@,
                        RANDOM_LAYOUT,
                        now,
                        self@,
                        state@,
                        actions.deep_view(),
                    ));
                }
                actions
            },
        }
    }

    /// Tears the session down at the time `now`: the session is closed, its
    /// user leaves the registry, and the departure is published if the user
    /// was still registered.
    pub fn disconnect_with(&mut self, state: &mut AppState, now: u64) -> (actions: Vec<Action>)
        requires
            old(state).wf(),
        ensures
            final(state).wf(),
            final(self)@ == Phase::Closed,
            final(state)@ == closed_registry(old(self)@, old(state)@),
            actions.deep_view() == closed_effects(old(self)@, old(state)@, now),
    {
        let mut actions: Vec<Action> = Vec::new();
        if let Session::Joined { id, username: _ } = &*self {
            if let Some(user) = state.remove_user(*id) {
                actions.push(
                    Action::Publish(
                        ServerMessage::UserLeft { username: user.username, timestamp: now },
                    ),
                );
            }
        }
        *self = Session::Closed;
        proof {
            assert(actions.deep_view() =~= closed_effects(old(self)@, old(state)@, now));
        }
        actions
    }

    /// Tears the session down: reads the clock and proceeds as
    /// `disconnect_with` does.
    pub fn disconnect(&mut self, state: &mut AppState) -> (actions: Vec<Action>)
        requires
            old(state).wf(),
        ensures
            final(state).wf(),
            final(self)@ == Phase::Closed,
            final(state)@ == closed_registry(old(self)@, old(state)@),
            exists|now: u64| actions.deep_view() == #[trigger] closed_effects(
                old(self)@,
                old(state)@,
                now,
            ),
    {
        let now = current_timestamp();
        self.disconnect_with(state, now)
    }
}

} // verus!
