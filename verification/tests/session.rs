use chat_room::clock::current_timestamp;
use chat_room::message::{ClientMessage, MessageData, ServerMessage};
use chat_room::session::{said_message, welcome_message, Action, Inbound, Session};
use chat_room::state::AppState;

fn join(name: &str) -> ClientMessage {
    ClientMessage::Join { username: name.to_string() }
}

fn say(text: &str) -> ClientMessage {
    ClientMessage::Message { message: text.to_string() }
}

fn error(text: &str) -> Action {
    Action::Send(ServerMessage::Error { message: text.to_string() })
}

fn joined(id: u128, name: &str) -> Session {
    Session::Joined { id, username: name.to_string() }
}

fn arrivals(actions: &[Action]) -> usize {
    actions
        .iter()
        .filter(|a| matches!(a, Action::Publish(ServerMessage::UserJoined { .. })))
        .count()
}

fn departures(actions: &[Action]) -> usize {
    actions
        .iter()
        .filter(|a| matches!(a, Action::Publish(ServerMessage::UserLeft { .. })))
        .count()
}

fn publications(actions: &[Action]) -> usize {
    actions.iter().filter(|a| matches!(a, Action::Publish(_))).count()
}

#[test]
fn a_new_session_has_no_name() {
    let session = Session::new();
    assert_eq!(session, Session::Unauthenticated);
    assert!(session.awaits_name());
    assert!(!session.is_closed());
}

#[test]
fn the_welcome_greets_the_user_by_name() {
    assert_eq!(
        welcome_message("alice", 42),
        ServerMessage::Message(MessageData {
            username: "系统".to_string(),
            message: "欢迎 alice 加入聊天室！".to_string(),
            timestamp: 42,
            msg_type: "system".to_string(),
        })
    );
}

#[test]
fn a_said_message_is_of_the_user_kind() {
    assert_eq!(
        said_message("alice".to_string(), "hi".to_string(), 43),
        ServerMessage::Message(MessageData {
            username: "alice".to_string(),
            message: "hi".to_string(),
            timestamp: 43,
            msg_type: "user".to_string(),
        })
    );
}

#[test]
fn joining_registers_greets_and_announces() {
    let mut state = AppState::new();
    let mut session = Session::new();
    let actions = session.handle_message_with(&mut state, join("alice"), 7, 1000);
    assert_eq!(
        actions,
        vec![
            Action::Send(ServerMessage::UserList { users: vec!["alice".to_string()] }),
            Action::Send(welcome_message("alice", 1000)),
            Action::Publish(ServerMessage::UserJoined {
                username: "alice".to_string(),
                timestamp: 1000,
            }),
        ]
    );
    assert_eq!(session, joined(7, "alice"));
    assert!(!session.awaits_name());
    assert_eq!(state.get_user_list(), vec!["alice".to_string()]);
}

#[test]
fn joining_with_a_padded_name_uses_the_trimmed_name() {
    let mut state = AppState::new();
    let mut session = Session::new();
    let actions = session.handle_message_with(&mut state, join("  alice \n"), 7, 1000);
    assert_eq!(
        actions,
        vec![
            Action::Send(ServerMessage::UserList { users: vec!["alice".to_string()] }),
            Action::Send(welcome_message("alice", 1000)),
            Action::Publish(ServerMessage::UserJoined {
                username: "alice".to_string(),
                timestamp: 1000,
            }),
        ]
    );
    assert_eq!(session, joined(7, "alice"));
    assert_eq!(
        session.handle_message_with(&mut state, ClientMessage::Typing, 0, 1001),
        vec![Action::Publish(ServerMessage::Typing { username: "alice".to_string() })]
    );
    assert_eq!(
        session.disconnect_with(&mut state, 1002),
        vec![Action::Publish(ServerMessage::UserLeft {
            username: "alice".to_string(),
            timestamp: 1002,
        })]
    );
}

#[test]
fn joining_with_a_padded_form_of_a_taken_name_is_refused() {
    let mut state = AppState::new();
    let mut a = Session::new();
    let mut b = Session::new();
    a.handle_message_with(&mut state, join("alice"), 1, 10);
    assert_eq!(
        b.handle_message_with(&mut state, join(" alice "), 2, 11),
        vec![error("name already taken")]
    );
    assert_eq!(b, Session::Unauthenticated);
    assert_eq!(state.get_user_list(), vec!["alice".to_string()]);
}

#[test]
fn joining_lists_everybody_in_the_room() {
    let mut state = AppState::new();
    state.add_user_with("alice".to_string(), 1, 10).unwrap();
    state.add_user_with("bob".to_string(), 2, 11).unwrap();
    let mut session = Session::new();
    let actions = session.handle_message_with(&mut state, join("carol"), 3, 12);
    assert_eq!(actions.len(), 3);
    match &actions[0] {
        Action::Send(ServerMessage::UserList { users }) => {
            let mut users = users.clone();
            users.sort();
            assert_eq!(users, vec!["alice".to_string(), "bob".to_string(), "carol".to_string()]);
        }
        other => panic!("expected the user list, got {:?}", other),
    }
}

#[test]
fn joining_with_a_blank_name_is_refused() {
    let mut state = AppState::new();
    let mut session = Session::new();
    let actions = session.handle_message_with(&mut state, join("   "), 7, 1000);
    assert_eq!(actions, vec![error("username required")]);
    assert_eq!(session, Session::Unauthenticated);
    assert_eq!(state.get_user_list(), Vec::<String>::new());
    assert_eq!(state.remove_user(7), None);
}

#[test]
fn joining_with_an_empty_name_is_refused() {
    let mut state = AppState::new();
    let mut session = Session::new();
    assert_eq!(session.handle_message(&mut state, join("")), vec![error("username required")]);
    assert_eq!(
        session.receive(&mut state, Inbound::Event(join("\n\t"))),
        vec![error("username required")]
    );
    assert_eq!(session, Session::Unauthenticated);
    assert_eq!(state.get_user_list(), Vec::<String>::new());
}

#[test]
fn joining_with_a_taken_name_is_refused() {
    let mut state = AppState::new();
    let mut a = Session::new();
    let mut b = Session::new();
    a.handle_message_with(&mut state, join("alice"), 1, 10);
    let actions = b.handle_message_with(&mut state, join("alice"), 2, 11);
    assert_eq!(actions, vec![error("name already taken")]);
    assert_eq!(b, Session::Unauthenticated);
    assert_eq!(state.get_user_list(), vec!["alice".to_string()]);
    assert_eq!(state.remove_user(2), None);
}

#[test]
fn a_refused_client_can_join_under_another_name() {
    let mut state = AppState::new();
    let mut a = Session::new();
    let mut b = Session::new();
    a.handle_message_with(&mut state, join("alice"), 1, 10);
    assert_eq!(b.handle_message_with(&mut state, join("alice"), 2, 11).len(), 1);
    assert_eq!(b.handle_message_with(&mut state, join(" "), 2, 12).len(), 1);
    let actions = b.handle_message_with(&mut state, join("bob"), 2, 13);
    assert_eq!(actions.len(), 3);
    assert_eq!(
        actions[2],
        Action::Publish(ServerMessage::UserJoined { username: "bob".to_string(), timestamp: 13 })
    );
    assert_eq!(b, joined(2, "bob"));
}

#[test]
fn nothing_is_published_before_the_join() {
    let mut state = AppState::new();
    state.add_user_with("alice".to_string(), 1, 10).unwrap();
    let mut session = Session::new();
    assert_eq!(session.handle_message_with(&mut state, say("hi"), 2, 11), vec![]);
    assert_eq!(session.handle_message_with(&mut state, ClientMessage::Typing, 2, 12), vec![]);
    assert_eq!(session.handle_message_with(&mut state, ClientMessage::StopTyping, 2, 13), vec![]);
    assert_eq!(session.handle_message(&mut state, say("hi")), vec![]);
    assert_eq!(session.receive(&mut state, Inbound::Event(ClientMessage::Typing)), vec![]);
    assert_eq!(session, Session::Unauthenticated);
    assert_eq!(state.get_user_list(), vec!["alice".to_string()]);
}

#[test]
fn nothing_is_published_after_a_refused_join() {
    let mut state = AppState::new();
    state.add_user_with("alice".to_string(), 1, 10).unwrap();
    let mut session = Session::new();
    session.handle_message_with(&mut state, join("alice"), 2, 11);
    assert_eq!(session.handle_message_with(&mut state, say("hi"), 2, 12), vec![]);
    assert_eq!(session.handle_message_with(&mut state, ClientMessage::Typing, 2, 13), vec![]);
}

#[test]
fn a_joined_session_relays_what_its_user_says() {
    let mut state = AppState::new();
    let mut session = Session::new();
    session.handle_message_with(&mut state, join("alice"), 1, 10);
    let actions = session.handle_message_with(&mut state, say("hi"), 99, 20);
    assert_eq!(
        actions,
        vec![Action::Publish(ServerMessage::Message(MessageData {
            username: "alice".to_string(),
            message: "hi".to_string(),
            timestamp: 20,
            msg_type: "user".to_string(),
        }))]
    );
    assert_eq!(session, joined(1, "alice"));
}

#[test]
fn a_joined_session_relays_an_empty_message() {
    let mut state = AppState::new();
    let mut session = joined(1, "alice");
    let actions = session.handle_message_with(&mut state, say(""), 0, 21);
    assert_eq!(
        actions,
        vec![Action::Publish(said_message("alice".to_string(), "".to_string(), 21))]
    );
}

#[test]
fn a_joined_session_relays_typing_notices() {
    let mut state = AppState::new();
    let mut session = Session::new();
    session.handle_message_with(&mut state, join("alice"), 1, 10);
    assert_eq!(
        session.handle_message_with(&mut state, ClientMessage::Typing, 0, 11),
        vec![Action::Publish(ServerMessage::Typing { username: "alice".to_string() })]
    );
    assert_eq!(
        session.handle_message_with(&mut state, ClientMessage::StopTyping, 0, 12),
        vec![Action::Publish(ServerMessage::StopTyping { username: "alice".to_string() })]
    );
    assert_eq!(session, joined(1, "alice"));
    assert_eq!(state.get_user_list(), vec!["alice".to_string()]);
}

#[test]
fn a_joined_session_ignores_a_second_join() {
    let mut state = AppState::new();
    let mut session = Session::new();
    session.handle_message_with(&mut state, join("alice"), 1, 10);
    assert_eq!(session.handle_message_with(&mut state, join("bob"), 2, 11), vec![]);
    assert_eq!(session.handle_message_with(&mut state, join("alice"), 2, 12), vec![]);
    assert_eq!(session.handle_message_with(&mut state, join(" "), 2, 13), vec![]);
    assert_eq!(session.handle_message(&mut state, join("carol")), vec![]);
    assert_eq!(session, joined(1, "alice"));
    assert_eq!(state.get_user_list(), vec!["alice".to_string()]);
}

#[test]
fn tearing_down_a_joined_session_announces_the_departure() {
    let mut state = AppState::new();
    let mut session = Session::new();
    session.handle_message_with(&mut state, join("alice"), 1, 10);
    let actions = session.disconnect_with(&mut state, 30);
    assert_eq!(
        actions,
        vec![Action::Publish(ServerMessage::UserLeft {
            username: "alice".to_string(),
            timestamp: 30,
        })]
    );
    assert_eq!(session, Session::Closed);
    assert!(session.is_closed());
    assert_eq!(state.get_user_list(), Vec::<String>::new());
}

#[test]
fn tearing_down_twice_announces_once() {
    let mut state = AppState::new();
    let mut a = Session::new();
    let mut b = Session::new();
    a.handle_message_with(&mut state, join("alice"), 1, 10);
    b.handle_message_with(&mut state, join("bob"), 2, 11);
    let first = a.disconnect_with(&mut state, 30);
    let second = a.disconnect_with(&mut state, 31);
    let third = a.disconnect(&mut state);
    assert_eq!(departures(&first), 1);
    assert_eq!(second, vec![]);
    assert_eq!(third, vec![]);
    assert_eq!(a, Session::Closed);
    assert_eq!(state.get_user_list(), vec!["bob".to_string()]);
}

#[test]
fn tearing_down_a_session_without_a_name_announces_nothing() {
    let mut state = AppState::new();
    state.add_user_with("alice".to_string(), 1, 10).unwrap();
    let mut session = Session::new();
    assert_eq!(session.disconnect_with(&mut state, 30), vec![]);
    assert_eq!(session, Session::Closed);
    assert_eq!(state.get_user_list(), vec!["alice".to_string()]);
}

#[test]
fn tearing_down_after_a_refused_join_announces_nothing() {
    let mut state = AppState::new();
    state.add_user_with("alice".to_string(), 1, 10).unwrap();
    let mut session = Session::new();
    session.handle_message_with(&mut state, join("alice"), 2, 11);
    assert_eq!(session.disconnect(&mut state), vec![]);
    assert_eq!(state.get_user_list(), vec!["alice".to_string()]);
}

#[test]
fn tearing_down_a_session_whose_user_is_gone_announces_nothing() {
    let mut state = AppState::new();
    let mut session = Session::new();
    session.handle_message_with(&mut state, join("alice"), 1, 10);
    assert!(state.remove_user(1).is_some());
    assert_eq!(session.disconnect_with(&mut state, 30), vec![]);
    assert_eq!(session, Session::Closed);
}

#[test]
fn the_departure_names_the_registered_user() {
    let mut state = AppState::new();
    state.add_user_with("alice".to_string(), 1, 10).unwrap();
    let mut session = joined(1, "somebody");
    assert_eq!(
        session.disconnect_with(&mut state, 30),
        vec![Action::Publish(ServerMessage::UserLeft {
            username: "alice".to_string(),
            timestamp: 30,
        })]
    );
}

#[test]
fn a_closed_session_ignores_everything() {
    let mut state = AppState::new();
    let mut session = Session::new();
    session.handle_message_with(&mut state, join("alice"), 1, 10);
    session.disconnect_with(&mut state, 20);
    assert_eq!(session.handle_message_with(&mut state, join("alice"), 2, 21), vec![]);
    assert_eq!(session.handle_message_with(&mut state, say("hi"), 2, 22), vec![]);
    assert_eq!(session.handle_message_with(&mut state, ClientMessage::Typing, 2, 23), vec![]);
    assert_eq!(session.handle_message_with(&mut state, ClientMessage::StopTyping, 2, 24), vec![]);
    assert_eq!(session.receive(&mut state, Inbound::Malformed), vec![]);
    assert_eq!(session.receive(&mut state, Inbound::Disconnected), vec![]);
    assert_eq!(session, Session::Closed);
    assert_eq!(state.get_user_list(), Vec::<String>::new());
}

#[test]
fn a_malformed_frame_changes_nothing() {
    let mut state = AppState::new();
    let mut fresh = Session::new();
    assert_eq!(fresh.receive(&mut state, Inbound::Malformed), vec![]);
    assert_eq!(fresh, Session::Unauthenticated);
    let mut session = Session::new();
    session.handle_message_with(&mut state, join("alice"), 1, 10);
    assert_eq!(session.receive(&mut state, Inbound::Malformed), vec![]);
    assert_eq!(session, joined(1, "alice"));
    assert_eq!(state.get_user_list(), vec!["alice".to_string()]);
}

#[test]
fn the_end_of_the_transport_tears_the_session_down() {
    let mut state = AppState::new();
    let mut session = Session::new();
    session.receive(&mut state, Inbound::Event(join("alice")));
    let before: u64 = current_timestamp();
    let actions = session.receive(&mut state, Inbound::Disconnected);
    let after: u64 = current_timestamp();
    assert_eq!(actions.len(), 1);
    match &actions[0] {
        Action::Publish(ServerMessage::UserLeft { username, timestamp }) => {
            assert_eq!(username, "alice");
            assert!(before <= *timestamp && *timestamp <= after);
        }
        other => panic!("expected a departure, got {:?}", other),
    }
    assert!(session.is_closed());
    assert_eq!(state.get_user_list(), Vec::<String>::new());
}

#[test]
fn a_join_by_the_clock_is_stamped_with_the_time_of_the_call() {
    let mut state = AppState::new();
    let mut session = Session::new();
    let before: u64 = current_timestamp();
    let actions = session.handle_message(&mut state, join("alice"));
    let after: u64 = current_timestamp();
    assert_eq!(actions.len(), 3);
    assert_eq!(
        actions[0],
        Action::Send(ServerMessage::UserList { users: vec!["alice".to_string()] })
    );
    let stamp: u64 = match &actions[2] {
        Action::Publish(ServerMessage::UserJoined { username, timestamp }) => {
            assert_eq!(username, "alice");
            *timestamp
        }
        other => panic!("expected an arrival, got {:?}", other),
    };
    assert!(before <= stamp && stamp <= after);
    assert_eq!(actions[1], Action::Send(welcome_message("alice", stamp)));
    match &session {
        Session::Joined { id, username } => {
            assert_eq!(username, "alice");
            assert_eq!((*id >> 76) & 0xf, 4);
            assert_eq!((*id >> 62) & 0x3, 2);
            assert!(state.remove_user(*id).is_some());
        }
        other => panic!("expected a joined session, got {:?}", other),
    }
}

#[test]
fn a_message_by_the_clock_is_stamped_with_the_time_of_the_call() {
    let mut state = AppState::new();
    let mut session = Session::new();
    session.handle_message(&mut state, join("alice"));
    let before: u64 = current_timestamp();
    let actions = session.handle_message(&mut state, say("hi"));
    let after: u64 = current_timestamp();
    assert_eq!(actions.len(), 1);
    match &actions[0] {
        Action::Publish(ServerMessage::Message(data)) => {
            assert_eq!(data.username, "alice");
            assert_eq!(data.message, "hi");
            assert_eq!(data.msg_type, "user");
            assert!(before <= data.timestamp && data.timestamp <= after);
        }
        other => panic!("expected a message, got {:?}", other),
    }
}

#[test]
fn arrivals_and_departures_pair_up() {
    let mut state = AppState::new();
    let mut sessions = vec![Session::new(), Session::new(), Session::new(), Session::new()];
    let names = vec!["alice", "bob", "alice", "  "];
    let mut log: Vec<Action> = Vec::new();
    let mut i: usize = 0;
    while i < sessions.len() {
        let step = sessions[i].handle_message_with(&mut state, join(names[i]), i as u128, 10);
        let succeeded = matches!(sessions[i], Session::Joined { .. });
        assert_eq!(arrivals(&step), if succeeded { 1 } else { 0 });
        assert_eq!(departures(&step), 0);
        log.extend(step);
        log.extend(sessions[i].handle_message_with(&mut state, say("hello"), 0, 11));
        i += 1;
    }
    assert_eq!(arrivals(&log), 2);
    for session in sessions.iter_mut() {
        let was_joined = matches!(session, Session::Joined { .. });
        let step = session.disconnect_with(&mut state, 20);
        assert_eq!(departures(&step), if was_joined { 1 } else { 0 });
        assert_eq!(publications(&step), departures(&step));
        log.extend(step);
        log.extend(session.disconnect_with(&mut state, 21));
    }
    assert_eq!(arrivals(&log), 2);
    assert_eq!(departures(&log), 2);
    assert_eq!(state.get_user_list(), Vec::<String>::new());
}
