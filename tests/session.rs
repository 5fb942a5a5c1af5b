use tableturf::protocol::{ClientMessage, PublicPlayerInfo, ServerMessage};
use tableturf::registry::SharedState;
use tableturf::session::{ClientSession, ClientState, EventAction, GameEvent, LobbyAction};

fn hello(name: &str) -> ClientMessage {
    ClientMessage::HelloServer { info: PublicPlayerInfo { name: name.to_string() } }
}

fn joined(shared: &mut SharedState<u64>, id: u64, name: &str) -> ClientSession {
    let (session, reply) = ClientSession::handshake(shared, id, Some(hello(name)), id).unwrap();
    assert_eq!(reply, ServerMessage::HelloClient);
    session
}

#[test]
fn hello_is_answered_and_registers() {
    let mut shared = SharedState::new();
    let r = ClientSession::handshake(&mut shared, 1, Some(hello("Al")), 100);
    let (session, reply) = r.unwrap();
    assert_eq!(reply, ServerMessage::HelloClient);
    assert_eq!(session, ClientSession { id: 1, state: ClientState::InLobby });
    assert_eq!(shared.player_info(1), Some(PublicPlayerInfo { name: "Al".to_string() }));
    assert_eq!(shared.channel(1), Some(&100));
}

#[test]
fn disconnect_before_hello_leaves_no_trace() {
    let mut shared: SharedState<u64> = SharedState::new();
    assert!(ClientSession::handshake(&mut shared, 1, None, 100).is_none());
    assert!(!shared.is_registered(1));
    assert_eq!(shared.player_info(1), None);
    assert_eq!(shared.channel(1), None);
    shared.remove_connection(1);
    assert!(!shared.is_registered(1));
}

#[test]
fn other_first_message_is_refused() {
    let mut shared: SharedState<u64> = SharedState::new();
    assert!(ClientSession::handshake(&mut shared, 1, Some(ClientMessage::FindGame), 100).is_none());
    assert!(ClientSession::handshake(&mut shared, 1, Some(ClientMessage::Ping { number: 4 }), 100)
        .is_none());
    assert_eq!(shared.player_info(1), None);
    assert_eq!(shared.channel(1), None);
}

#[test]
fn find_game_in_lobby_waits_then_pairs() {
    let mut shared = SharedState::new();
    let mut al = joined(&mut shared, 1, "Al");
    let mut bo = joined(&mut shared, 2, "Bo");
    assert_eq!(al.on_message(&mut shared, &ClientMessage::FindGame), LobbyAction::Wait);
    assert_eq!(al.state, ClientState::Matchmaking);
    assert_eq!(shared.hotseat(), Some(1));
    assert_eq!(bo.on_message(&mut shared, &ClientMessage::FindGame), LobbyAction::StartGame(2, 1));
    assert_eq!(bo.state, ClientState::Matchmaking);
    assert_eq!(shared.hotseat(), None);
}

#[test]
fn messages_out_of_turn_are_ignored() {
    let mut shared = SharedState::new();
    let mut al = joined(&mut shared, 1, "Al");
    assert_eq!(al.on_message(&mut shared, &ClientMessage::Ready), LobbyAction::Ignore);
    assert_eq!(al.on_message(&mut shared, &hello("Al")), LobbyAction::Ignore);
    assert_eq!(al.state, ClientState::InLobby);
    assert_eq!(al.on_message(&mut shared, &ClientMessage::FindGame), LobbyAction::Wait);
    assert_eq!(al.on_message(&mut shared, &ClientMessage::FindGame), LobbyAction::Ignore);
    assert_eq!(al.state, ClientState::Matchmaking);
    assert_eq!(shared.hotseat(), Some(1));
}

#[test]
fn match_found_hands_over_the_connection() {
    let mut s = ClientSession { id: 3, state: ClientState::Matchmaking };
    assert!(s.reads_client());
    match s.on_event(Some(GameEvent::MatchFound(42u32))) {
        EventAction::HandOver(reply) => assert_eq!(reply, 42),
        _ => panic!("expected a hand-over"),
    }
    assert_eq!(s.state, ClientState::InGame);
    assert!(!s.reads_client());
    assert!(matches!(s.on_event(Some(GameEvent::<u32>::GameEnded)), EventAction::Resume));
    assert_eq!(s.state, ClientState::InLobby);
    assert!(s.reads_client());
}

#[test]
fn failed_hand_over_returns_to_lobby() {
    let mut s = ClientSession { id: 3, state: ClientState::InGame };
    s.handover_failed();
    assert_eq!(s, ClientSession { id: 3, state: ClientState::InLobby });
}

#[test]
fn closed_event_channel_ends_the_wait_for_game_end() {
    let mut s = ClientSession { id: 3, state: ClientState::InGame };
    assert!(matches!(s.on_event::<u32>(None), EventAction::Resume));
    assert_eq!(s.state, ClientState::InLobby);
    assert!(matches!(s.on_event::<u32>(None), EventAction::Continue));
    assert_eq!(s.state, ClientState::InLobby);
}

#[test]
fn unexpected_events_abort() {
    let mut lobby = ClientSession { id: 3, state: ClientState::InLobby };
    assert!(matches!(lobby.on_event(Some(GameEvent::MatchFound(1u32))), EventAction::Abort));
    assert_eq!(lobby.state, ClientState::InLobby);
    let mut waiting = ClientSession { id: 3, state: ClientState::Matchmaking };
    assert!(matches!(waiting.on_event(Some(GameEvent::<u32>::GameEnded)), EventAction::Abort));
    let mut playing = ClientSession { id: 3, state: ClientState::InGame };
    assert!(matches!(playing.on_event(Some(GameEvent::MatchFound(1u32))), EventAction::Abort));
    assert_eq!(playing.state, ClientState::InGame);
}

#[test]
fn five_requests_start_two_games_in_arrival_order() {
    let mut shared = SharedState::new();
    let names = ["A", "B", "C", "D", "E"];
    let mut sessions: Vec<ClientSession> = Vec::new();
    for (i, name) in names.iter().enumerate() {
        sessions.push(joined(&mut shared, 10 + i as u64, name));
    }
    let mut actions = Vec::new();
    for s in sessions.iter_mut() {
        actions.push(s.on_message(&mut shared, &ClientMessage::FindGame));
    }
    assert_eq!(
        actions,
        vec![
            LobbyAction::Wait,
            LobbyAction::StartGame(11, 10),
            LobbyAction::Wait,
            LobbyAction::StartGame(13, 12),
            LobbyAction::Wait,
        ]
    );
    assert_eq!(shared.hotseat(), Some(14));
    for s in &sessions {
        assert_eq!(s.state, ClientState::Matchmaking);
    }
}
