use chess_server::{
    ActiveGame, AuthOutcome, AuthStep, ClientMessage, Color, Error, GameOutcome, InitBody,
    Inbound, MoveOutcome, ReadStep, ServerMessage, SessionStore, side_to_move,
};

fn init(store: &mut SessionStore, gid: &str, white: &str, black: &str) {
    assert!(store.init_session(InitBody {
        game_id: gid.to_string(),
        white_user_id: white.to_string(),
        black_user_id: black.to_string(),
    }));
}

#[test]
fn init_session_refuses_existing_id() {
    let mut st = SessionStore::new();
    init(&mut st, "g", "w", "b");
    assert!(!st.init_session(InitBody {
        game_id: "g".to_string(),
        white_user_id: "other".to_string(),
        black_user_id: "seats".to_string(),
    }));
    // the original session is untouched
    match st.authenticate(&"g".to_string(), &"w".to_string()) {
        AuthOutcome::Granted { color, .. } => assert_eq!(color, Color::White),
        other => panic!("expected granted, got {:?}", other),
    }
}

#[test]
fn auth_unknown_session_and_no_mirror_row_is_unauthorized() {
    let mut st = SessionStore::new();
    let step = st.auth_step(Inbound::Frame(ClientMessage::Auth {
        game_id: "missing".to_string(),
        user_id: "who".to_string(),
    }));
    let (gid, uid) = match step {
        AuthStep::NeedMirror { game_id, user_id } => (game_id, user_id),
        other => panic!("expected a store miss, got {:?}", other),
    };
    let step = st.auth_after_mirror(gid, uid, None);
    assert_eq!(
        step,
        AuthStep::Denied { message: ServerMessage::Error(Error::Unauthorized) }
    );
    assert!(!st.has_session(&"missing".to_string()));
}

#[test]
fn auth_mirror_row_rehydrates_and_grants() {
    let mut st = SessionStore::new();
    let step = st.auth_after_mirror(
        "g9".to_string(),
        "bob".to_string(),
        Some(("ann".to_string(), "bob".to_string())),
    );
    match step {
        AuthStep::Granted { game_id, color, reply } => {
            assert_eq!(game_id, "g9");
            assert_eq!(color, Color::Black);
            assert_eq!(reply.len(), 2);
            assert_eq!(reply[0], ServerMessage::AuthSuccess);
            assert_eq!(reply[1], ServerMessage::MoveHistory(vec![]));
        }
        other => panic!("expected granted, got {:?}", other),
    }
    assert!(st.has_session(&"g9".to_string()));
}

#[test]
fn auth_wrong_user_is_unauthorized() {
    let mut st = SessionStore::new();
    init(&mut st, "g", "w", "b");
    assert_eq!(
        st.authenticate(&"g".to_string(), &"brown".to_string()),
        AuthOutcome::Unauthorized
    );
}

#[test]
fn auth_non_auth_message_is_fatal() {
    let mut st = SessionStore::new();
    init(&mut st, "g", "w", "b");
    let step = st.auth_step(Inbound::Frame(ClientMessage::Move("e4".to_string())));
    assert_eq!(
        step,
        AuthStep::Denied { message: ServerMessage::Error(Error::Unauthorized) }
    );
    let step = st.auth_step(Inbound::Malformed);
    assert_eq!(
        step,
        AuthStep::Denied { message: ServerMessage::Error(Error::Deserialization) }
    );
    let step = st.auth_step(Inbound::Closed);
    assert_eq!(
        step,
        AuthStep::Denied { message: ServerMessage::Error(Error::Unauthorized) }
    );
}

#[test]
fn same_seat_granted_exactly_once() {
    let mut st = SessionStore::new();
    init(&mut st, "g", "w", "b");
    match st.authenticate(&"g".to_string(), &"b".to_string()) {
        AuthOutcome::Granted { color, .. } => assert_eq!(color, Color::Black),
        other => panic!("expected granted, got {:?}", other),
    }
    // the second connection claiming the same seat is rejected
    assert_eq!(
        st.authenticate(&"g".to_string(), &"b".to_string()),
        AuthOutcome::Unauthorized
    );
    // the other seat is still free
    match st.authenticate(&"g".to_string(), &"w".to_string()) {
        AuthOutcome::Granted { color, .. } => assert_eq!(color, Color::White),
        other => panic!("expected granted, got {:?}", other),
    }
}

#[test]
fn first_move_history_is_empty() {
    let mut st = SessionStore::new();
    init(&mut st, "g", "w", "b");
    let step = st.auth_step(Inbound::Frame(ClientMessage::Auth {
        game_id: "g".to_string(),
        user_id: "w".to_string(),
    }));
    match step {
        AuthStep::Granted { reply, .. } => {
            assert_eq!(reply[0], ServerMessage::AuthSuccess);
            assert_eq!(reply[1], ServerMessage::MoveHistory(vec![]));
        }
        other => panic!("expected granted, got {:?}", other),
    }
}

#[test]
fn move_out_of_turn_is_local_error_and_leaves_state() {
    let mut st = SessionStore::new();
    init(&mut st, "g", "w", "b");
    // black moves first: out of turn
    assert_eq!(
        st.submit_move(&"g".to_string(), Color::Black, "e5".to_string()),
        MoveOutcome::Rejected(Error::InvalidTurn)
    );
    // history still empty: position and moves unchanged
    match st.authenticate(&"g".to_string(), &"b".to_string()) {
        AuthOutcome::Granted { history, .. } => assert_eq!(history.len(), 0),
        other => panic!("expected granted, got {:?}", other),
    }
    // white can still play
    match st.submit_move(&"g".to_string(), Color::White, "e4".to_string()) {
        MoveOutcome::Applied { broadcast } => {
            assert_eq!(broadcast, vec![ServerMessage::Move("e4".to_string())]);
        }
        other => panic!("expected applied, got {:?}", other),
    }
}

#[test]
fn unparsable_and_illegal_moves_are_rejected() {
    let mut st = SessionStore::new();
    init(&mut st, "g", "w", "b");
    assert_eq!(
        st.submit_move(&"g".to_string(), Color::White, "abc".to_string()),
        MoveOutcome::Rejected(Error::InvalidMove)
    );
    // syntactically fine but illegal from the starting position
    assert_eq!(
        st.submit_move(&"g".to_string(), Color::White, "e5".to_string()),
        MoveOutcome::Rejected(Error::InvalidMove)
    );
    assert_eq!(
        st.submit_move(&"g".to_string(), Color::White, "Qh5".to_string()),
        MoveOutcome::Rejected(Error::InvalidMove)
    );
}

#[test]
fn move_loop_classifies_inbound_events() {
    let mut st = SessionStore::new();
    init(&mut st, "g", "w", "b");
    let gid = "g".to_string();
    assert_eq!(
        st.move_step(&gid, Color::White, Inbound::Malformed),
        ReadStep::Local(ServerMessage::Error(Error::Deserialization))
    );
    assert_eq!(
        st.move_step(&gid, Color::White, Inbound::Frame(ClientMessage::Ping)),
        ReadStep::Ignored
    );
    assert_eq!(
        st.move_step(
            &gid,
            Color::White,
            Inbound::Frame(ClientMessage::Auth {
                game_id: "g".to_string(),
                user_id: "w".to_string(),
            })
        ),
        ReadStep::Ignored
    );
    assert_eq!(
        st.move_step(&"gone".to_string(), Color::White, Inbound::Frame(
            ClientMessage::Move("e4".to_string())
        )),
        ReadStep::NoSession
    );
}

#[test]
fn abandoned_session_stays_queryable_until_cleanup_fires() {
    let mut st = SessionStore::new();
    init(&mut st, "g", "w", "b");
    assert!(matches!(
        st.authenticate(&"g".to_string(), &"w".to_string()),
        AuthOutcome::Granted { .. }
    ));
    assert!(matches!(
        st.authenticate(&"g".to_string(), &"b".to_string()),
        AuthOutcome::Granted { .. }
    ));
    // first seat leaves: other still connected, no cleanup armed
    assert!(!st.disconnect_seat(&"g".to_string(), Color::White));
    // second seat leaves: both free, cleanup armed exactly once
    assert!(st.disconnect_seat(&"g".to_string(), Color::Black));
    // before the timer fires the session is still queryable
    assert!(st.has_session(&"g".to_string()));
    // a later abandonment does not arm a second timer
    assert!(matches!(
        st.authenticate(&"g".to_string(), &"w".to_string()),
        AuthOutcome::Granted { .. }
    ));
    assert!(!st.disconnect_seat(&"g".to_string(), Color::White));
    // the timer fires: the session is gone
    assert!(st.remove(&"g".to_string()).is_some());
    assert!(!st.has_session(&"g".to_string()));
    assert!(st.remove(&"g".to_string()).is_none());
}

#[test]
fn list_sessions_dumps_all_rows() {
    let mut st = SessionStore::new();
    init(&mut st, "g1", "w1", "b1");
    init(&mut st, "g2", "w2", "b2");
    let rows = st.list_sessions();
    assert_eq!(rows.len(), 2);
    assert_eq!(rows[0], ("g1".to_string(), "b1".to_string(), "w1".to_string()));
    assert_eq!(rows[1], ("g2".to_string(), "b2".to_string(), "w2".to_string()));
}

#[test]
fn seat_connected_tracks_the_live_connection() {
    let mut st = SessionStore::new();
    init(&mut st, "g", "w", "b");
    let gid = "g".to_string();
    assert!(!st.seat_connected(&gid, Color::White));
    assert!(!st.seat_connected(&gid, Color::Black));
    assert!(matches!(
        st.authenticate(&gid, &"w".to_string()),
        AuthOutcome::Granted { .. }
    ));
    assert!(st.seat_connected(&gid, Color::White));
    assert!(!st.seat_connected(&gid, Color::Black));
    assert!(!st.seat_connected(&"gone".to_string(), Color::White));
}

#[test]
fn seat_flags_track_connect_and_disconnect() {
    let mut g = ActiveGame::new("w".to_string(), "b".to_string());
    assert!(!g.white_connected && !g.black_connected);
    assert_eq!(g.moves.len(), 0);
    assert!(!g.cleanup_pending);
    g.connect(Color::White);
    assert!(g.white_connected && !g.black_connected);
    g.connect(Color::Black);
    assert!(g.white_connected && g.black_connected);
    g.disconnect(Color::White);
    assert!(!g.white_connected && g.black_connected);
}

#[test]
fn side_to_move_alternates_by_ply() {
    assert_eq!(side_to_move(0), Color::White);
    assert_eq!(side_to_move(1), Color::Black);
    assert_eq!(side_to_move(2), Color::White);
    assert_eq!(side_to_move(7), Color::Black);
}

#[test]
fn is_game_end_marks_only_game_end() {
    assert!(ServerMessage::GameEnd(GameOutcome::Draw).is_game_end());
    assert!(ServerMessage::GameEnd(GameOutcome::Win(Color::White)).is_game_end());
    assert!(!ServerMessage::AuthSuccess.is_game_end());
    assert!(!ServerMessage::Move("e4".to_string()).is_game_end());
    assert!(!ServerMessage::Error(Error::InvalidMove).is_game_end());
}
