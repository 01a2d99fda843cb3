use chess_server::{
    AuthOutcome, Color, Error, GameOutcome, InitBody, MoveOutcome, ServerMessage, SessionStore,
};

#[test]
fn scholars_mate_ends_with_white_win() {
    // End-to-end: seats White="white", Black="black"; seven moves
    // submitted alternately by the correct seat are all accepted, the
    // history holds all seven, and the seventh broadcasts the move and
    // then GameEnd(Win(White)).
    let mut st = SessionStore::new();
    assert!(st.init_session(InitBody {
        game_id: "game".to_string(),
        white_user_id: "white".to_string(),
        black_user_id: "black".to_string(),
    }));
    let gid = "game".to_string();
    assert!(matches!(
        st.authenticate(&gid, &"white".to_string()),
        AuthOutcome::Granted { color: Color::White, .. }
    ));
    assert!(matches!(
        st.authenticate(&gid, &"black".to_string()),
        AuthOutcome::Granted { color: Color::Black, .. }
    ));

    let moves = ["e4", "e5", "Qh5", "Nc6", "Bc4", "Nf6", "Qxf7#"];
    for (i, notation) in moves.iter().enumerate() {
        let mover = if i % 2 == 0 { Color::White } else { Color::Black };
        let outcome = st.submit_move(&gid, mover, notation.to_string());
        let broadcast = match outcome {
            MoveOutcome::Applied { broadcast } => broadcast,
            other => panic!("move {} ({}) not accepted: {:?}", i + 1, notation, other),
        };
        assert_eq!(broadcast[0], ServerMessage::Move(notation.to_string()));
        if i < 6 {
            assert_eq!(broadcast.len(), 1);
        } else {
            // the mating move also ends the game, for both connections
            assert_eq!(broadcast.len(), 2);
            assert_eq!(broadcast[1], ServerMessage::GameEnd(GameOutcome::Win(Color::White)));
            assert!(broadcast[1].is_game_end());
        }
    }

    // a reconnecting client replays the full history
    assert!(st.disconnect_seat(&gid, Color::White) == false);
    match st.authenticate(&gid, &"white".to_string()) {
        AuthOutcome::Granted { history, .. } => {
            let expected: Vec<String> = moves.iter().map(|m| m.to_string()).collect();
            assert_eq!(history, expected);
        }
        other => panic!("expected granted, got {:?}", other),
    }
}

#[test]
fn alternating_play_with_rejections_matches_protocol() {
    // A session where bad submissions interleave with one good move:
    // rejected moves leave the position and the turn unchanged.
    let mut st = SessionStore::new();
    assert!(st.init_session(InitBody {
        game_id: "game2".to_string(),
        white_user_id: "white".to_string(),
        black_user_id: "black".to_string(),
    }));
    let gid = "game2".to_string();
    // black tries to move first
    assert_eq!(
        st.submit_move(&gid, Color::Black, "e5".to_string()),
        MoveOutcome::Rejected(Error::InvalidTurn)
    );
    // white submits junk, then an illegal move
    assert_eq!(
        st.submit_move(&gid, Color::White, "abc".to_string()),
        MoveOutcome::Rejected(Error::InvalidMove)
    );
    assert_eq!(
        st.submit_move(&gid, Color::White, "e5".to_string()),
        MoveOutcome::Rejected(Error::InvalidMove)
    );
    // a legal move goes through
    assert!(matches!(
        st.submit_move(&gid, Color::White, "d4".to_string()),
        MoveOutcome::Applied { .. }
    ));
    // and now it is black's turn: white is rejected
    assert_eq!(
        st.submit_move(&gid, Color::White, "e4".to_string()),
        MoveOutcome::Rejected(Error::InvalidTurn)
    );
    // black answers
    assert!(matches!(
        st.submit_move(&gid, Color::Black, "d5".to_string()),
        MoveOutcome::Applied { .. }
    ));
}

#[test]
fn stalemate_like_draw_is_reported_as_draw() {
    // The quickest stalemate: after 10 plies black has no legal move and
    // is not in check; the tenth broadcast carries GameEnd(Draw).
    let mut st = SessionStore::new();
    assert!(st.init_session(InitBody {
        game_id: "game3".to_string(),
        white_user_id: "w".to_string(),
        black_user_id: "b".to_string(),
    }));
    let gid = "game3".to_string();
    let moves = ["e3", "a5", "Qh5", "Ra6", "Qxa5", "h5", "Qxc7", "Rah6", "h4", "f6", "Qxd7+", "Kf7", "Qxb7", "Qd3", "Qxb8", "Qh7", "Qxc8", "Kg6", "Qe6"];
    for (i, notation) in moves.iter().enumerate() {
        let mover = if i % 2 == 0 { Color::White } else { Color::Black };
        let outcome = st.submit_move(&gid, mover, notation.to_string());
        let broadcast = match outcome {
            MoveOutcome::Applied { broadcast } => broadcast,
            other => panic!("move {} ({}) not accepted: {:?}", i + 1, notation, other),
        };
        if i < moves.len() - 1 {
            assert_eq!(broadcast.len(), 1, "premature end after {}", notation);
        } else {
            assert_eq!(broadcast.len(), 2);
            assert_eq!(broadcast[1], ServerMessage::GameEnd(GameOutcome::Draw));
        }
    }
}
