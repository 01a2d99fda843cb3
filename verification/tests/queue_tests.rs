use chess_server::{Color, MatchQueue, MatchResponse, fresh_game_id, pair_replies};

#[test]
fn enqueue_pairs_in_fifo_order_with_opposite_colors() {
    // Four distinct requests pair exactly once each, preserving arrival
    // order within each pair, the same game id with opposite colors.
    let mut q = MatchQueue::new();
    assert!(q.enqueue("a".to_string()));
    assert!(q.enqueue("b".to_string()));
    assert!(q.enqueue("c".to_string()));
    assert!(q.enqueue("d".to_string()));

    let (w1, b1) = q.pop_pair().expect("two waiting");
    assert_eq!(w1, "a");
    assert_eq!(b1, "b");
    let gid1 = fresh_game_id();
    let (r_w, r_b) = pair_replies(&gid1, None);
    assert_eq!(
        r_w,
        MatchResponse::Matched { game_id: gid1.clone(), color: Color::White }
    );
    assert_eq!(
        r_b,
        MatchResponse::Matched { game_id: gid1.clone(), color: Color::Black }
    );

    let (w2, b2) = q.pop_pair().expect("two waiting");
    assert_eq!(w2, "c");
    assert_eq!(b2, "d");
    assert_eq!(q.len(), 0);
    assert_eq!(q.pop_pair(), None);
}

#[test]
fn duplicate_request_rejected_without_affecting_original() {
    let mut q = MatchQueue::new();
    assert!(q.enqueue("alice".to_string()));
    assert!(!q.enqueue("alice".to_string()));
    assert_eq!(q.len(), 1);
    assert!(q.enqueue("bob".to_string()));
    // the original request still pairs first, in its arrival position
    let (w, b) = q.pop_pair().expect("two waiting");
    assert_eq!(w, "alice");
    assert_eq!(b, "bob");
}

#[test]
fn withdraw_removes_entry_without_residual_effect() {
    let mut q = MatchQueue::new();
    assert!(q.enqueue("a".to_string()));
    assert!(q.enqueue("b".to_string()));
    assert!(q.enqueue("c".to_string()));
    q.withdraw(&"b".to_string());
    assert_eq!(q.len(), 2);
    assert!(!q.contains(&"b".to_string()));
    // later pairings see only the remaining waiters, in order
    let (w, b) = q.pop_pair().expect("two waiting");
    assert_eq!(w, "a");
    assert_eq!(b, "c");
}

#[test]
fn withdraw_is_idempotent() {
    let mut q = MatchQueue::new();
    assert!(q.enqueue("a".to_string()));
    q.withdraw(&"gone".to_string());
    q.withdraw(&"gone".to_string());
    assert_eq!(q.len(), 1);
    assert!(q.contains(&"a".to_string()));
}

#[test]
fn pop_pair_needs_two_waiters() {
    let mut q = MatchQueue::new();
    assert_eq!(q.pop_pair(), None);
    assert!(q.enqueue("solo".to_string()));
    assert_eq!(q.pop_pair(), None);
    assert_eq!(q.len(), 1);
}

#[test]
fn pair_replies_on_mirror_failure_are_errors() {
    let gid = "some-game".to_string();
    let (r_w, r_b) = pair_replies(&gid, Some("insertion failed".to_string()));
    assert!(r_w.is_err());
    assert!(r_b.is_err());
    assert_eq!(r_w, MatchResponse::Failed("insertion failed".to_string()));
    assert_eq!(r_b, MatchResponse::Failed("insertion failed".to_string()));
}

#[test]
fn is_err_distinguishes_outcomes() {
    let ok = MatchResponse::Matched { game_id: "g".to_string(), color: Color::White };
    assert!(!ok.is_err());
    assert!(MatchResponse::Failed("x".to_string()).is_err());
}

#[test]
fn fresh_game_id_is_hyphenated_uuid_text() {
    let id = fresh_game_id();
    assert_eq!(id.len(), 36);
    // a second call draws a fresh identifier
    let id2 = fresh_game_id();
    assert_eq!(id2.len(), 36);
    assert_ne!(id, id2);
}
