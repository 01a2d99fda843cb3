//! One live game session: the two seats, their connection flags, the
//! opaque rule-engine position, and the append-only move history.

use vstd::prelude::*;
use crate::engine;
use crate::messages::Color;

verus! {

/// An element-wise copy of a move history, equal to what it copies.
pub fn clone_history(v: &Vec<String>) -> (r: Vec<String>)
    ensures
        r@ == v@,
{
    let mut r: Vec<String> = Vec::new();
    let mut i: usize = 0;
    while i < v.len()
        invariant
            0 <= i <= v.len(),
            r@ == v@.subrange(0, i as int),
        decreases v.len() - i,
    {
        r.push(v[i].clone());
        proof {
            assert(r@ =~= v@.subrange(0, i + 1));
        }
        i = i + 1;
    }
    proof {
        assert(r@ =~= v@);
    }
    r
}

/// State of one active session.
///
/// Its invariant, [`session_coherent`], ties the opaque position to the
/// history: `board` is exactly the position reached by applying `moves`
/// in order to the starting position. In particular the side to move in
/// `board` is White exactly when `moves.len()` is even, which is what
/// [`side_to_move`] computes.
pub struct ActiveGame {
    pub white_user_id: String,
    pub black_user_id: String,
    pub white_connected: bool,
    pub black_connected: bool,
    pub board: shakmaty::Chess,
    pub moves: Vec<String>,
    /// True while a deferred cleanup task is pending for this session;
    /// stands in for the cancellable task handle the runtime holds.
    pub cleanup_pending: bool,
}

/// The session invariant: the position is exactly the move history
/// replayed, in order, from the standard starting position.
pub open spec fn session_coherent(g: ActiveGame) -> bool {
    exists|b0: shakmaty::Chess|
        #[trigger] engine::is_initial_board(b0) && engine::replay_board(b0, g.moves@) == Some(
            g.board,
        )
}

/// The seat whose turn it is after `n` moves have been applied from the
/// starting position: White moves on even plies, Black on odd ones.
pub open spec fn spec_side_to_move(n: nat) -> Color {
    if n % 2 == 0 {
        Color::White
    } else {
        Color::Black
    }
}

/// Computes the side to move from the number of applied moves.
pub fn side_to_move(n: usize) -> (c: Color)
    ensures
        c == spec_side_to_move(n as nat),
{
    if n % 2 == 0 {
        Color::White
    } else {
        Color::Black
    }
}

impl ActiveGame {
    /// A fresh session: both seats known, nobody connected, the starting
    /// position, no moves, no pending cleanup.
    pub fn new(white_user_id: String, black_user_id: String) -> (g: ActiveGame)
        ensures
            g.white_user_id == white_user_id,
            g.black_user_id == black_user_id,
            !g.white_connected,
            !g.black_connected,
            g.moves@ == Seq::<String>::empty(),
            !g.cleanup_pending,
            engine::is_initial_board(g.board),
            session_coherent(g),
    {
        let g = ActiveGame {
            white_user_id,
            black_user_id,
            white_connected: false,
            black_connected: false,
            board: engine::new_board(),
            moves: Vec::new(),
            cleanup_pending: false,
        };
        proof {
            assert(session_coherent(g)) by {
                assert(engine::is_initial_board(g.board) && engine::replay_board(g.board, g.moves@)
                    == Some(g.board));
            }
        }
        g
    }

    /// Whether the given seat currently has a live connection.
    pub open spec fn seat_connected(self, color: Color) -> bool {
        match color {
            Color::White => self.white_connected,
            Color::Black => self.black_connected,
        }
    }

    /// Marks a seat connected. At most one live connection per seat: the
    /// seat must be free.
    pub fn connect(&mut self, color: Color)
        requires
            !old(self).seat_connected(color),
        ensures
            final(self).seat_connected(color),
            color == Color::White ==> *final(self) == (ActiveGame {
                white_connected: true,
                ..*old(self)
            }),
            color == Color::Black ==> *final(self) == (ActiveGame {
                black_connected: true,
                ..*old(self)
            }),
    {
        match color {
            Color::Black => {
                self.black_connected = true;
            }
            Color::White => {
                self.white_connected = true;
            }
        }
    }

    /// Marks a seat disconnected. The seat must currently be connected.
    pub fn disconnect(&mut self, color: Color)
        requires
            old(self).seat_connected(color),
        ensures
            !final(self).seat_connected(color),
            color == Color::White ==> *final(self) == (ActiveGame {
                white_connected: false,
                ..*old(self)
            }),
            color == Color::Black ==> *final(self) == (ActiveGame {
                black_connected: false,
                ..*old(self)
            }),
    {
        match color {
            Color::Black => {
                self.black_connected = false;
            }
            Color::White => {
                self.white_connected = false;
            }
        }
    }
}

} // verus!
