//! Adapter to the third-party chess rule engine.
//!
//! The core never reimplements chess rules: parsing a move in standard
//! algebraic notation, validating it against a position, applying it, and
//! detecting terminal outcomes are all delegated to the `shakmaty` crate
//! through the trusted items below. A position is opaque to the rest of
//! the library, but each engine operation is a function of its arguments
//! alone, so each result carries a name, and the protocol's contracts
//! speak of those names exactly.

use vstd::prelude::*;
use crate::messages::{Color, GameOutcome};

verus! {

/// A chess position, the opaque rule-engine state of one session.
#[verifier::external_type_specification]
#[verifier::external_body]
pub struct ExChess(shakmaty::Chess);

/// A move written in standard algebraic notation, parsed but not yet
/// validated against a position.
#[verifier::external_type_specification]
#[verifier::external_body]
pub struct ExSan(shakmaty::san::San);

/// A fully determined move, produced only by validation against a
/// position.
#[verifier::external_type_specification]
#[verifier::external_body]
pub struct ExMove(shakmaty::Move);

/// Whether a position is the standard starting position, the value
/// `shakmaty::Chess::default` returns.
pub uninterp spec fn is_initial_board(b: shakmaty::Chess) -> bool;

/// What parsing a notation as standard algebraic notation returns.
pub uninterp spec fn spec_parse_san(notation: Seq<char>) -> Option<shakmaty::san::San>;

/// What validating a parsed notation against a position returns: the
/// unique legal move it denotes there, if any.
pub uninterp spec fn spec_to_move(san: shakmaty::san::San, board: shakmaty::Chess) -> Option<
    shakmaty::Move,
>;

/// What playing a move on a position returns: the next position when the
/// move is legal, nothing when it is not.
pub uninterp spec fn spec_play(board: shakmaty::Chess, m: shakmaty::Move) -> Option<
    shakmaty::Chess,
>;

/// What the engine's termination test returns for a position: the
/// outcome when the game there is over, nothing while it goes on.
pub uninterp spec fn spec_outcome(board: shakmaty::Chess) -> Option<GameOutcome>;

/// The position a notation leads to from `board`: parse, validate,
/// apply — `None` as soon as one step refuses.
pub open spec fn board_after_move(board: shakmaty::Chess, notation: Seq<char>) -> Option<
    shakmaty::Chess,
> {
    match spec_parse_san(notation) {
        Some(san) => match spec_to_move(san, board) {
            Some(m) => spec_play(board, m),
            None => None,
        },
        None => None,
    }
}

/// Whether the engine accepts the notation against the position.
pub open spec fn engine_accepts(board: shakmaty::Chess, notation: Seq<char>) -> bool {
    board_after_move(board, notation) is Some
}

/// The position reached by replaying a move history, in order, from
/// `board`; `None` if some move of it is refused along the way.
pub open spec fn replay_board(board: shakmaty::Chess, moves: Seq<String>) -> Option<
    shakmaty::Chess,
>
    decreases moves.len(),
{
    if moves.len() == 0 {
        Some(board)
    } else {
        match replay_board(board, moves.drop_last()) {
            Some(b) => board_after_move(b, moves.last()@),
            None => None,
        }
    }
}

/// Relies on `shakmaty::Chess::default`: the standard starting position,
/// with White to move.
#[verifier::external_body]
pub fn new_board() -> (b: shakmaty::Chess)
    ensures
        is_initial_board(b),
{
    shakmaty::Chess::default()
}

/// Relies on `str::parse::<shakmaty::san::San>`: `Some` exactly when the
/// notation is syntactically valid standard algebraic notation. The
/// result depends on the characters alone.
#[verifier::external_body]
pub fn parse_san(notation: &str) -> (r: Option<shakmaty::san::San>)
    ensures
        r == spec_parse_san(notation@),
{
    match notation.parse::<shakmaty::san::San>() {
        Ok(san) => Some(san),
        Err(_) => None,
    }
}

/// Relies on `shakmaty::san::San::to_move`: `Some` exactly when the
/// notation denotes a unique legal move in the given position. The
/// result depends on the notation and the position alone.
#[verifier::external_body]
pub fn san_to_move(san: &shakmaty::san::San, board: &shakmaty::Chess) -> (r: Option<
    shakmaty::Move,
>)
    ensures
        r == spec_to_move(*san, *board),
{
    match san.to_move(board) {
        Ok(m) => Some(m),
        Err(_) => None,
    }
}

/// Relies on `shakmaty::Position::play`: the position after the move
/// when it is legal, `None` when it is not (never panics, unlike
/// `play_unchecked`). The result depends on the position and the move
/// alone.
#[verifier::external_body]
pub fn play_move(board: &shakmaty::Chess, m: &shakmaty::Move) -> (r: Option<shakmaty::Chess>)
    ensures
        r == spec_play(*board, *m),
{
    match shakmaty::Position::play(board.clone(), m) {
        Ok(next) => Some(next),
        Err(_) => None,
    }
}

/// Relies on `shakmaty::Position::outcome`: `Some` exactly when the game
/// has ended (checkmate gives a win for the mating side, stalemate and
/// insufficient material give a draw). The result depends on the
/// position alone.
#[verifier::external_body]
pub fn board_outcome(board: &shakmaty::Chess) -> (r: Option<GameOutcome>)
    ensures
        r == spec_outcome(*board),
{
    match shakmaty::Position::outcome(board) {
        Some(shakmaty::Outcome::Decisive { winner }) => {
            match winner {
                shakmaty::Color::White => Some(GameOutcome::Win(Color::White)),
                shakmaty::Color::Black => Some(GameOutcome::Win(Color::Black)),
            }
        }
        Some(shakmaty::Outcome::Draw) => Some(GameOutcome::Draw),
        None => None,
    }
}

} // verus!
