//! Real-time backend core for a two-player chess service: a matchmaking
//! queue that pairs waiting players, a session store that tracks live
//! games, and the protocol rules that authenticate seats, enforce turn
//! order, and fan out moves to both participants.

use vstd::prelude::*;

mod engine;
mod laws;
mod messages;
mod protocol;
mod queue;
mod session;
mod store;

pub use laws::fifo_pairs;
pub use laws::pair_slot;
pub use laws::lemma_fifo_pairing;
pub use laws::lemma_withdraw_absent;
pub use laws::lemma_same_seat_once;
pub use laws::lemma_first_history_empty;
pub use laws::lemma_session_survives_disconnect;
pub use queue::MatchQueue;
pub use queue::MatchRequest;
pub use queue::MatchResponse;
pub use queue::fresh_game_id;
pub use queue::keeps;
pub use queue::pair_replies;
pub use protocol::AuthStep;
pub use protocol::Inbound;
pub use protocol::auth_denied;
pub use protocol::auth_granted;
pub use protocol::auth_after_mirror_spec;
pub use protocol::auth_seat_fresh;
pub use protocol::auth_step_spec;
pub use protocol::ReadStep;
pub use protocol::move_applied_spec;
pub use protocol::move_step_spec;
pub use store::AuthOutcome;
pub use store::InitBody;
pub use store::MoveOutcome;
pub use store::SessionStore;
pub use store::auth_seat;
pub use engine::board_after_move;
pub use engine::engine_accepts;
pub use engine::is_initial_board;
pub use engine::replay_board;
pub use engine::spec_outcome;
pub use engine::spec_parse_san;
pub use engine::spec_play;
pub use engine::spec_to_move;
pub use store::fresh_session_for;
pub use store::with_seat_connected;
pub use store::with_seat_disconnected;

pub use session::ActiveGame;
pub use session::session_coherent;
pub use session::side_to_move;
pub use session::spec_side_to_move;
pub use messages::Color;
pub use messages::Error;
pub use messages::ClientMessage;
pub use messages::GameOutcome;
pub use messages::ServerMessage;

verus! {

/// Capacity of each per-session broadcast channel.
pub const MAX_CHANNEL_CAPACITY: usize = 64;

/// Upper bound on buffered matchmaking notifications.
pub const MAX_CHANNEL_SIZE: usize = 4096;

/// Upper bound on concurrent connections to the durable mirror.
pub const MAX_DB_CONNECTIONS: u32 = 5;

/// Seconds an abandoned session stays resident before eviction.
pub const DEFERRED_REMOVAL_DURATION: u64 = 60;

} // verus!
