//! The per-connection protocol engine: an authentication handshake
//! followed by a move loop.
//!
//! The surrounding runtime owns the socket, the channels and the tasks;
//! it reduces everything it reads to an [`Inbound`] event and performs
//! the actions each step decides: sending the reply messages to this
//! connection, broadcasting to both seats, consulting the durable mirror
//! on a store miss, or closing.

use vstd::prelude::*;
use crate::engine::{board_after_move, engine_accepts, spec_outcome};
use crate::messages::{ClientMessage, Color, Error, ServerMessage};
use crate::session::ActiveGame;
use crate::session::spec_side_to_move;
use crate::store::{
    AuthOutcome, MoveOutcome, SessionStore, auth_seat, fresh_session_for, with_seat_connected,
};

verus! {

/// What one step of the inbound move loop decided.
#[derive(Debug, PartialEq)]
pub enum ReadStep {
    /// Send this message to the submitting connection only; the session
    /// is untouched and the connection stays open.
    Local(ServerMessage),
    /// The move was accepted: broadcast these messages, in order, to
    /// both seats.
    Broadcast(Vec<ServerMessage>),
    /// The message asks nothing of the move loop (a repeated `Auth`, a
    /// `Ping`, or the end of the stream): nothing happens.
    Ignored,
    /// The session vanished although authentication pinned it: an
    /// internal-consistency violation; the runtime fails loudly.
    NoSession,
}

/// How an accepted move changed the store (`s0` to `s1`) and what it
/// broadcast: the position of `gid` advances to what the engine returns
/// for the notation, the notation is appended to the history, nothing
/// else of the session or of the other sessions changes, and the
/// messages are the move followed by `GameEnd` carrying the engine's
/// outcome exactly when it reports the game over.
pub open spec fn move_applied_spec(
    s0: SessionStore,
    s1: SessionStore,
    gid: Seq<char>,
    color: Color,
    notation: String,
    msgs: Seq<ServerMessage>,
) -> bool {
    let idx = s0.idx_of(gid);
    let gold = s0.session_of(gid);
    let gnew = s1.session_of(gid);
    &&& s0.contains_id(gid)
    &&& color == spec_side_to_move(gold.moves@.len())
    &&& s1.contains_id(gid)
    &&& s1.entries().len() == s0.entries().len()
    &&& (forall|j: int|
        0 <= j < s0.entries().len() && j != idx ==> s1.entries()[j] == s0.entries()[j])
    &&& s1.idx_of(gid) == idx
    &&& s1.entries()[idx].0 == s0.entries()[idx].0
    &&& gnew.moves@ == gold.moves@.push(notation)
    &&& Some(gnew.board) == board_after_move(gold.board, notation@)
    &&& gnew.white_user_id == gold.white_user_id
    &&& gnew.black_user_id == gold.black_user_id
    &&& gnew.white_connected == gold.white_connected
    &&& gnew.black_connected == gold.black_connected
    &&& gnew.cleanup_pending == gold.cleanup_pending
    &&& 1 <= msgs.len() <= 2
    &&& msgs[0] == ServerMessage::Move(notation)
    &&& (msgs.len() == 2) == (spec_outcome(gnew.board) is Some)
    &&& (msgs.len() == 2 ==> (spec_outcome(gnew.board) matches Some(o) && msgs[1]
        == ServerMessage::GameEnd(o)))
}

/// The full meaning of one move-loop step by the connection seated as
/// `color` in `game_id`: a message that fails to deserialize earns a
/// local `Deserialization` error; a move out of turn a local
/// `InvalidTurn`, and one the rule engine refuses a local `InvalidMove`,
/// all three leaving every session untouched; a move the engine accepts
/// is applied and broadcast; anything else is ignored.
pub open spec fn move_step_spec(
    s0: SessionStore,
    s1: SessionStore,
    game_id: String,
    color: Color,
    inbound: Inbound,
    r: ReadStep,
) -> bool {
    match inbound {
        Inbound::Malformed => r == ReadStep::Local(ServerMessage::Error(Error::Deserialization))
            && s1 == s0,
        Inbound::Closed => r is Ignored && s1 == s0,
        Inbound::Frame(msg) => match msg {
            ClientMessage::Move(notation) => {
                if !s0.contains_id(game_id@) {
                    r is NoSession && s1 == s0
                } else if color != spec_side_to_move(s0.session_of(game_id@).moves@.len()) {
                    r == ReadStep::Local(ServerMessage::Error(Error::InvalidTurn)) && s1 == s0
                } else if engine_accepts(s0.session_of(game_id@).board, notation@) {
                    r matches ReadStep::Broadcast(msgs) && move_applied_spec(
                        s0,
                        s1,
                        game_id@,
                        color,
                        notation,
                        msgs@,
                    )
                } else {
                    r == ReadStep::Local(ServerMessage::Error(Error::InvalidMove)) && s1 == s0
                }
            },
            _ => r is Ignored && s1 == s0,
        },
    }
}

/// One inbound event of a connection, as the runtime classified it: a
/// message that deserialized, one that did not, or the end of the stream
/// (a non-text frame or a closed socket).
pub enum Inbound {
    Frame(ClientMessage),
    Malformed,
    Closed,
}

/// What one authentication step decided.
#[derive(Debug, PartialEq)]
pub enum AuthStep {
    /// Authenticated: the seat is marked connected; send `reply` — an
    /// `AuthSuccess` followed by the `MoveHistory` so far — and enter the
    /// move loop as `color`.
    Granted { game_id: String, color: Color, reply: Vec<ServerMessage> },
    /// Authentication failed: send the error and close; the connection
    /// sees no further server messages.
    Denied { message: ServerMessage },
    /// No resident session: consult the durable mirror for `game_id`,
    /// then continue with [`SessionStore::auth_after_mirror`].
    NeedMirror { game_id: String, user_id: String },
}

/// `r` denies authentication with exactly the error `e` and nothing else.
pub open spec fn auth_denied(r: AuthStep, e: Error) -> bool {
    r == (AuthStep::Denied { message: ServerMessage::Error(e) })
}

/// `r` grants `gid`'s seat `c`, replying `AuthSuccess` then exactly the
/// history `hist`.
pub open spec fn auth_granted(r: AuthStep, gid: String, c: Color, hist: Seq<String>) -> bool {
    &&& r matches AuthStep::Granted { game_id, color, reply } && game_id == gid && color == c
        && reply@.len() == 2 && reply@[0] == ServerMessage::AuthSuccess && (reply@[1] matches
    ServerMessage::MoveHistory(h) && h@ == hist)
}

/// The full meaning of one authentication step: how the store went from
/// `s0` to `s1` and which decision `r` came out, for the event `inbound`.
pub open spec fn auth_step_spec(s0: SessionStore, s1: SessionStore, inbound: Inbound, r: AuthStep) -> bool {
    match inbound {
        Inbound::Malformed => auth_denied(r, Error::Deserialization) && s1 == s0,
        Inbound::Closed => auth_denied(r, Error::Unauthorized) && s1 == s0,
        Inbound::Frame(msg) => match msg {
            ClientMessage::Auth { game_id, user_id } => {
                if !s0.contains_id(game_id@) {
                    r == (AuthStep::NeedMirror { game_id, user_id }) && s1 == s0
                } else {
                    match auth_seat(s0.session_of(game_id@), user_id@) {
                        Some(c) => auth_granted(r, game_id, c, s0.session_of(game_id@).moves@)
                            && s1.entries() == s0.entries().update(
                            s0.idx_of(game_id@),
                            (
                                s0.entries()[s0.idx_of(game_id@)].0,
                                with_seat_connected(s0.session_of(game_id@), c),
                            ),
                        ),
                        None => auth_denied(r, Error::Unauthorized) && s1 == s0,
                    }
                }
            },
            _ => auth_denied(r, Error::Unauthorized) && s1 == s0,
        },
    }
}

/// The seat a user may claim in a freshly rehydrated session, whose
/// seats are both free: black first, then white.
pub open spec fn auth_seat_fresh(white: Seq<char>, black: Seq<char>, user: Seq<char>) -> Option<
    Color,
> {
    if black == user {
        Some(Color::Black)
    } else if white == user {
        Some(Color::White)
    } else {
        None
    }
}

/// The meaning of continuing authentication with the mirror's answer
/// `row` for `game_id`: either the mirror had no row — a fatal
/// `Unauthorized` with the store untouched — or the handshake was
/// retried against the resident session, rehydrating a fresh one from
/// the row when none was resident. On a grant the store holds exactly
/// the seat-marked session; on a rejection only the rehydrated session,
/// still fresh, was added.
pub open spec fn auth_after_mirror_spec(
    s0: SessionStore,
    s1: SessionStore,
    game_id: String,
    user_id: String,
    row: Option<(String, String)>,
    r: AuthStep,
) -> bool {
    match row {
        None => auth_denied(r, Error::Unauthorized) && s1 == s0,
        Some((white, black)) => {
            &&& !(r is NeedMirror)
            &&& s1.contains_id(game_id@)
            &&& if s0.contains_id(game_id@) {
                match auth_seat(s0.session_of(game_id@), user_id@) {
                    Some(c) => auth_granted(r, game_id, c, s0.session_of(game_id@).moves@)
                        && s1.entries() == s0.entries().update(
                        s0.idx_of(game_id@),
                        (
                            s0.entries()[s0.idx_of(game_id@)].0,
                            with_seat_connected(s0.session_of(game_id@), c),
                        ),
                    ),
                    None => auth_denied(r, Error::Unauthorized) && s1 == s0,
                }
            } else {
                let n = s0.entries().len() as int;
                &&& s1.entries().len() == n + 1
                &&& s1.entries().subrange(0, n) == s0.entries()
                &&& s1.entries()[n].0 == game_id
                &&& (match auth_seat_fresh(white@, black@, user_id@) {
                    Some(c) => auth_granted(r, game_id, c, Seq::<String>::empty()) && (
                    exists|g: ActiveGame|
                        #[trigger] fresh_session_for(g, white, black) && s1.entries()[n].1
                            == with_seat_connected(g, c)),
                    None => auth_denied(r, Error::Unauthorized) && fresh_session_for(
                        s1.entries()[n].1,
                        white,
                        black,
                    ),
                })
            }
        },
    }
}

impl SessionStore {
    /// One step of the authentication handshake, on one inbound event.
    /// Only an `Auth` message can succeed: a message that fails to
    /// deserialize is a fatal `Deserialization` error, any other message
    /// or the end of the stream a fatal `Unauthorized`, and each closes
    /// the connection without entering the move loop.
    pub fn auth_step(&mut self, inbound: Inbound) -> (r: AuthStep)
        requires
            old(self).wf(),
            old(self).coherent(),
        ensures
            final(self).wf(),
            final(self).coherent(),
            auth_step_spec(*old(self), *final(self), inbound, r),
    {
        match inbound {
            Inbound::Malformed => AuthStep::Denied {
                message: ServerMessage::Error(Error::Deserialization),
            },
            Inbound::Closed => AuthStep::Denied {
                message: ServerMessage::Error(Error::Unauthorized),
            },
            Inbound::Frame(msg) => match msg {
                ClientMessage::Auth { game_id, user_id } => {
                    match self.authenticate(&game_id, &user_id) {
                        AuthOutcome::Miss => AuthStep::NeedMirror { game_id, user_id },
                        AuthOutcome::Unauthorized => AuthStep::Denied {
                            message: ServerMessage::Error(Error::Unauthorized),
                        },
                        AuthOutcome::Granted { color, history } => {
                            let mut reply: Vec<ServerMessage> = Vec::new();
                            reply.push(ServerMessage::AuthSuccess);
                            reply.push(ServerMessage::MoveHistory(history));
                            AuthStep::Granted { game_id, color, reply }
                        },
                    }
                },
                _ => AuthStep::Denied {
                    message: ServerMessage::Error(Error::Unauthorized),
                },
            },
        }
    }

    /// Continues an authentication that missed the resident store, with
    /// what the durable mirror said: `None` when it has no row for this
    /// session — a fatal `Unauthorized` — or the white and black seats of
    /// the mirrored row. A found row is rehydrated into the store (unless
    /// a concurrent rehydration won the race, whose resident session then
    /// stands) and the handshake is retried against the resident session.
    pub fn auth_after_mirror(
        &mut self,
        game_id: String,
        user_id: String,
        row: Option<(String, String)>,
    ) -> (r: AuthStep)
        requires
            old(self).wf(),
            old(self).coherent(),
        ensures
            final(self).wf(),
            final(self).coherent(),
            auth_after_mirror_spec(*old(self), *final(self), game_id, user_id, row, r),
    {
        match row {
            None => AuthStep::Denied { message: ServerMessage::Error(Error::Unauthorized) },
            Some((white, black)) => {
                let gid = game_id.clone();
                let ghost pre = *self;
                let ghost white0 = white;
                let ghost black0 = black;
                let _inserted = self.rehydrate(gid, white, black);
                let ghost mid = *self;
                let ghost n = pre.entries().len() as int;
                proof {
                    if !pre.contains_id(game_id@) {
                        mid.lemma_idx_unique(game_id@, n);
                        assert(mid.session_of(game_id@) == mid.entries()[n].1);
                        assert(fresh_session_for(mid.entries()[n].1, white0, black0));
                    }
                }
                let step = self.auth_step(
                    Inbound::Frame(ClientMessage::Auth { game_id, user_id }),
                );
                match step {
                    AuthStep::NeedMirror { .. } => {
                        proof {
                            assert(false);
                        }
                        vstd::pervasive::unreached()
                    },
                    other => {
                        proof {
                            let g = mid.session_of(game_id@);
                            if self.entries() != mid.entries() {
                                let idx = mid.idx_of(game_id@);
                                assert(self.entries()[idx].0 == mid.entries()[idx].0);
                                assert(self.entries()[idx].0@ == game_id@);
                            }
                            if !pre.contains_id(game_id@) {
                                assert(fresh_session_for(g, white0, black0));
                                assert(g.black_user_id@ == black0@ && g.white_user_id@
                                    == white0@);
                                assert(auth_seat(g, user_id@) == auth_seat_fresh(
                                    white0@,
                                    black0@,
                                    user_id@,
                                ));
                                match auth_seat(g, user_id@) {
                                    Some(c) => {
                                        assert(self.entries() == mid.entries().update(
                                            n,
                                            (mid.entries()[n].0, with_seat_connected(g, c)),
                                        ));
                                        assert(self.entries().subrange(0, n)
                                            =~= pre.entries());
                                        assert(self.entries()[n].1 == with_seat_connected(
                                            g,
                                            c,
                                        ));
                                        assert(g.moves@.len() == 0);
                                        assert(g.moves@ =~= Seq::<String>::empty());
                                    },
                                    None => {
                                        assert(*self == mid);
                                        assert(self.entries().subrange(0, n)
                                            =~= pre.entries());
                                    },
                                }
                            }
                        }
                        other
                    },
                }
            },
        }
    }

    /// One step of the inbound move loop for the connection seated as
    /// `color` in `game_id`.
    pub fn move_step(&mut self, game_id: &String, color: Color, inbound: Inbound) -> (r: ReadStep)
        requires
            old(self).wf(),
            old(self).coherent(),
        ensures
            final(self).wf(),
            final(self).coherent(),
            move_step_spec(*old(self), *final(self), *game_id, color, inbound, r),
    {
        match inbound {
            Inbound::Malformed => ReadStep::Local(ServerMessage::Error(Error::Deserialization)),
            Inbound::Closed => ReadStep::Ignored,
            Inbound::Frame(msg) => match msg {
                ClientMessage::Move(notation) => {
                    match self.submit_move(game_id, color, notation) {
                        MoveOutcome::NoSession => ReadStep::NoSession,
                        MoveOutcome::Rejected(e) => ReadStep::Local(ServerMessage::Error(e)),
                        MoveOutcome::Applied { broadcast } => ReadStep::Broadcast(broadcast),
                    }
                },
                _ => ReadStep::Ignored,
            },
        }
    }
}

} // verus!
