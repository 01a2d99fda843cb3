//! The session store: a mapping from game id to live session state.
//!
//! Every operation the protocol performs on a session — authentication,
//! the whole check-turn / validate / apply / detect-outcome path of one
//! move, disconnection and the arming of deferred cleanup — runs as one
//! operation of this store, so each is atomic with respect to the store's
//! single point of mutation (callers serialize access around the store).

use vstd::prelude::*;
use crate::engine;
use crate::engine::{board_after_move, engine_accepts, spec_outcome};
use crate::messages::{Color, Error, ServerMessage};
use crate::session::ActiveGame;
use crate::session::clone_history;
use crate::session::session_coherent;
use crate::session::side_to_move;
use crate::session::spec_side_to_move;

verus! {

/// Result of submitting one move to a session.
#[derive(Debug, PartialEq)]
pub enum MoveOutcome {
    /// The move was refused (`InvalidTurn` or `InvalidMove`); the error
    /// goes to the submitting connection only and nothing changed.
    Rejected(Error),
    /// The move was applied: these messages go to both seats, in order —
    /// the move itself, then `GameEnd` when it ended the game.
    Applied { broadcast: Vec<ServerMessage> },
    /// No session with this id is resident.
    NoSession,
}

/// Result of one authentication attempt against the store.
#[derive(Debug, PartialEq)]
pub enum AuthOutcome {
    /// The seat was free and matched: it is now marked connected, and the
    /// history is the session's moves so far.
    Granted { color: Color, history: Vec<String> },
    /// The session exists but the user matches no free seat.
    Unauthorized,
    /// No session with this id is resident; the caller consults the
    /// durable mirror and may rehydrate.
    Miss,
}

/// The seat a user may claim in a session: a seat whose user id matches
/// and which has no live connection. The black seat is examined first.
pub open spec fn auth_seat(g: ActiveGame, user: Seq<char>) -> Option<Color> {
    if g.black_user_id@ == user && !g.black_connected {
        Some(Color::Black)
    } else if g.white_user_id@ == user && !g.white_connected {
        Some(Color::White)
    } else {
        None
    }
}

/// `g` with the given seat marked connected.
pub open spec fn with_seat_connected(g: ActiveGame, c: Color) -> ActiveGame {
    match c {
        Color::White => ActiveGame { white_connected: true, ..g },
        Color::Black => ActiveGame { black_connected: true, ..g },
    }
}

/// `g` with the given seat marked disconnected.
pub open spec fn with_seat_disconnected(g: ActiveGame, c: Color) -> ActiveGame {
    match c {
        Color::White => ActiveGame { white_connected: false, ..g },
        Color::Black => ActiveGame { black_connected: false, ..g },
    }
}

/// Request to create a session administratively: the id and both seats.
pub struct InitBody {
    pub game_id: String,
    pub white_user_id: String,
    pub black_user_id: String,
}

/// A store of active sessions keyed by game id. Keys are unique.
pub struct SessionStore {
    sessions: Vec<(String, ActiveGame)>,
}

impl SessionStore {
    /// The entries of the store, in insertion order.
    pub closed spec fn entries(self) -> Seq<(String, ActiveGame)> {
        self.sessions@
    }

    /// Well-formed: no two entries share a game id.
    pub open spec fn wf(self) -> bool {
        forall|i: int, j: int|
            0 <= i < j < self.entries().len() ==> self.entries()[i].0@ != self.entries()[j].0@
    }

    /// Every resident session satisfies the session invariant: its
    /// position is its move history replayed from the starting position.
    pub open spec fn coherent(self) -> bool {
        forall|i: int|
            0 <= i < self.entries().len() ==> session_coherent(#[trigger] self.entries()[i].1)
    }

    /// Whether some entry has the given game id.
    pub open spec fn contains_id(self, id: Seq<char>) -> bool {
        exists|i: int| 0 <= i < self.entries().len() && self.entries()[i].0@ == id
    }

    /// The index of the entry with the given id (unique when `wf`).
    pub open spec fn idx_of(self, id: Seq<char>) -> int {
        choose|i: int| 0 <= i < self.entries().len() && self.entries()[i].0@ == id
    }

    /// The session stored under the given id.
    pub open spec fn session_of(self, id: Seq<char>) -> ActiveGame {
        self.entries()[self.idx_of(id)].1
    }

    /// In a well-formed store, any index whose entry carries `id` is
    /// `idx_of(id)`.
    pub proof fn lemma_idx_unique(self, id: Seq<char>, i: int)
        requires
            self.wf(),
            0 <= i < self.entries().len(),
            self.entries()[i].0@ == id,
        ensures
            self.idx_of(id) == i,
            self.contains_id(id),
    {
        assert(self.contains_id(id));
        let j = self.idx_of(id);
        if i < j {
            assert(self.entries()[i].0@ != self.entries()[j].0@);
        } else if j < i {
            assert(self.entries()[j].0@ != self.entries()[i].0@);
        }
    }

    /// A store that differs from a coherent one in at most the connection
    /// and cleanup flags of one session is coherent too: the invariant
    /// reads only the position and the move history.
    proof fn lemma_flags_only_update_coherent(self, pre: SessionStore, i: int)
        requires
            pre.coherent(),
            self.entries().len() == pre.entries().len(),
            0 <= i < pre.entries().len(),
            forall|j: int| 0 <= j < pre.entries().len() && j != i ==> self.entries()[j]
                == pre.entries()[j],
            self.entries()[i].1.board == pre.entries()[i].1.board,
            self.entries()[i].1.moves == pre.entries()[i].1.moves,
        ensures
            self.coherent(),
    {
        assert forall|k: int|
            0 <= k < self.entries().len() implies session_coherent(
            #[trigger] self.entries()[k].1) by {
            assert(session_coherent(pre.entries()[k].1));
            if k == i {
                let g0 = pre.entries()[i].1;
                let g1 = self.entries()[i].1;
                let b0 = choose|b0: shakmaty::Chess|
                    #[trigger] engine::is_initial_board(b0) && engine::replay_board(b0, g0.moves@)
                        == Some(g0.board);
                assert(engine::is_initial_board(b0) && engine::replay_board(b0, g1.moves@) == Some(
                    g1.board,
                ));
            }
        }
    }

    /// An empty store.
    pub fn new() -> (s: SessionStore)
        ensures
            s.wf(),
            s.coherent(),
            s.entries() == Seq::<(String, ActiveGame)>::empty(),
    {
        SessionStore { sessions: Vec::new() }
    }

    /// The index of the entry with the given id, if any.
    fn find(&self, game_id: &String) -> (r: Option<usize>)
        ensures
            match r {
                Some(i) => 0 <= i < self.entries().len() && self.entries()[i as int].0@
                    == game_id@,
                None => !self.contains_id(game_id@),
            },
    {
        let mut i: usize = 0;
        while i < self.sessions.len()
            invariant
                0 <= i <= self.sessions.len(),
                forall|j: int| 0 <= j < i ==> self.sessions@[j].0@ != game_id@,
            decreases self.sessions.len() - i,
        {
            if self.sessions[i].0 == *game_id {
                return Some(i);
            }
            i = i + 1;
        }
        None
    }

    /// Whether a session with this id is resident.
    pub fn has_session(&self, game_id: &String) -> (r: bool)
        ensures
            r == self.contains_id(game_id@),
    {
        match self.find(game_id) {
            Some(_) => true,
            None => false,
        }
    }

    /// Whether the given seat of the session currently has a live
    /// connection; false when no session with this id is resident. The
    /// runtime tests this before it frees a seat.
    pub fn seat_connected(&self, game_id: &String, color: Color) -> (r: bool)
        requires
            self.wf(),
        ensures
            r == (self.contains_id(game_id@) && self.session_of(game_id@).seat_connected(color)),
    {
        match self.find(game_id) {
            None => false,
            Some(i) => {
                proof {
                    self.lemma_idx_unique(game_id@, i as int);
                }
                match color {
                    Color::White => self.sessions[i].1.white_connected,
                    Color::Black => self.sessions[i].1.black_connected,
                }
            },
        }
    }

    /// Inserts a new session under `game_id`. Fails, changing nothing,
    /// when the id is already present — an existing session is never
    /// overwritten.
    pub fn insert(&mut self, game_id: String, game: ActiveGame) -> (ok: bool)
        requires
            old(self).wf(),
            old(self).coherent(),
            session_coherent(game),
        ensures
            final(self).wf(),
            final(self).coherent(),
            ok == !old(self).contains_id(game_id@),
            ok ==> final(self).entries() == old(self).entries().push((game_id, game)),
            !ok ==> *final(self) == *old(self),
    {
        match self.find(&game_id) {
            Some(_) => false,
            None => {
                proof {
                    assert(!old(self).contains_id(game_id@));
                }
                self.sessions.push((game_id, game));
                proof {
                    let oldent = old(self).entries();
                    let newent = self.entries();
                    assert(newent == oldent.push((game_id, game)));
                    assert forall|k: int|
                        0 <= k < newent.len() implies session_coherent(#[trigger] newent[k].1) by {
                        if k < newent.len() - 1 {
                            assert(session_coherent(oldent[k].1));
                        } else {
                            assert(newent[k].1 == game);
                        }
                    }
                    assert forall|i: int, j: int|
                        0 <= i < j < newent.len() implies newent[i].0@ != newent[j].0@ by {
                        if j < newent.len() - 1 {
                            assert(oldent[i].0@ != oldent[j].0@);
                        } else {
                            assert(newent[i] == oldent[i]);
                            if oldent[i].0@ == game_id@ {
                                assert(old(self).contains_id(game_id@));
                            }
                        }
                    }
                }
                true
            }
        }
    }

    /// Authenticates `user_id` into the session `game_id`: on success the
    /// matching free seat is marked connected and the move history so far
    /// is returned, atomically with the seat check. A user matching no
    /// seat, or only a seat that already has a live connection, is
    /// rejected.
    pub fn authenticate(&mut self, game_id: &String, user_id: &String) -> (r: AuthOutcome)
        requires
            old(self).wf(),
            old(self).coherent(),
        ensures
            final(self).wf(),
            final(self).coherent(),
            (r is Miss) == !old(self).contains_id(game_id@),
            !old(self).contains_id(game_id@) ==> *final(self) == *old(self),
            old(self).contains_id(game_id@) ==> (match auth_seat(
                old(self).session_of(game_id@),
                user_id@,
            ) {
                Some(c) => {
                    &&& (r matches AuthOutcome::Granted { color, history } && color == c
                        && history@ == old(self).session_of(game_id@).moves@)
                    &&& final(self).entries() == old(self).entries().update(
                        old(self).idx_of(game_id@),
                        (
                            old(self).entries()[old(self).idx_of(game_id@)].0,
                            with_seat_connected(old(self).session_of(game_id@), c),
                        ),
                    )
                },
                None => r is Unauthorized && *final(self) == *old(self),
            }),
    {
        match self.find(game_id) {
            None => AuthOutcome::Miss,
            Some(i) => {
                proof {
                    self.lemma_idx_unique(game_id@, i as int);
                }
                if self.sessions[i].1.black_user_id == *user_id
                    && !self.sessions[i].1.black_connected {
                    let history = clone_history(&self.sessions[i].1.moves);
                    let entry = &mut self.sessions[i];
                    entry.1.black_connected = true;
                    proof {
                        self.lemma_flags_only_update_coherent(*old(self), i as int);
                    }
                    AuthOutcome::Granted { color: Color::Black, history }
                } else if self.sessions[i].1.white_user_id == *user_id
                    && !self.sessions[i].1.white_connected {
                    let history = clone_history(&self.sessions[i].1.moves);
                    let entry = &mut self.sessions[i];
                    entry.1.white_connected = true;
                    proof {
                        self.lemma_flags_only_update_coherent(*old(self), i as int);
                    }
                    AuthOutcome::Granted { color: Color::White, history }
                } else {
                    AuthOutcome::Unauthorized
                }
            }
        }
    }

    /// Submits one move by the given seat to the session `game_id`. The
    /// turn check, the rule-engine validation, the application of the
    /// move, the history append and the outcome detection run as one
    /// store operation, so exactly one legal move is accepted per ply.
    ///
    /// A move out of turn is rejected with `InvalidTurn`; one the rule
    /// engine does not accept against the current position, with
    /// `InvalidMove`; both leave the session untouched. A move the engine
    /// accepts is applied: the position advances to what the engine
    /// returns, the notation is appended to the history, and the
    /// broadcast carries the move, then `GameEnd` with the engine's
    /// outcome exactly when it reports the game over.
    pub fn submit_move(&mut self, game_id: &String, color: Color, notation: String) -> (r:
        MoveOutcome)
        requires
            old(self).wf(),
            old(self).coherent(),
        ensures
            final(self).wf(),
            final(self).coherent(),
            (r is NoSession) == !old(self).contains_id(game_id@),
            !old(self).contains_id(game_id@) ==> *final(self) == *old(self),
            r is Rejected ==> *final(self) == *old(self),
            old(self).contains_id(game_id@) ==> (if color != spec_side_to_move(
                old(self).session_of(game_id@).moves@.len(),
            ) {
                r == MoveOutcome::Rejected(Error::InvalidTurn)
            } else if engine_accepts(old(self).session_of(game_id@).board, notation@) {
                r is Applied
            } else {
                r == MoveOutcome::Rejected(Error::InvalidMove)
            }),
            r is Applied ==> {
                let idx = old(self).idx_of(game_id@);
                let gold = old(self).session_of(game_id@);
                let gnew = final(self).session_of(game_id@);
                &&& old(self).contains_id(game_id@)
                &&& color == spec_side_to_move(gold.moves@.len())
                &&& final(self).contains_id(game_id@)
                &&& final(self).entries().len() == old(self).entries().len()
                &&& (forall|j: int|
                    0 <= j < old(self).entries().len() && j != idx
                        ==> final(self).entries()[j] == old(self).entries()[j])
                &&& final(self).idx_of(game_id@) == idx
                &&& final(self).entries()[idx].0 == old(self).entries()[idx].0
                &&& gnew.moves@ == gold.moves@.push(notation)
                &&& Some(gnew.board) == board_after_move(gold.board, notation@)
                &&& gnew.white_user_id == gold.white_user_id
                &&& gnew.black_user_id == gold.black_user_id
                &&& gnew.white_connected == gold.white_connected
                &&& gnew.black_connected == gold.black_connected
                &&& gnew.cleanup_pending == gold.cleanup_pending
            },
            (match r {
                MoveOutcome::Applied { broadcast } => {
                    let after = final(self).session_of(game_id@).board;
                    &&& 1 <= broadcast@.len() <= 2
                    &&& broadcast@[0] == ServerMessage::Move(notation)
                    &&& (broadcast@.len() == 2) == (spec_outcome(after) is Some)
                    &&& (broadcast@.len() == 2 ==> (spec_outcome(after) matches Some(o)
                        && broadcast@[1] == ServerMessage::GameEnd(o)))
                },
                _ => true,
            }),
    {
        let i = match self.find(game_id) {
            None => {
                return MoveOutcome::NoSession;
            },
            Some(i) => i,
        };
        proof {
            self.lemma_idx_unique(game_id@, i as int);
        }
        let turn = side_to_move(self.sessions[i].1.moves.len());
        if color != turn {
            return MoveOutcome::Rejected(Error::InvalidTurn);
        }
        let san = match engine::parse_san(notation.as_str()) {
            None => {
                return MoveOutcome::Rejected(Error::InvalidMove);
            },
            Some(san) => san,
        };
        let m = match engine::san_to_move(&san, &self.sessions[i].1.board) {
            None => {
                return MoveOutcome::Rejected(Error::InvalidMove);
            },
            Some(m) => m,
        };
        let next_board = match engine::play_move(&self.sessions[i].1.board, &m) {
            None => {
                return MoveOutcome::Rejected(Error::InvalidMove);
            },
            Some(b) => b,
        };
        let recorded = notation.clone();
        let entry = &mut self.sessions[i];
        entry.1.board = next_board;
        entry.1.moves.push(recorded);
        proof {
            let oe = old(self).entries();
            let ne = self.entries();
            assert forall|a: int, b: int|
                0 <= a < b < ne.len() implies ne[a].0@ != ne[b].0@ by {
                assert(ne[a].0 == oe[a].0);
                assert(ne[b].0 == oe[b].0);
            }
            self.lemma_idx_unique(game_id@, i as int);
            let gold = oe[i as int].1;
            let gnew = ne[i as int].1;
            assert(gnew.moves@ == gold.moves@.push(notation));
            assert(board_after_move(gold.board, notation@) == Some(gnew.board));
            assert forall|k: int|
                0 <= k < ne.len() implies session_coherent(#[trigger] ne[k].1) by {
                assert(session_coherent(oe[k].1));
                if k == i as int {
                    let b0 = choose|b0: shakmaty::Chess|
                        #[trigger] engine::is_initial_board(b0) && engine::replay_board(
                            b0,
                            gold.moves@,
                        ) == Some(gold.board);
                    assert(gnew.moves@.drop_last() =~= gold.moves@);
                    assert(gnew.moves@.last() == notation);
                    assert(engine::replay_board(b0, gnew.moves@) == Some(gnew.board));
                    assert(engine::is_initial_board(b0) && engine::replay_board(b0, gnew.moves@)
                        == Some(gnew.board));
                }
            }
        }
        let mut broadcast: Vec<ServerMessage> = Vec::new();
        broadcast.push(ServerMessage::Move(notation));
        match engine::board_outcome(&self.sessions[i].1.board) {
            Some(outcome) => {
                broadcast.push(ServerMessage::GameEnd(outcome));
            },
            None => {},
        }
        MoveOutcome::Applied { broadcast }
    }

    /// Removes the session with the given id, handing it back; `None`,
    /// changing nothing, when it is not resident. Other sessions are
    /// untouched.
    pub fn remove(&mut self, game_id: &String) -> (r: Option<ActiveGame>)
        requires
            old(self).wf(),
            old(self).coherent(),
        ensures
            final(self).wf(),
            final(self).coherent(),
            (r is None) == !old(self).contains_id(game_id@),
            !old(self).contains_id(game_id@) ==> *final(self) == *old(self),
            old(self).contains_id(game_id@) ==> {
                &&& r == Some(old(self).session_of(game_id@))
                &&& final(self).entries() == old(self).entries().remove(
                    old(self).idx_of(game_id@),
                )
                &&& !final(self).contains_id(game_id@)
            },
            forall|id: Seq<char>|
                id != game_id@ ==> #[trigger] final(self).contains_id(id) == old(
                    self,
                ).contains_id(id),
    {
        match self.find(game_id) {
            None => None,
            Some(i) => {
                proof {
                    self.lemma_idx_unique(game_id@, i as int);
                }
                let (_, g) = self.sessions.remove(i);
                proof {
                    let oe = old(self).entries();
                    let ne = self.entries();
                    assert(ne == oe.remove(i as int));
                    assert forall|a: int, b: int|
                        0 <= a < b < ne.len() implies ne[a].0@ != ne[b].0@ by {
                        let a0 = if a < i as int { a } else { a + 1 };
                        let b0 = if b < i as int { b } else { b + 1 };
                        assert(ne[a] == oe[a0]);
                        assert(ne[b] == oe[b0]);
                        assert(oe[a0].0@ != oe[b0].0@);
                    }
                    assert forall|k: int|
                        0 <= k < ne.len() implies session_coherent(#[trigger] ne[k].1) by {
                        let k0 = if k < i as int { k } else { k + 1 };
                        assert(ne[k] == oe[k0]);
                        assert(session_coherent(oe[k0].1));
                    }
                    assert forall|id: Seq<char>| id != game_id@ implies final(self).contains_id(
                        id,
                    ) == old(self).contains_id(id) by {
                        if old(self).contains_id(id) {
                            let j = choose|j: int|
                                0 <= j < oe.len() && oe[j].0@ == id;
                            let j2 = if j < i as int { j } else { j - 1 };
                            assert(ne[j2] == oe[j]);
                            assert(self.contains_id(id));
                        }
                        if self.contains_id(id) {
                            let k = choose|k: int|
                                0 <= k < ne.len() && ne[k].0@ == id;
                            let k0 = if k < i as int { k } else { k + 1 };
                            assert(oe[k0] == ne[k]);
                            assert(old(self).contains_id(id));
                        }
                    }
                    if self.contains_id(game_id@) {
                        let k = choose|k: int|
                            0 <= k < ne.len() && ne[k].0@ == game_id@;
                        let k0 = if k < i as int { k } else { k + 1 };
                        assert(oe[k0] == ne[k]);
                        old(self).lemma_idx_unique(game_id@, k0);
                        assert(false);
                    }
                }
                Some(g)
            }
        }
    }

    /// Marks the given seat of a resident session disconnected. When the
    /// other seat is also free and no cleanup is pending, marks a cleanup
    /// pending and returns true: the caller must then arm the deferred
    /// cleanup timer, exactly once per abandonment.
    pub fn disconnect_seat(&mut self, game_id: &String, color: Color) -> (arm: bool)
        requires
            old(self).wf(),
            old(self).coherent(),
            old(self).contains_id(game_id@),
            old(self).session_of(game_id@).seat_connected(color),
        ensures
            final(self).wf(),
            final(self).coherent(),
            ({
                let idx = old(self).idx_of(game_id@);
                let gold = old(self).session_of(game_id@);
                let freed = with_seat_disconnected(gold, color);
                &&& arm == (!freed.white_connected && !freed.black_connected
                    && !gold.cleanup_pending)
                &&& final(self).entries() == old(self).entries().update(
                    idx,
                    (
                        old(self).entries()[idx].0,
                        (ActiveGame {
                            cleanup_pending: gold.cleanup_pending || arm,
                            ..freed
                        }),
                    ),
                )
            }),
    {
        let i = match self.find(game_id) {
            None => {
                proof {
                    assert(false);
                }
                vstd::pervasive::unreached()
            },
            Some(i) => i,
        };
        proof {
            self.lemma_idx_unique(game_id@, i as int);
        }
        let entry = &mut self.sessions[i];
        match color {
            Color::White => {
                entry.1.white_connected = false;
            },
            Color::Black => {
                entry.1.black_connected = false;
            },
        }
        let arm = !entry.1.white_connected && !entry.1.black_connected
            && !entry.1.cleanup_pending;
        if arm {
            entry.1.cleanup_pending = true;
        }
        proof {
            let oe = old(self).entries();
            let ne = self.entries();
            assert(ne =~= oe.update(
                i as int,
                (
                    oe[i as int].0,
                    (ActiveGame {
                        cleanup_pending: old(self).session_of(game_id@).cleanup_pending || arm,
                        ..with_seat_disconnected(old(self).session_of(game_id@), color)
                    }),
                ),
            ));
            assert forall|a: int, b: int|
                0 <= a < b < ne.len() implies ne[a].0@ != ne[b].0@ by {
                assert(ne[a].0 == oe[a].0);
                assert(ne[b].0 == oe[b].0);
            }
            self.lemma_flags_only_update_coherent(*old(self), i as int);
        }
        arm
    }

    /// Creates a session for the given seats under `body.game_id`, the
    /// administrative entry point. Fails, changing nothing, when the id
    /// is already taken.
    pub fn init_session(&mut self, body: InitBody) -> (ok: bool)
        requires
            old(self).wf(),
            old(self).coherent(),
        ensures
            final(self).wf(),
            final(self).coherent(),
            ok == !old(self).contains_id(body.game_id@),
            !ok ==> *final(self) == *old(self),
            ok ==> {
                let n = old(self).entries().len() as int;
                &&& final(self).entries().len() == n + 1
                &&& final(self).entries().subrange(0, n) == old(self).entries()
                &&& final(self).entries()[n].0 == body.game_id
                &&& fresh_session_for(
                    final(self).entries()[n].1,
                    body.white_user_id,
                    body.black_user_id,
                )
            },
            final(self).contains_id(body.game_id@),
    {
        let InitBody { game_id, white_user_id, black_user_id } = body;
        let game = ActiveGame::new(white_user_id, black_user_id);
        let ok = self.insert(game_id, game);
        proof {
            if ok {
                let n = old(self).entries().len() as int;
                assert(self.entries().subrange(0, n) =~= old(self).entries());
                self.lemma_idx_unique(body.game_id@, n);
            } else {
                assert(self.contains_id(body.game_id@));
            }
        }
        ok
    }

    /// Rehydrates a session found in the durable mirror after a read
    /// miss: inserts a fresh session for the given seats unless some
    /// concurrent rehydration won the race, in which case the candidate
    /// is discarded and the resident session stands. Either way the id is
    /// resident afterwards, and the caller re-runs its read.
    pub fn rehydrate(&mut self, game_id: String, white_user_id: String, black_user_id: String) -> (
        inserted: bool)
        requires
            old(self).wf(),
            old(self).coherent(),
        ensures
            final(self).wf(),
            final(self).coherent(),
            inserted == !old(self).contains_id(game_id@),
            final(self).contains_id(game_id@),
            !inserted ==> *final(self) == *old(self),
            inserted ==> {
                let n = old(self).entries().len() as int;
                &&& final(self).entries().len() == n + 1
                &&& final(self).entries().subrange(0, n) == old(self).entries()
                &&& final(self).entries()[n].0 == game_id
                &&& fresh_session_for(final(self).entries()[n].1, white_user_id, black_user_id)
            },
    {
        self.init_session(InitBody { game_id, white_user_id, black_user_id })
    }

    /// A snapshot of `(game_id, black_user_id, white_user_id)` for every
    /// resident session, in store order — the debug listing.
    pub fn list_sessions(&self) -> (r: Vec<(String, String, String)>)
        ensures
            r@.len() == self.entries().len(),
            forall|i: int|
                0 <= i < r@.len() ==> {
                    &&& #[trigger] r@[i].0 == self.entries()[i].0
                    &&& r@[i].1 == self.entries()[i].1.black_user_id
                    &&& r@[i].2 == self.entries()[i].1.white_user_id
                },
    {
        let mut r: Vec<(String, String, String)> = Vec::new();
        let mut i: usize = 0;
        while i < self.sessions.len()
            invariant
                0 <= i <= self.sessions.len(),
                r@.len() == i,
                forall|j: int|
                    0 <= j < i ==> {
                        &&& #[trigger] r@[j].0 == self.entries()[j].0
                        &&& r@[j].1 == self.entries()[j].1.black_user_id
                        &&& r@[j].2 == self.entries()[j].1.white_user_id
                    },
            decreases self.sessions.len() - i,
        {
            let entry = &self.sessions[i];
            r.push((entry.0.clone(), entry.1.black_user_id.clone(), entry.1.white_user_id.clone()));
            i = i + 1;
        }
        r
    }
}

/// Whether `g` is a freshly created session for the given seats: nobody
/// connected, no moves, no pending cleanup.
pub open spec fn fresh_session_for(g: ActiveGame, white: String, black: String) -> bool {
    &&& g.white_user_id == white
    &&& g.black_user_id == black
    &&& !g.white_connected
    &&& !g.black_connected
    &&& g.moves@ == Seq::<String>::empty()
    &&& !g.cleanup_pending
    &&& engine::is_initial_board(g.board)
    &&& session_coherent(g)
}

} // verus!
