//! The general laws of the matchmaking queue and the session protocol,
//! stated over the same spec functions the executable contracts use.

use vstd::prelude::*;
use crate::messages::{ClientMessage, Color, ServerMessage};
use crate::protocol::{AuthStep, Inbound, auth_step_spec};
use crate::queue::keeps;
use crate::session::ActiveGame;
use crate::store::{SessionStore, auth_seat, with_seat_connected, with_seat_disconnected};

verus! {

/// The pairs the matcher forms from a waiting line, oldest first: the
/// two oldest waiters make a pair — the first White, the second Black —
/// and the rest pair up likewise.
pub open spec fn fifo_pairs(s: Seq<String>) -> Seq<(String, String)>
    decreases s.len(),
{
    if s.len() < 2 {
        Seq::empty()
    } else {
        seq![(s[0], s[1])] + fifo_pairs(s.skip(2))
    }
}

/// The waiter standing in slot `k` of a pairing: slot `2*i` is pair
/// `i`'s White, slot `2*i + 1` its Black.
pub open spec fn pair_slot(ps: Seq<(String, String)>, k: int) -> String {
    if k % 2 == 0 {
        ps[k / 2].0
    } else {
        ps[k / 2].1
    }
}

/// An even number of pairwise distinct waiters is paired completely:
/// every waiter stands in exactly one slot, pairs keep arrival order —
/// pair `i` is waiters `2*i` (White) and `2*i + 1` (Black) — and no
/// waiter appears twice.
pub proof fn lemma_fifo_pairing(s: Seq<String>)
    requires
        s.len() % 2 == 0,
        forall|i: int, j: int| 0 <= i < j < s.len() ==> s[i]@ != s[j]@,
    ensures
        fifo_pairs(s).len() == s.len() / 2,
        forall|k: int| 0 <= k < s.len() ==> pair_slot(fifo_pairs(s), k) == s[k],
        forall|k1: int, k2: int|
            0 <= k1 < k2 < s.len() ==> pair_slot(fifo_pairs(s), k1)@ != pair_slot(
                fifo_pairs(s),
                k2,
            )@,
    decreases s.len(),
{
    if s.len() < 2 {
    } else {
        let rest = s.skip(2);
        lemma_fifo_pairing(rest);
        let ps = fifo_pairs(s);
        let pr = fifo_pairs(rest);
        assert forall|k: int| 0 <= k < s.len() implies pair_slot(ps, k) == s[k] by {
            if k >= 2 {
                assert(ps[k / 2] == pr[k / 2 - 1]);
                assert(pair_slot(pr, k - 2) == rest[k - 2]);
            }
        }
        assert forall|k1: int, k2: int|
            0 <= k1 < k2 < s.len() implies pair_slot(ps, k1)@ != pair_slot(ps, k2)@ by {
            assert(pair_slot(ps, k1) == s[k1]);
            assert(pair_slot(ps, k2) == s[k2]);
        }
    }
}

/// Withdrawing a user who is not waiting leaves the line exactly as it
/// was: the automatic-withdrawal guard is a no-op after the matcher has
/// already popped the entry.
pub proof fn lemma_withdraw_absent(s: Seq<String>, u: Seq<char>)
    requires
        forall|i: int| 0 <= i < s.len() ==> s[i]@ != u,
    ensures
        s.filter(keeps(u)) == s,
    decreases s.len(),
{
    reveal(Seq::filter);
    if s.len() == 0 {
    } else {
        lemma_withdraw_absent(s.drop_last(), u);
        assert(s.filter(keeps(u)) =~= s);
    }
}

/// Two authentications for the same seat succeed at most once: once a
/// user's seat is marked connected, a second attempt by the same user
/// finds no free seat (the seats belong to different users).
pub proof fn lemma_same_seat_once(g: ActiveGame, u: Seq<char>, c: Color)
    requires
        g.white_user_id@ != g.black_user_id@,
        auth_seat(g, u) == Some(c),
    ensures
        auth_seat(with_seat_connected(g, c), u) is None,
{
}

/// The first `MoveHistory` a connection receives after `AuthSuccess` on
/// a session that has no moves yet is the empty sequence.
pub proof fn lemma_first_history_empty(
    s0: SessionStore,
    s1: SessionStore,
    game_id: String,
    user_id: String,
    r: AuthStep,
)
    requires
        s0.contains_id(game_id@),
        s0.session_of(game_id@).moves@.len() == 0,
        auth_step_spec(
            s0,
            s1,
            Inbound::Frame(ClientMessage::Auth { game_id, user_id }),
            r,
        ),
        r is Granted,
    ensures
        r matches AuthStep::Granted { reply, .. } ==> (reply@[1] matches
            ServerMessage::MoveHistory(h) && h@.len() == 0),
{
}

/// A session both of whose seats have disconnected stays queryable — it
/// leaves the store only when the deferred cleanup fires, which
/// `SessionStore::remove` then makes final.
pub proof fn lemma_session_survives_disconnect(
    s0: SessionStore,
    s1: SessionStore,
    game_id: Seq<char>,
    color: Color,
    arm: bool,
)
    requires
        s0.wf(),
        s0.contains_id(game_id),
        s1.entries() == s0.entries().update(
            s0.idx_of(game_id),
            (
                s0.entries()[s0.idx_of(game_id)].0,
                (ActiveGame {
                    cleanup_pending: s0.session_of(game_id).cleanup_pending || arm,
                    ..with_seat_disconnected(s0.session_of(game_id), color)
                }),
            ),
        ),
    ensures
        s1.contains_id(game_id),
        s1.session_of(game_id).white_user_id == s0.session_of(game_id).white_user_id,
        s1.session_of(game_id).black_user_id == s0.session_of(game_id).black_user_id,
        s1.session_of(game_id).moves@ == s0.session_of(game_id).moves@,
{
    let idx = s0.idx_of(game_id);
    assert(s1.entries()[idx].0@ == game_id);
    assert(s1.contains_id(game_id));
    assert forall|i: int, j: int|
        0 <= i < j < s1.entries().len() implies s1.entries()[i].0@ != s1.entries()[j].0@ by {
        assert(s1.entries()[i].0 == s0.entries()[i].0);
        assert(s1.entries()[j].0 == s0.entries()[j].0);
    }
    s1.lemma_idx_unique(game_id, idx);
}

} // verus!
