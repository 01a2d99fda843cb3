//! The matchmaking queue and the matcher's decisions.
//!
//! Waiting players form a FIFO keyed by user id, with at most one entry
//! per user. The matcher repeatedly pops the two oldest waiters — the
//! first takes White, the second Black — allocates a fresh game id, and,
//! once the caller has written the session row to the durable mirror,
//! builds the reply for each waiter.

use std::collections::VecDeque;
use vstd::prelude::*;
use crate::messages::Color;

verus! {

/// A request to be matched.
pub struct MatchRequest {
    pub user_id: String,
}

/// The reply a waiting player eventually receives.
#[derive(Clone, Debug, PartialEq)]
pub enum MatchResponse {
    Matched { game_id: String, color: Color },
    Failed(String),
}

impl MatchResponse {
    /// Whether this reply reports a failure.
    pub fn is_err(&self) -> (r: bool)
        ensures
            r == (self is Failed),
    {
        match self {
            MatchResponse::Failed(_) => true,
            _ => false,
        }
    }
}

/// The predicate that keeps every waiter but the given user.
pub open spec fn keeps(user: Seq<char>) -> spec_fn(String) -> bool {
    |s: String| s@ != user
}

/// The FIFO of waiting players, by user id, oldest first.
pub struct MatchQueue {
    waiting: VecDeque<String>,
}

impl MatchQueue {
    /// The waiting user ids, oldest first.
    pub closed spec fn waiting(self) -> Seq<String> {
        self.waiting@
    }

    /// Well-formed: no user id waits twice.
    pub open spec fn wf(self) -> bool {
        forall|i: int, j: int|
            0 <= i < j < self.waiting().len() ==> self.waiting()[i]@ != self.waiting()[j]@
    }

    /// Whether the given user id is waiting.
    pub open spec fn contains_user(self, uid: Seq<char>) -> bool {
        exists|i: int| 0 <= i < self.waiting().len() && self.waiting()[i]@ == uid
    }

    /// An empty queue.
    pub fn new() -> (q: MatchQueue)
        ensures
            q.wf(),
            q.waiting() == Seq::<String>::empty(),
    {
        MatchQueue { waiting: VecDeque::new() }
    }

    /// The number of waiting players.
    pub fn len(&self) -> (n: usize)
        ensures
            n == self.waiting().len(),
    {
        self.waiting.len()
    }

    /// Whether the given user id is waiting.
    pub fn contains(&self, user_id: &String) -> (r: bool)
        ensures
            r == self.contains_user(user_id@),
    {
        let mut i: usize = 0;
        while i < self.waiting.len()
            invariant
                0 <= i <= self.waiting().len(),
                forall|j: int| 0 <= j < i ==> self.waiting()[j]@ != user_id@,
            decreases self.waiting().len() - i,
        {
            if self.waiting[i] == *user_id {
                return true;
            }
            i = i + 1;
        }
        false
    }

    /// Appends a new waiter. A user already waiting is rejected, leaving
    /// the queue — and so the original request's place in it — untouched.
    pub fn enqueue(&mut self, user_id: String) -> (ok: bool)
        requires
            old(self).wf(),
        ensures
            final(self).wf(),
            ok == !old(self).contains_user(user_id@),
            ok ==> final(self).waiting() == old(self).waiting().push(user_id),
            !ok ==> *final(self) == *old(self),
    {
        if self.contains(&user_id) {
            false
        } else {
            proof {
                assert(!old(self).contains_user(user_id@));
            }
            self.waiting.push_back(user_id);
            proof {
                let ow = old(self).waiting();
                let nw = self.waiting();
                assert forall|i: int, j: int|
                    0 <= i < j < nw.len() implies nw[i]@ != nw[j]@ by {
                    if j < nw.len() - 1 {
                        assert(ow[i]@ != ow[j]@);
                    } else {
                        assert(nw[i] == ow[i]);
                        if ow[i]@ == user_id@ {
                            assert(old(self).contains_user(user_id@));
                        }
                    }
                }
            }
            true
        }
    }

    /// Removes the given user's entry, the automatic-withdrawal guard of
    /// an abandoned request. Idempotent: a no-op when the user is not
    /// waiting (already popped or never queued).
    pub fn withdraw(&mut self, user_id: &String)
        requires
            old(self).wf(),
        ensures
            final(self).wf(),
            final(self).waiting() == old(self).waiting().filter(keeps(user_id@)),
            !final(self).contains_user(user_id@),
    {
        let ghost pred = keeps(user_id@);
        let mut kept: VecDeque<String> = VecDeque::new();
        let mut i: usize = 0;
        while i < self.waiting.len()
            invariant
                0 <= i <= self.waiting().len(),
                pred == keeps(user_id@),
                kept@ == self.waiting().subrange(0, i as int).filter(pred),
            decreases self.waiting().len() - i,
        {
            let s = &self.waiting[i];
            if !(*s == *user_id) {
                kept.push_back(s.clone());
            }
            proof {
                reveal(Seq::filter);
                let w = self.waiting();
                let a = w.subrange(0, i as int);
                let b = w.subrange(0, i + 1);
                assert(b.drop_last() =~= a);
                assert(b.last() == w[i as int]);
                if pred(w[i as int]) {
                    assert(b.filter(pred) == a.filter(pred).push(w[i as int]));
                } else {
                    assert(b.filter(pred) == a.filter(pred));
                }
                assert(kept@ == b.filter(pred));
            }
            i = i + 1;
        }
        proof {
            let w = self.waiting();
            assert(w.subrange(0, w.len() as int) =~= w);
        }
        self.waiting = kept;
        proof {
            let ow = old(self).waiting();
            let nw = self.waiting();
            assert(nw == ow.filter(pred));
            assert forall|k: int| 0 <= k < nw.len() implies nw[k]@ != user_id@ by {
                ow.lemma_filter_pred(pred, k);
            }
            lemma_filter_distinct_views(ow, pred);
        }
    }

    /// Pops the two oldest waiters when at least two are waiting: the
    /// first becomes White, the second Black. Fewer than two leave the
    /// queue untouched.
    pub fn pop_pair(&mut self) -> (r: Option<(String, String)>)
        requires
            old(self).wf(),
        ensures
            final(self).wf(),
            old(self).waiting().len() < 2 ==> r is None && *final(self) == *old(self),
            old(self).waiting().len() >= 2 ==> {
                &&& r == Some((old(self).waiting()[0], old(self).waiting()[1]))
                &&& final(self).waiting() == old(self).waiting().skip(2)
                &&& (r matches Some((w, b)) && w@ != b@)
            },
    {
        if self.waiting.len() < 2 {
            return None;
        }
        let first = match self.waiting.pop_front() {
            Some(s) => s,
            None => {
                proof {
                    assert(false);
                }
                vstd::pervasive::unreached()
            },
        };
        let second = match self.waiting.pop_front() {
            Some(s) => s,
            None => {
                proof {
                    assert(false);
                }
                vstd::pervasive::unreached()
            },
        };
        proof {
            let ow = old(self).waiting();
            let nw = self.waiting();
            assert(nw =~= ow.skip(2));
            assert forall|a: int, b: int|
                0 <= a < b < nw.len() implies nw[a]@ != nw[b]@ by {
                assert(nw[a] == ow[a + 2]);
                assert(nw[b] == ow[b + 2]);
            }
        }
        Some((first, second))
    }
}

/// Every element of a filtered sequence stands somewhere in the
/// sequence it was filtered from.
proof fn lemma_filter_members(s: Seq<String>, pred: spec_fn(String) -> bool)
    ensures
        forall|i: int|
            0 <= i < s.filter(pred).len() ==> exists|k: int|
                0 <= k < s.len() && s[k] == #[trigger] s.filter(pred)[i],
    decreases s.len(),
{
    reveal(Seq::filter);
    if s.len() == 0 {
    } else {
        let d = s.drop_last();
        lemma_filter_members(d, pred);
        let f = s.filter(pred);
        let df = d.filter(pred);
        assert forall|i: int|
            0 <= i < f.len() implies exists|k: int| 0 <= k < s.len() && s[k] == #[trigger] f[i] by {
            if pred(s.last()) && i == f.len() - 1 {
                assert(s[s.len() - 1] == f[i]);
            } else {
                assert(f[i] == df[i]);
                let k = choose|k: int| 0 <= k < d.len() && d[k] == df[i];
                assert(s[k] == f[i]);
            }
        }
    }
}

/// Filtering a sequence of pairwise distinct strings keeps them pairwise
/// distinct.
proof fn lemma_filter_distinct_views(s: Seq<String>, pred: spec_fn(String) -> bool)
    requires
        forall|i: int, j: int| 0 <= i < j < s.len() ==> s[i]@ != s[j]@,
    ensures
        forall|i: int, j: int|
            0 <= i < j < s.filter(pred).len() ==> s.filter(pred)[i]@ != s.filter(pred)[j]@,
    decreases s.len(),
{
    reveal(Seq::filter);
    if s.len() == 0 {
    } else {
        let d = s.drop_last();
        lemma_filter_distinct_views(d, pred);
        lemma_filter_members(d, pred);
        let f = s.filter(pred);
        let df = d.filter(pred);
        assert forall|i: int, j: int|
            0 <= i < j < f.len() implies f[i]@ != f[j]@ by {
            if pred(s.last()) && j == f.len() - 1 {
                assert(f[i] == df[i]);
                let k = choose|k: int| 0 <= k < d.len() && d[k] == df[i];
                assert(s[k]@ != s[s.len() - 1]@);
            } else {
                assert(f[i] == df[i]);
                assert(f[j] == df[j]);
            }
        }
    }
}

/// Relies on `uuid::Uuid::new_v4` and its `Display` form: a fresh random
/// identifier rendered as 36 hyphenated hex characters. Nothing further
/// is assumed of the value: it is random.
#[verifier::external_body]
pub fn fresh_game_id() -> (r: String)
    ensures
        r@.len() == 36,
{
    uuid::Uuid::new_v4().to_string()
}

/// Builds the two replies for a popped pair once the caller has tried to
/// write the session row to the durable mirror: on success the first
/// popped player is told White and the second Black, both under the same
/// game id; on failure (`mirror_err` carries the message) both receive
/// that failure.
pub fn pair_replies(game_id: &String, mirror_err: Option<String>) -> (r: (
    MatchResponse,
    MatchResponse,
))
    ensures
        mirror_err is None ==> {
            &&& r.0 == (MatchResponse::Matched { game_id: *game_id, color: Color::White })
            &&& r.1 == (MatchResponse::Matched { game_id: *game_id, color: Color::Black })
        },
        (match mirror_err {
            Some(msg) => r.0 == MatchResponse::Failed(msg) && r.1 == MatchResponse::Failed(msg),
            None => true,
        }),
{
    match mirror_err {
        None => {
            (
                MatchResponse::Matched { game_id: game_id.clone(), color: Color::White },
                MatchResponse::Matched { game_id: game_id.clone(), color: Color::Black },
            )
        },
        Some(msg) => {
            let copy = msg.clone();
            (MatchResponse::Failed(copy), MatchResponse::Failed(msg))
        },
    }
}

} // verus!
