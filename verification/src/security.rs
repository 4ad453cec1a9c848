//! The process-wide security gate: an autonomy level that can forbid every
//! side-effecting action, a sliding one-hour action budget, and the
//! workspace path sandbox.
//!
//! The budget's check-then-reserve step is a single call
//! ([`SecurityPolicy::record_action_at`]) taking `&mut self`, so a caller
//! holding the policy behind one lock cannot race the budget between the
//! check and the reservation.

use vstd::prelude::*;
use vstd::string::*;
use crate::text::is_prefix_of;
use crate::text::str_eq;
use crate::text::str_starts_with;

verus! {

/// Seconds in the trailing window over which actions are budgeted.
pub const WINDOW_SECS: u64 = 3600;

/// How far the agent may act on its own.
#[derive(Clone, Copy, Debug, PartialEq, Eq, Structural)]
pub enum AutonomyLevel {
    /// Observe only: every side-effecting action is refused.
    ReadOnly,
    /// Act freely, subject to the action budget and the sandbox.
    Full,
}

/// Whether an action recorded at `t` still counts against the budget at
/// time `now`.
pub open spec fn in_window(t: u64, now: u64) -> bool {
    t + WINDOW_SECS > now
}

/// How many recorded action times still fall in the trailing window.
pub open spec fn count_in_window(ts: Seq<u64>, now: u64) -> nat
    decreases ts.len(),
{
    if ts.len() == 0 {
        0
    } else {
        count_in_window(ts.drop_last(), now) + if in_window(ts.last(), now) {
            1nat
        } else {
            0nat
        }
    }
}

/// One reservation attempt at time `now`: the new record and whether the
/// attempt succeeded. A refused attempt leaves the record unchanged.
pub open spec fn record_step(ts: Seq<u64>, max: u32, now: u64) -> (Seq<u64>, bool) {
    if count_in_window(ts, now) < max {
        (ts.push(now), true)
    } else {
        (ts, false)
    }
}

/// The shared security policy, constructed once from configuration.
pub struct SecurityPolicy {
    /// How far the agent may act on its own.
    pub autonomy: AutonomyLevel,
    /// Ceiling on reservations within the trailing window.
    pub max_actions_per_hour: u32,
    /// The canonicalized root under which every file-touching action must
    /// resolve.
    pub workspace_dir: String,
    /// The times of the recorded actions, oldest first.
    pub actions: Vec<u64>,
}

impl SecurityPolicy {
    pub fn new(autonomy: AutonomyLevel, max_actions_per_hour: u32, workspace_dir: String) -> (s:
        Self)
        ensures
            s.autonomy == autonomy,
            s.max_actions_per_hour == max_actions_per_hour,
            s.workspace_dir == workspace_dir,
            s.actions@ == Seq::<u64>::empty(),
    {
        let s = SecurityPolicy { autonomy, max_actions_per_hour, workspace_dir, actions: Vec::new() };
        proof {
            assert(s.actions@ =~= Seq::<u64>::empty());
        }
        s
    }

    /// True unless the policy is read-only; free of side effects.
    pub fn can_act(&self) -> (r: bool)
        ensures
            r == (self.autonomy != AutonomyLevel::ReadOnly),
    {
        match self.autonomy {
            AutonomyLevel::ReadOnly => false,
            AutonomyLevel::Full => true,
        }
    }

    fn count_recent(&self, now: u64) -> (c: usize)
        ensures
            c == count_in_window(self.actions@, now),
    {
        let n = self.actions.len();
        let mut c: usize = 0;
        let mut i: usize = 0;
        while i < n
            invariant
                0 <= i <= n,
                n == self.actions@.len(),
                c <= i,
                c == count_in_window(self.actions@.subrange(0, i as int), now),
            decreases n - i,
        {
            let t = self.actions[i];
            let hit = if now < WINDOW_SECS {
                true
            } else {
                t > now - WINDOW_SECS
            };
            proof {
                assert(hit == in_window(t, now));
                assert(self.actions@.subrange(0, i + 1).drop_last()
                    =~= self.actions@.subrange(0, i as int));
                assert(self.actions@.subrange(0, i + 1).last() == t);
            }
            if hit {
                c = c + 1;
            }
            i = i + 1;
        }
        proof {
            assert(self.actions@.subrange(0, n as int) =~= self.actions@);
        }
        c
    }

    /// True when the recorded actions in the trailing window already meet
    /// the budget; reads only, reserves nothing.
    pub fn is_rate_limited_at(&self, now: u64) -> (r: bool)
        ensures
            r == (count_in_window(self.actions@, now) >= self.max_actions_per_hour),
    {
        let c = self.count_recent(now);
        c as u64 >= self.max_actions_per_hour as u64
    }

    /// Attempts to reserve one action slot at time `now`: succeeds and
    /// records the action exactly when the window still has room; a refused
    /// attempt changes nothing.
    pub fn record_action_at(&mut self, now: u64) -> (r: bool)
        ensures
            r == (count_in_window(old(self).actions@, now) < old(self).max_actions_per_hour),
            (final(self).actions@, r) == record_step(
                old(self).actions@,
                old(self).max_actions_per_hour,
                now,
            ),
            final(self).autonomy == old(self).autonomy,
            final(self).max_actions_per_hour == old(self).max_actions_per_hour,
            final(self).workspace_dir == old(self).workspace_dir,
    {
        let c = self.count_recent(now);
        if (c as u64) < self.max_actions_per_hour as u64 {
            self.actions.push(now);
            true
        } else {
            false
        }
    }

    /// Reads the wall clock and reports the budget state at that instant;
    /// reserves nothing.
    pub fn is_rate_limited(&self) -> (r: bool)
        ensures
            exists|now: u64|
                r == (count_in_window(self.actions@, now) >= self.max_actions_per_hour),
    {
        let now = crate::clock::now_unix();
        let r = self.is_rate_limited_at(now);
        proof {
            assert(r == (count_in_window(self.actions@, now) >= self.max_actions_per_hour));
        }
        r
    }

    /// Reads the wall clock and attempts to reserve one action slot at
    /// that instant; a refused attempt changes nothing.
    pub fn record_action(&mut self) -> (r: bool)
        ensures
            exists|now: u64|
                (final(self).actions@, r) == record_step(
                    old(self).actions@,
                    old(self).max_actions_per_hour,
                    now,
                ),
            r ==> final(self).actions@.len() == old(self).actions@.len() + 1,
            !r ==> final(self).actions@ == old(self).actions@,
            final(self).autonomy == old(self).autonomy,
            final(self).max_actions_per_hour == old(self).max_actions_per_hour,
            final(self).workspace_dir == old(self).workspace_dir,
    {
        let now = crate::clock::now_unix();
        let r = self.record_action_at(now);
        proof {
            assert((self.actions@, r) == record_step(
                old(self).actions@,
                old(self).max_actions_per_hour,
                now,
            ));
        }
        r
    }

    /// The cheap syntactic pre-check run before any filesystem touch: an
    /// empty or absolute candidate is refused outright.
    pub fn is_path_allowed(&self, raw: &str) -> (r: bool)
        ensures
            r == syntactic_path_ok(raw@),
    {
        if raw.unicode_len() == 0 {
            false
        } else {
            raw.get_char(0) != '/'
        }
    }

    /// The joined candidate that a relative path names inside the
    /// workspace; the caller canonicalizes it before the resolved check.
    pub fn join_workspace_path(&self, rel: &str) -> (r: String)
        ensures
            r@ == self.workspace_dir@ + seq!['/'] + rel@,
    {
        let mut r = self.workspace_dir.clone();
        proof {
            reveal_strlit("/");
        }
        r.append("/");
        r.append(rel);
        proof {
            assert(r@ =~= self.workspace_dir@ + seq!['/'] + rel@);
        }
        r
    }

    /// The actual sandbox boundary, judged after canonicalization (which
    /// follows symlinks): only the workspace root itself or a path strictly
    /// inside it is accepted, so a canonicalized path outside the workspace
    /// — however it was reached — is always rejected.
    pub fn is_resolved_path_allowed(&self, resolved: &str) -> (r: bool)
        ensures
            r == is_descendant_of(resolved@, self.workspace_dir@),
    {
        let ws = self.workspace_dir.as_str();
        if str_eq(resolved, ws) {
            return true;
        }
        let rlen = resolved.unicode_len();
        let wlen = ws.unicode_len();
        if rlen > wlen && str_starts_with(resolved, ws) {
            resolved.get_char(wlen) == '/'
        } else {
            false
        }
    }
}

/// A candidate path that may be joined under the workspace: non-empty and
/// not absolute.
pub open spec fn syntactic_path_ok(raw: Seq<char>) -> bool {
    raw.len() > 0 && raw[0] != '/'
}

/// Whether `path` is the root itself or lies strictly inside it.
pub open spec fn is_descendant_of(path: Seq<char>, root: Seq<char>) -> bool {
    path == root || (path.len() > root.len() && is_prefix_of(root, path) && path[root.len() as int]
        == '/')
}

/// Joining a relative path under a root always lands inside that root.
pub proof fn lemma_join_stays_inside(root: Seq<char>, rel: Seq<char>)
    ensures
        is_descendant_of(root + seq!['/'] + rel, root),
{
    let joined = root + seq!['/'] + rel;
    assert(joined.subrange(0, root.len() as int) =~= root);
    assert(joined[root.len() as int] == '/');
}

/// How many of a run of reservation attempts succeed: the final record and
/// the number of successes, attempts taken oldest first.
pub open spec fn run_record_calls(ts: Seq<u64>, max: u32, nows: Seq<u64>) -> (Seq<u64>, int)
    decreases nows.len(),
{
    if nows.len() == 0 {
        (ts, 0)
    } else {
        let prev = run_record_calls(ts, max, nows.drop_last());
        let step = record_step(prev.0, max, nows.last());
        (step.0, prev.1 + if step.1 {
            1int
        } else {
            0int
        })
    }
}

proof fn lemma_count_all_in_window(ts: Seq<u64>, now: u64)
    requires
        forall|i: int| 0 <= i < ts.len() ==> in_window(ts[i], now),
    ensures
        count_in_window(ts, now) == ts.len(),
    decreases ts.len(),
{
    if ts.len() > 0 {
        lemma_count_all_in_window(ts.drop_last(), now);
    }
}

/// The budget law: when every attempt in a run falls within one window of
/// every other, a run starting from an empty record admits exactly the
/// first `max` attempts — the attempt after the budget is exhausted fails,
/// reserves nothing, and leaves the record exactly as the successes built
/// it.
pub proof fn lemma_budget_enforced(max: u32, nows: Seq<u64>)
    requires
        forall|i: int, j: int|
            0 <= i < nows.len() && 0 <= j < nows.len() ==> in_window(
                #[trigger] nows[i],
                #[trigger] nows[j],
            ),
    ensures
        run_record_calls(Seq::<u64>::empty(), max, nows).1 == if nows.len() <= max {
            nows.len() as int
        } else {
            max as int
        },
        run_record_calls(Seq::<u64>::empty(), max, nows).0 =~= nows.subrange(
            0,
            if nows.len() <= max {
                nows.len() as int
            } else {
                max as int
            },
        ),
    decreases nows.len(),
{
    if nows.len() > 0 {
        let head = nows.drop_last();
        assert(forall|i: int, j: int|
            0 <= i < head.len() && 0 <= j < head.len() ==> in_window(
                #[trigger] head[i],
                #[trigger] head[j],
            ));
        lemma_budget_enforced(max, head);
        let prev = run_record_calls(Seq::<u64>::empty(), max, head);
        let keep = if head.len() <= max {
            head.len() as int
        } else {
            max as int
        };
        assert(prev.0 =~= nows.subrange(0, keep));
        assert(forall|i: int| 0 <= i < prev.0.len() ==> in_window(#[trigger] prev.0[i], nows.last()));
        lemma_count_all_in_window(prev.0, nows.last());
        if keep < max {
            assert(nows.subrange(0, keep).push(nows.last()) =~= nows.subrange(0, keep + 1));
        }
    }
}

} // verus!
