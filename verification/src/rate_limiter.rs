//! A sliding-window rate limiter over millisecond timestamps.
//!
//! The limiter keeps the timestamps of the requests granted within the
//! last second, pruning older ones on every check; a slot is granted
//! only while fewer than the limit remain. The caller supplies a
//! monotone clock reading and sleeps between denied checks; the grant
//! decision and its guarantee — never more than the limit in any
//! trailing one-second window — live here.

use vstd::prelude::*;


verus! {

/// The length of the trailing window, in milliseconds.
pub const WINDOW_MS: u64 = 1000;

/// Whether `s` is sorted in nondecreasing order.
pub open spec fn sorted(s: Seq<u64>) -> bool {
    forall|i: int, j: int| 0 <= i <= j < s.len() ==> s[i] <= s[j]
}

/// Whether any two entries of `s` that are `n` or more apart in order
/// are at least one window apart in time.
pub open spec fn spaced(s: Seq<u64>, n: int) -> bool {
    forall|i: int, j: int| 0 <= i && i + n <= j < s.len() ==> s[i] + WINDOW_MS <= s[j]
}

/// How many entries of `s` lie inside the trailing window that ends at
/// `now`: those with `t + WINDOW_MS > now`.
pub open spec fn count_in_window(s: Seq<u64>, now: u64) -> nat {
    s.filter(|t: u64| t + WINDOW_MS > now).len()
}

/// Bounds outbound request rate: at most `limit` grants in any trailing
/// one-second window.
pub struct RateLimiter {
    /// Grant timestamps still inside the window at the last check.
    pub times: Vec<u64>,
    /// The most grants allowed per trailing window.
    pub limit: usize,
    /// Every grant ever made, in order.
    pub granted: Ghost<Seq<u64>>,
    /// The clock reading of the latest check.
    pub last_now: Ghost<u64>,
}

impl RateLimiter {
    /// The most grants allowed per trailing window.
    pub open spec fn spec_limit(self) -> usize {
        self.limit
    }

    /// Every grant this limiter has made, in order.
    pub open spec fn history(self) -> Seq<u64> {
        self.granted@
    }

    /// The limiter's invariant: the grant history is sorted, no window
    /// of it ever exceeds the limit, and the kept timestamps are its
    /// recent suffix — never more of them than the limit, each still
    /// inside the window at the latest check, everything older pruned
    /// and gone.
    pub open spec fn wf(self) -> bool {
        &&& sorted(self.granted@)
        &&& spaced(self.granted@, self.limit as int)
        &&& self.times@.len() <= self.granted@.len()
        &&& self.times@.len() <= self.limit
        &&& self.times@ == self.granted@.subrange(
            self.granted@.len() - self.times@.len(),
            self.granted@.len() as int,
        )
        &&& forall|i: int|
            0 <= i < self.times@.len() ==> (#[trigger] self.times@[i]) + WINDOW_MS
                > self.last_now@
        &&& forall|i: int|
            0 <= i < self.granted@.len() - self.times@.len() ==> self.granted@[i] + WINDOW_MS
                <= self.last_now@
        &&& forall|i: int|
            0 <= i < self.granted@.len() ==> #[trigger] self.granted@[i] <= self.last_now@
    }

    /// The latest clock reading this limiter has seen.
    pub open spec fn clock(self) -> u64 {
        self.last_now@
    }

    /// A fresh limiter that will grant at most `limit` requests per
    /// trailing one-second window.
    pub fn new(limit: usize) -> (r: Self)
        ensures
            r.wf(),
            r.spec_limit() == limit,
            r.history() == Seq::<u64>::empty(),
            r.clock() == 0,
    {
        let r = RateLimiter {
            times: Vec::new(),
            limit,
            granted: Ghost(Seq::empty()),
            last_now: Ghost(0),
        };
        proof {
            assert(r.times@ =~= r.granted@.subrange(0, 0));
        }
        r
    }

    /// One check of the limiter at clock reading `now`: prunes entries
    /// older than one window, then grants a slot exactly when fewer than
    /// the limit remain. The caller's clock must not run backwards.
    #[verifier::loop_isolation(false)]
    #[verifier::rlimit(60)]
    pub fn try_acquire(&mut self, now: u64) -> (granted: bool)
        requires
            old(self).wf(),
            now >= old(self).clock(),
        ensures
            final(self).wf(),
            final(self).spec_limit() == old(self).spec_limit(),
            final(self).clock() == now,
            granted <==> count_in_window(old(self).history(), now) < old(self).spec_limit(),
            granted ==> final(self).history() == old(self).history().push(now),
            !granted ==> final(self).history() == old(self).history(),
    {
        let ghost g0 = self.granted@;
        let ghost pred = |t: u64| t + WINDOW_MS > now;
        // Prune entries that have left the window; they sit at the front.
        if now >= WINDOW_MS {
            let cutoff = now - WINDOW_MS;
            while self.times.len() > 0 && self.times[0] <= cutoff
                invariant
                    self.granted == old(self).granted,
                    self.limit == old(self).limit,
                    self.last_now == old(self).last_now,
                    self.times@.len() <= g0.len(),
                    self.times@ == g0.subrange(g0.len() - self.times@.len(), g0.len() as int),
                    forall|i: int|
                        0 <= i < g0.len() - self.times@.len() ==> g0[i] + WINDOW_MS <= now,
                decreases self.times@.len(),
            {
                let ghost t0 = self.times@;
                self.times.remove(0);
                proof {
                    assert(self.times@ =~= g0.subrange(
                        g0.len() - self.times@.len(),
                        g0.len() as int,
                    ));
                }
            }
        }
        proof {
            // Every kept entry is still inside the window.
            let k = self.times@.len() as int;
            assert forall|i: int| g0.len() - k <= i < g0.len() implies g0[i] + WINDOW_MS > now by {
                if now >= WINDOW_MS {
                    assert(g0[g0.len() - k] == self.times@[0]);
                    assert(g0[g0.len() - k] <= g0[i]);
                }
            }
            // The window count of the whole history is the kept suffix's length.
            let prefix = g0.subrange(0, g0.len() - k);
            let suffix = g0.subrange(g0.len() - k, g0.len() as int);
            assert(g0 =~= prefix + suffix);
            Seq::<u64>::filter_distributes_over_add(prefix, suffix, pred);
            lemma_filter_none(prefix, pred);
            lemma_filter_all(suffix, pred);
            assert(prefix.filter(pred) + suffix.filter(pred) =~= suffix);
            assert(count_in_window(g0, now) == k);
        }
        let granted = self.times.len() < self.limit;
        if granted {
            self.times.push(now);
            proof {
                self.granted@ = self.granted@.push(now);
            }
        }
        proof {
            self.last_now@ = now;
        }
        proof {
            if granted {
                let g1 = g0.push(now);
                let k = self.times@.len() as int;
                assert(self.times@ =~= g1.subrange(g1.len() - k, g1.len() as int));
                assert forall|i: int, j: int|
                    0 <= i && i + self.limit <= j < g1.len() implies g1[i] + WINDOW_MS <= g1[j] by {
                    if j < g0.len() {
                        assert(spaced(g0, self.limit as int));
                    } else {
                        // The new grant: all kept entries lie in the window and
                        // number under the limit, so entry `i` was pruned or old.
                        assert(i < g0.len() - (k - 1));
                        assert(g0[i] + WINDOW_MS <= now);
                    }
                }
            }
        }
        granted
    }

    /// How many timestamps the limiter currently keeps; at most the
    /// limit after any granting check.
    pub fn pending(&self) -> (r: usize)
        ensures
            r == self.times@.len(),
    {
        self.times.len()
    }
}

/// A filter keeps nothing when nothing satisfies the predicate.
proof fn lemma_filter_none(s: Seq<u64>, pred: spec_fn(u64) -> bool)
    requires
        forall|i: int| 0 <= i < s.len() ==> !pred(#[trigger] s[i]),
    ensures
        s.filter(pred).len() == 0,
    decreases s.len(),
{
    reveal(Seq::filter);
    if s.len() > 0 {
        lemma_filter_none(s.drop_last(), pred);
    }
}

/// A filter keeps everything when everything satisfies the predicate.
proof fn lemma_filter_all(s: Seq<u64>, pred: spec_fn(u64) -> bool)
    requires
        forall|i: int| 0 <= i < s.len() ==> pred(#[trigger] s[i]),
    ensures
        s.filter(pred) == s,
    decreases s.len(),
{
    reveal(Seq::filter);
    if s.len() > 0 {
        lemma_filter_all(s.drop_last(), pred);
        assert(s.filter(pred) =~= s);
    }
}

/// Law: a well-formed limiter never lets a trailing one-second window
/// hold more than the limit. Whenever two grants in the history both lie
/// inside the window `(t, t + WINDOW_MS]`, fewer than the limit grants
/// separate them — so no such window holds more than `limit` grants.
pub proof fn lemma_no_window_overflow(s: Seq<u64>, limit: int, t: int, i: int, j: int)
    requires
        sorted(s),
        spaced(s, limit),
        0 <= i <= j < s.len(),
        t < s[i],
        s[j] <= t + WINDOW_MS,
    ensures
        j - i < limit,
{
    if j - i >= limit {
        assert(s[i] + WINDOW_MS <= s[j]);
    }
}

/// Law: the limiter's guarantee, stated of the limiter itself. In the
/// grant history of any well-formed limiter, whenever two grants both
/// lie inside one trailing window `(t, t + WINDOW_MS]`, fewer than the
/// limit grants separate them: no trailing one-second window ever holds
/// more than the limit.
pub proof fn lemma_limiter_respects_window(lim: RateLimiter, t: int, i: int, j: int)
    requires
        lim.wf(),
        0 <= i <= j < lim.history().len(),
        t < lim.history()[i],
        lim.history()[j] <= t + WINDOW_MS,
    ensures
        j - i < lim.spec_limit(),
{
    lemma_no_window_overflow(lim.history(), lim.spec_limit() as int, t, i, j);
}

} // verus!
