use vstd::prelude::*;

use vstd::arithmetic::div_mod::{lemma_add_mod_noop, lemma_mod_bound, lemma_small_mod};

verus! {

/// Hands the workers out in turn.
pub struct RoundRobin {
    /// Counts the picks made so far (it wraps around at `usize::MAX`).
    pub index: usize,
    pub targets_len: usize,
}

/// The counter after one more pick.
pub open spec fn next_index(index: usize) -> usize {
    if index == usize::MAX {
        0
    } else {
        (index + 1) as usize
    }
}

impl RoundRobin {
    pub fn new(targets_len: usize) -> (s: Self)
        ensures
            s.index == 0,
            s.targets_len == targets_len,
    {
        RoundRobin { index: 0, targets_len }
    }

    /// The worker that the next pick hands out.
    pub open spec fn spec_current(&self) -> int {
        self.index as int % self.targets_len as int
    }

    /// Hands out the next worker: the counter modulo the number of workers.
    pub fn next(&mut self) -> (i: usize)
        requires
            old(self).targets_len > 0,
        ensures
            i == old(self).spec_current(),
            i < old(self).targets_len,
            final(self).index == next_index(old(self).index),
            final(self).targets_len == old(self).targets_len,
    {
        let i = self.index % self.targets_len;
        self.index = self.index.wrapping_add(1);
        i
    }
}

/// Two picks in a row hand out neighbouring workers, the last worker being
/// followed by the first (until the pick counter wraps around).
pub proof fn lemma_round_robin_takes_turns(rr: RoundRobin)
    requires
        rr.targets_len > 0,
        rr.index < usize::MAX,
    ensures
        (RoundRobin { index: next_index(rr.index), targets_len: rr.targets_len }).spec_current()
            == (rr.spec_current() + 1) % rr.targets_len as int,
{
    let n = rr.targets_len as int;
    lemma_add_mod_noop(rr.index as int, 1, n);
    if n == 1 {
        assert((rr.index as int + 1) % 1 == 0);
        assert(rr.index as int % 1 == 0);
    } else {
        lemma_small_mod(1, n as nat);
    }
}

/// Within any run of as many picks as there are workers, every worker is
/// handed out: worker `t` comes up `(t - current) mod n` picks later.
pub proof fn lemma_round_robin_reaches_every_target(rr: RoundRobin, t: int)
    requires
        rr.targets_len > 0,
        0 <= t < rr.targets_len,
    ensures
        ({
            let n = rr.targets_len as int;
            let k = (t - rr.spec_current() + n) % n;
            &&& 0 <= k < n
            &&& (rr.index as int + k) % n == t
        }),
{
    let n = rr.targets_len as int;
    let c = rr.spec_current();
    lemma_mod_bound(rr.index as int, n);
    let k = (t - c + n) % n;
    lemma_mod_bound(t - c + n, n);
    lemma_add_mod_noop(rr.index as int, t - c + n, n);
    assert((rr.index as int % n + (t - c + n) % n) % n == (rr.index as int + (t - c + n)) % n);
    lemma_add_mod_noop(rr.index as int, k, n);
    lemma_mod_bound(k, n);
    lemma_small_mod(k as nat, n as nat);
    assert((rr.index as int % n + k % n) % n == (rr.index as int + k) % n);
    assert(rr.index as int + (t - c + n) == (rr.index as int - c) + t + n);
    vstd::arithmetic::div_mod::lemma_fundamental_div_mod(rr.index as int, n);
    assert(rr.index as int - c == n * (rr.index as int / n));
    vstd::arithmetic::div_mod::lemma_mod_multiples_vanish(rr.index as int / n + 1, t, n);
    assert((n * (rr.index as int / n + 1) + t) % n == t % n);
    assert(n * (rr.index as int / n + 1) == n * (rr.index as int / n) + n) by (nonlinear_arith);
    lemma_small_mod(t as nat, n as nat);
}

} // verus!
