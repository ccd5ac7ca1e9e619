use vstd::prelude::*;

use std::collections::HashMap;

verus! {

broadcast use vstd::std_specs::hash::group_hash_axioms;

/// Whether a lock is held.
#[derive(Clone, Copy, Debug, PartialEq, Eq, Structural)]
pub enum State {
    Locked,
    Open,
}

/// The lock of one key.
#[derive(Clone, Copy, Debug, PartialEq, Eq, Structural)]
pub struct Lock {
    pub state: State,
    pub key: u64,
}

impl Lock {
    /// An open lock for `key`.
    pub fn new(key: u64) -> (l: Self)
        ensures
            l.state == State::Open,
            l.key == key,
    {
        Lock { state: State::Open, key }
    }

    /// Whether the lock is held.
    pub fn state(&self) -> (s: State)
        ensures
            s == self.state,
    {
        self.state
    }
}

/// One lock per key; a key that was never asked for is open.
pub struct Locks {
    locks: HashMap<u64, Lock>,
}

impl Locks {
    /// For each key asked for so far, whether its lock is held.
    pub closed spec fn held(&self) -> Map<u64, bool> {
        Map::new(
            |k: u64| self.locks@.contains_key(k),
            |k: u64| self.locks@[k].state == State::Locked,
        )
    }

    /// Each lock is stored under its own key.
    pub closed spec fn wf(&self) -> bool {
        forall|k: u64| #[trigger] self.locks@.contains_key(k) ==> self.locks@[k].key == k
    }

    /// Whether the lock of `k` is held.
    pub open spec fn is_held(&self, k: u64) -> bool {
        self.held().contains_key(k) && self.held()[k]
    }

    /// No lock yet.
    pub fn new() -> (l: Self)
        ensures
            l.wf(),
            l.held() == Map::<u64, bool>::empty(),
    {
        let l = Locks { locks: HashMap::new() };
        assert(l.held() =~= Map::<u64, bool>::empty());
        l
    }

    /// Takes the lock of `key`: `None` where it is held already; else the
    /// lock, now held.
    pub fn try_acquire(&mut self, key: u64) -> (r: Option<Lock>)
        requires
            old(self).wf(),
        ensures
            final(self).wf(),
            old(self).is_held(key) ==> r is None && final(self).held() == old(self).held(),
            !old(self).is_held(key) ==> r == Some(Lock { state: State::Locked, key })
                && final(self).held() == old(self).held().insert(key, true),
    {
        let current = match self.locks.get(&key) {
            Some(l) => l.state,
            None => State::Open,
        };
        match current {
            State::Locked => {
                proof {
                    assert(old(self).is_held(key));
                }
                None
            },
            State::Open => {
                let lock = Lock { state: State::Locked, key };
                self.locks.insert(key, lock);
                proof {
                    assert(self.held() =~= old(self).held().insert(key, true));
                }
                Some(lock)
            },
        }
    }

    /// Gives the lock back: the lock of its key is open again. The lock must
    /// have been taken from these locks.
    pub fn release(&mut self, lock: Lock)
        requires
            old(self).wf(),
            old(self).held().contains_key(lock.key),
        ensures
            final(self).wf(),
            final(self).held() == old(self).held().insert(lock.key, false),
    {
        let l = Lock { state: State::Open, key: lock.key };
        self.locks.insert(lock.key, l);
        proof {
            assert(self.held() =~= old(self).held().insert(lock.key, false));
        }
    }
}

/// Once the lock of a key is taken, it cannot be taken again until it is
/// given back; after that it can.
pub proof fn lemma_lock_excludes_until_release(
    before: Map<u64, bool>,
    after_take: Map<u64, bool>,
    after_release: Map<u64, bool>,
    k: u64,
)
    requires
        after_take == before.insert(k, true),
        after_release == after_take.insert(k, false),
    ensures
        after_take.contains_key(k) && after_take[k],
        after_release.contains_key(k) && !after_release[k],
{
}

} // verus!
