use vstd::prelude::*;

use super::{finalize_hash, spec_finalize_hash};
use crate::session::Uuid;
use vstd::arithmetic::power2::{lemma2_to64, lemma_pow2_strictly_increases, lemma_pow2_unfold, pow2};

verus! {

/// Milliseconds waited before the first retry on an offline worker.
pub const BASE_BACKOFF: u64 = 1;

/// The longest wait, in milliseconds, between two retries.
pub const MAX_BACKOFF: u64 = 500;

/// The hash of a session identifier: the mix of its low 64 bits.
pub open spec fn spec_uuid_hash(id: Uuid) -> u64 {
    spec_finalize_hash(id.bits as u64)
}

pub fn calculate_hash(cookie_uuid: Uuid) -> (h: u64)
    ensures
        h == spec_uuid_hash(cookie_uuid),
{
    finalize_hash(cookie_uuid.bits as u64)
}

/// The worker that a session is sent to among `length` workers.
pub fn hash_to_index(value: Uuid, length: usize) -> (i: usize)
    requires
        length > 0,
    ensures
        i == spec_uuid_hash(value) % (length as u64),
        i < length,
{
    let hash = calculate_hash(value);
    (hash % (length as u64)) as usize
}

/// Milliseconds waited before retry number `retries` (counted from 0) on
/// an offline worker: the base wait doubled for each earlier retry, but no
/// more than `MAX_BACKOFF`.
pub fn calculate_exponential_backoff(retries: u32) -> (ms: u64)
    requires
        retries < 32,
    ensures
        ms == if BASE_BACKOFF * pow2(retries as nat) <= MAX_BACKOFF {
            BASE_BACKOFF * pow2(retries as nat)
        } else {
            MAX_BACKOFF as int
        },
{
    let mut p: u64 = 1;
    let mut i: u32 = 0;
    proof {
        lemma2_to64();
    }
    while i < retries
        invariant
            i <= retries < 32,
            p == pow2(i as nat),
            pow2(31) == 0x8000_0000,
        decreases retries - i,
    {
        proof {
            lemma_pow2_unfold((i + 1) as nat);
            if i + 1 < 31 {
                lemma_pow2_strictly_increases((i + 1) as nat, 31);
            }
        }
        p = p * 2;
        i = i + 1;
    }
    let backoff = BASE_BACKOFF * p;
    if backoff <= MAX_BACKOFF {
        backoff
    } else {
        MAX_BACKOFF
    }
}

/// Sends each session to the same worker, as long as the set of workers
/// stays the same.
pub struct CookieHash {
    pub targets_len: usize,
}

impl CookieHash {
    pub fn new(targets_len: usize) -> (s: Self)
        ensures
            s.targets_len == targets_len,
    {
        CookieHash { targets_len }
    }

    /// The worker for a session.
    pub fn entry(&self, id: Uuid) -> (i: usize)
        requires
            self.targets_len > 0,
        ensures
            i == spec_uuid_hash(id) % (self.targets_len as u64),
            i < self.targets_len,
    {
        hash_to_index(id, self.targets_len)
    }
}

/// A session is always sent to the same worker, as long as the number of
/// workers stays the same.
pub proof fn lemma_cookie_hash_is_sticky(h: CookieHash, id: Uuid, i: usize, j: usize)
    requires
        h.targets_len > 0,
        i == spec_uuid_hash(id) % (h.targets_len as u64),
        j == spec_uuid_hash(id) % (h.targets_len as u64),
    ensures
        i == j,
        i < h.targets_len,
{
}

} // verus!
