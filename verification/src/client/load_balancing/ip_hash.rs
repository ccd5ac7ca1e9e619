use vstd::prelude::*;

use super::{finalize_hash, spec_finalize_hash};
use crate::networking::IpAddress;
use vstd::arithmetic::power2::{lemma2_to64, lemma_pow2_strictly_increases, lemma_pow2_unfold, pow2};

verus! {

/// Milliseconds waited before the first retry on an offline worker.
pub const BASE_BACKOFF: u64 = 50;

/// The 64 bits of an address that enter the hash: all of an IPv4 address,
/// the low 64 bits of an IPv6 address.
pub open spec fn ip_hash_input(ip: IpAddress) -> u64 {
    match ip {
        IpAddress::V4(bits) => bits as u64,
        IpAddress::V6(bits) => bits as u64,
    }
}

/// The hash of an address.
pub open spec fn spec_ip_hash(ip: IpAddress) -> u64 {
    spec_finalize_hash(ip_hash_input(ip))
}

pub fn calculate_hash(ip: IpAddress) -> (h: u64)
    ensures
        h == spec_ip_hash(ip),
{
    let bits: u64 = match ip {
        IpAddress::V4(bits) => bits as u64,
        IpAddress::V6(bits) => bits as u64,
    };
    finalize_hash(bits)
}

/// The worker that an address is sent to among `length` workers.
pub fn hash_to_index(value: IpAddress, length: usize) -> (i: usize)
    requires
        length > 0,
    ensures
        i == spec_ip_hash(value) % (length as u64),
        i < length,
{
    let hash = calculate_hash(value);
    (hash % (length as u64)) as usize
}

/// Milliseconds waited before retry number `retries` (counted from 0) on
/// an offline worker: the base wait, doubled for each earlier retry.
pub fn calculate_exponential_backoff(retries: u32) -> (ms: u64)
    requires
        retries < 32,
    ensures
        ms == BASE_BACKOFF * pow2(retries as nat),
{
    let mut p: u64 = 1;
    let mut i: u32 = 0;
    proof {
        lemma2_to64();
    }
    while i < retries
        invariant
            i <= retries < 32,
            p == pow2(i as nat),
            pow2(31) == 0x8000_0000,
        decreases retries - i,
    {
        proof {
            lemma_pow2_unfold((i + 1) as nat);
            if i + 1 < 31 {
                lemma_pow2_strictly_increases((i + 1) as nat, 31);
            }
        }
        p = p * 2;
        i = i + 1;
    }
    BASE_BACKOFF * p
}

/// Sends each client address to the same worker, as long as the set of
/// workers stays the same.
pub struct IpHash {
    pub targets_len: usize,
}

impl IpHash {
    pub fn new(targets_len: usize) -> (s: Self)
        ensures
            s.targets_len == targets_len,
    {
        IpHash { targets_len }
    }

    /// The worker for a client address.
    pub fn entry(&self, ip: IpAddress) -> (i: usize)
        requires
            self.targets_len > 0,
        ensures
            i == spec_ip_hash(ip) % (self.targets_len as u64),
            i < self.targets_len,
    {
        hash_to_index(ip, self.targets_len)
    }
}

/// A client address is always sent to the same worker.
pub proof fn lemma_ip_hash_is_sticky(h: IpHash, ip: IpAddress, i: usize, j: usize)
    requires
        h.targets_len > 0,
        i == spec_ip_hash(ip) % (h.targets_len as u64),
        j == spec_ip_hash(ip) % (h.targets_len as u64),
    ensures
        i == j,
{
}

} // verus!
