use vstd::prelude::*;

pub mod cookie_hash;
pub mod ip_extractor;
pub mod ip_hash;
pub mod round_robin;
pub mod round_robin_rps;

pub use ip_extractor::IpExtractor;

use crate::error::FaucetResult;
use crate::networking::IpAddress;
use crate::session::Uuid;
use crate::text::str_equals;
use cookie_hash::{spec_uuid_hash, CookieHash};
use ip_extractor::{extraction_result, IpCandidate, ProxyHeaders};
use ip_hash::{spec_ip_hash, IpHash};
use round_robin::{next_index, RoundRobin};
use round_robin_rps::{rps_step_holds, RequestCounter, RoundRobinRps, RpsAction, RpsCursor};

verus! {

/// How requests are spread over the workers.
#[derive(Debug, Clone, Copy, PartialEq, Eq, Structural)]
pub enum Strategy {
    RoundRobin,
    IpHash,
    CookieHash,
    Rps,
}

impl Strategy {
    /// The strategy that a configuration name stands for.
    pub open spec fn spec_from_name(s: Seq<char>) -> Option<Strategy> {
        if s == "round_robin"@ {
            Some(Strategy::RoundRobin)
        } else if s == "ip_hash"@ {
            Some(Strategy::IpHash)
        } else if s == "cookie_hash"@ {
            Some(Strategy::CookieHash)
        } else if s == "rps"@ {
            Some(Strategy::Rps)
        } else {
            None
        }
    }

    /// Reads a strategy from its configuration name; any other text is
    /// refused with "invalid strategy".
    pub fn from_str(s: &str) -> (r: Result<Strategy, &'static str>)
        ensures
            match Strategy::spec_from_name(s@) {
                Some(st) => r == Ok::<Strategy, &'static str>(st),
                None => r matches Err(m) && m@ == "invalid strategy"@,
            },
    {
        if str_equals(s, "round_robin") {
            Ok(Strategy::RoundRobin)
        } else if str_equals(s, "ip_hash") {
            Ok(Strategy::IpHash)
        } else if str_equals(s, "cookie_hash") {
            Ok(Strategy::CookieHash)
        } else if str_equals(s, "rps") {
            Ok(Strategy::Rps)
        } else {
            Err("invalid strategy")
        }
    }
}

/// The mixing step that spreads a 64-bit value over all 64 bits.
pub open spec fn spec_finalize_hash(x: u64) -> u64 {
    let a = x ^ (x >> 33u64);
    let b = ((a as nat * 0xff51afd7ed558ccdu64 as nat) % 0x1_0000_0000_0000_0000nat) as u64;
    let c = b ^ (b >> 33u64);
    let d = ((c as nat * 0xc4ceb9fe1a85ec53u64 as nat) % 0x1_0000_0000_0000_0000nat) as u64;
    d ^ (d >> 33u64)
}

pub fn finalize_hash(x: u64) -> (h: u64)
    ensures
        h == spec_finalize_hash(x),
{
    let mut hash_value = x;
    hash_value = hash_value ^ (hash_value >> 33u64);
    hash_value = hash_value.wrapping_mul(0xff51afd7ed558ccdu64);
    hash_value = hash_value ^ (hash_value >> 33u64);
    hash_value = hash_value.wrapping_mul(0xc4ceb9fe1a85ec53u64);
    hash_value = hash_value ^ (hash_value >> 33u64);
    hash_value
}


/// What identifies a client to the load balancer.
#[derive(Debug, Clone, Copy, PartialEq, Eq, Structural)]
pub enum LBIdent {
    Ip(IpAddress),
    Uuid(Uuid),
}

/// The state of the strategy in use.
pub enum DynLoadBalancer {
    IpHash(IpHash),
    RoundRobin(RoundRobin),
    CookieHash(CookieHash),
    Rps(RoundRobinRps),
}

/// The first answer of a strategy to a request.
#[derive(Debug, Clone, Copy, PartialEq, Eq, Structural)]
pub enum Pick {
    /// This worker, once it is online (the hash strategies).
    Fixed(usize),
    /// This worker if it is online; otherwise ask again (round robin).
    Next(usize),
    /// A requests-per-second pick that continues with `rps_step`.
    Rps(RpsCursor),
}

/// Spreads requests over `n` workers with one strategy and finds the
/// address of each client.
pub struct LoadBalancer {
    pub strategy: DynLoadBalancer,
    pub extractor: IpExtractor,
}

impl DynLoadBalancer {
    pub open spec fn spec_strategy(&self) -> Strategy {
        match self {
            DynLoadBalancer::RoundRobin(_) => Strategy::RoundRobin,
            DynLoadBalancer::IpHash(_) => Strategy::IpHash,
            DynLoadBalancer::CookieHash(_) => Strategy::CookieHash,
            DynLoadBalancer::Rps(_) => Strategy::Rps,
        }
    }

    /// The number of workers.
    pub open spec fn spec_len(&self) -> int {
        match self {
            DynLoadBalancer::RoundRobin(rr) => rr.targets_len as int,
            DynLoadBalancer::IpHash(h) => h.targets_len as int,
            DynLoadBalancer::CookieHash(h) => h.targets_len as int,
            DynLoadBalancer::Rps(r) => r.len(),
        }
    }
}

impl LoadBalancer {
    /// A load balancer over `n_workers` workers, with every counter at zero.
    pub fn new(strategy: Strategy, extractor: IpExtractor, n_workers: usize) -> (lb: Self)
        ensures
            lb.strategy.spec_strategy() == strategy,
            lb.strategy.spec_len() == n_workers,
            lb.extractor == extractor,
            lb.strategy matches DynLoadBalancer::RoundRobin(rr) ==> rr.index == 0,
            lb.strategy matches DynLoadBalancer::Rps(r) ==> r.index == 0,
            lb.strategy matches DynLoadBalancer::Rps(r) ==> forall|i: int|
                0 <= i < r.counters@.len() ==> #[trigger] r.counters@[i] == RequestCounter::new_spec(),
    {
        let strategy = match strategy {
            Strategy::RoundRobin => DynLoadBalancer::RoundRobin(RoundRobin::new(n_workers)),
            Strategy::IpHash => DynLoadBalancer::IpHash(IpHash::new(n_workers)),
            Strategy::CookieHash => DynLoadBalancer::CookieHash(CookieHash::new(n_workers)),
            Strategy::Rps => DynLoadBalancer::Rps(RoundRobinRps::new(n_workers)),
        };
        LoadBalancer { strategy, extractor }
    }

    pub fn get_strategy(&self) -> (s: Strategy)
        ensures
            s == self.strategy.spec_strategy(),
    {
        match self.strategy {
            DynLoadBalancer::RoundRobin(_) => Strategy::RoundRobin,
            DynLoadBalancer::IpHash(_) => Strategy::IpHash,
            DynLoadBalancer::CookieHash(_) => Strategy::CookieHash,
            DynLoadBalancer::Rps(_) => Strategy::Rps,
        }
    }

    /// The worker choice for a client. A session identifier is given
    /// exactly when the strategy is the cookie hash; it then decides alone.
    /// Otherwise the client's address decides for the address hash, and
    /// the strategy's own state for round robin and requests per second.
    pub fn get_client(&mut self, ip: IpAddress, uuid: Option<Uuid>) -> (p: Pick)
        requires
            old(self).strategy.spec_len() > 0,
            uuid is Some <==> old(self).strategy.spec_strategy() == Strategy::CookieHash,
            old(self).strategy matches DynLoadBalancer::Rps(r) ==> r.index < usize::MAX,
        ensures
            final(self).extractor == old(self).extractor,
            final(self).strategy.spec_strategy() == old(self).strategy.spec_strategy(),
            final(self).strategy.spec_len() == old(self).strategy.spec_len(),
            match old(self).strategy {
                DynLoadBalancer::CookieHash(h) => p == Pick::Fixed(
                    (spec_uuid_hash(uuid->0) % (h.targets_len as u64)) as usize,
                ) && final(self).strategy == old(self).strategy,
                DynLoadBalancer::IpHash(h) => p == Pick::Fixed(
                    (spec_ip_hash(ip) % (h.targets_len as u64)) as usize,
                ) && final(self).strategy == old(self).strategy,
                DynLoadBalancer::RoundRobin(rr) => p == Pick::Next(rr.spec_current() as usize)
                    && final(self).strategy == DynLoadBalancer::RoundRobin(
                    RoundRobin { index: next_index(rr.index), targets_len: rr.targets_len },
                ),
                DynLoadBalancer::Rps(r) => p == Pick::Rps(
                    RpsCursor { index: r.index, use_next_online_target: false, is_first_round: true },
                ) && final(self).strategy == old(self).strategy,
            },
    {
        let ident = match uuid {
            Some(id) => LBIdent::Uuid(id),
            None => LBIdent::Ip(ip),
        };
        self.entry(ident)
    }

    fn entry(&mut self, ident: LBIdent) -> (p: Pick)
        requires
            old(self).strategy.spec_len() > 0,
            ident is Uuid <==> old(self).strategy.spec_strategy() == Strategy::CookieHash,
            old(self).strategy matches DynLoadBalancer::Rps(r) ==> r.index < usize::MAX,
        ensures
            final(self).extractor == old(self).extractor,
            final(self).strategy.spec_strategy() == old(self).strategy.spec_strategy(),
            final(self).strategy.spec_len() == old(self).strategy.spec_len(),
            match old(self).strategy {
                DynLoadBalancer::CookieHash(h) => p == Pick::Fixed(
                    (spec_uuid_hash(ident->Uuid_0) % (h.targets_len as u64)) as usize,
                ) && final(self).strategy == old(self).strategy,
                DynLoadBalancer::IpHash(h) => p == Pick::Fixed(
                    (spec_ip_hash(ident->Ip_0) % (h.targets_len as u64)) as usize,
                ) && final(self).strategy == old(self).strategy,
                DynLoadBalancer::RoundRobin(rr) => p == Pick::Next(rr.spec_current() as usize)
                    && final(self).strategy == DynLoadBalancer::RoundRobin(
                    RoundRobin { index: next_index(rr.index), targets_len: rr.targets_len },
                ),
                DynLoadBalancer::Rps(r) => p == Pick::Rps(
                    RpsCursor { index: r.index, use_next_online_target: false, is_first_round: true },
                ) && final(self).strategy == old(self).strategy,
            },
    {
        match &mut self.strategy {
            DynLoadBalancer::CookieHash(h) => match ident {
                LBIdent::Uuid(id) => Pick::Fixed(h.entry(id)),
                LBIdent::Ip(_) => {
                    assert(false);
                    Pick::Fixed(0)
                },
            },
            DynLoadBalancer::IpHash(h) => match ident {
                LBIdent::Ip(ip) => Pick::Fixed(h.entry(ip)),
                LBIdent::Uuid(_) => {
                    assert(false);
                    Pick::Fixed(0)
                },
            },
            DynLoadBalancer::RoundRobin(rr) => match ident {
                LBIdent::Ip(_) => Pick::Next(rr.next()),
                LBIdent::Uuid(_) => {
                    assert(false);
                    Pick::Fixed(0)
                },
            },
            DynLoadBalancer::Rps(r) => match ident {
                LBIdent::Ip(_) => Pick::Rps(r.entry_start()),
                LBIdent::Uuid(_) => {
                    assert(false);
                    Pick::Fixed(0)
                },
            },
        }
    }

    /// Asks the round robin strategy for its next worker.
    pub fn next_round_robin(&mut self) -> (i: usize)
        requires
            old(self).strategy matches DynLoadBalancer::RoundRobin(rr) && rr.targets_len > 0,
        ensures
            i == old(self).strategy->RoundRobin_0.spec_current(),
            final(self).strategy == DynLoadBalancer::RoundRobin(
                RoundRobin {
                    index: next_index(old(self).strategy->RoundRobin_0.index),
                    targets_len: old(self).strategy->RoundRobin_0.targets_len,
                },
            ),
            final(self).extractor == old(self).extractor,
    {
        match &mut self.strategy {
            DynLoadBalancer::RoundRobin(rr) => rr.next(),
            _ => {
                assert(false);
                0
            },
        }
    }

    /// One step of a requests-per-second pick (see `RoundRobinRps::entry_step`).
    pub fn rps_step(&mut self, cursor: &mut RpsCursor, online: bool) -> (a: RpsAction)
        requires
            old(self).strategy matches DynLoadBalancer::Rps(r) && 0 < r.len() < usize::MAX,
            old(cursor).index < usize::MAX,
        ensures
            final(self).extractor == old(self).extractor,
            final(self).strategy is Rps,
            final(cursor).index < usize::MAX,
            rps_step_holds(
                old(self).strategy->Rps_0.index,
                old(self).strategy->Rps_0.counters@,
                *old(cursor),
                online,
                final(self).strategy->Rps_0.index,
                final(self).strategy->Rps_0.counters@,
                *final(cursor),
                a,
            ),
    {
        match &mut self.strategy {
            DynLoadBalancer::Rps(r) => r.entry_step(cursor, online),
            _ => {
                assert(false);
                RpsAction::Skip
            },
        }
    }

    /// Finds where the client's address is (see `IpExtractor::extract`).
    pub fn extract_ip(&self, headers: &ProxyHeaders, socket: Option<IpAddress>) -> (r: FaucetResult<
        IpCandidate,
    >)
        requires
            self.extractor == IpExtractor::ClientAddr ==> socket is Some,
        ensures
            extraction_result(self.extractor, headers, socket, r),
    {
        self.extractor.extract(headers, socket)
    }
}

} // verus!
