use faucet_server::client::load_balancing::cookie_hash;
use faucet_server::client::load_balancing::ip_extractor::{IpCandidate, ProxyHeaders};
use faucet_server::client::load_balancing::ip_hash;
use faucet_server::client::load_balancing::round_robin::RoundRobin;
use faucet_server::client::load_balancing::round_robin_rps::{
    RequestCounter, RoundRobinRps, RpsAction,
};
use faucet_server::client::load_balancing::{
    DynLoadBalancer, IpExtractor, LoadBalancer, Pick, Strategy,
};
use faucet_server::error::{BadRequestReason, FaucetError};
use faucet_server::networking::IpAddress;
use faucet_server::session::Uuid;

#[test]
fn cookie_hash_test_calculate_exponential_backoff() {
    assert_eq!(cookie_hash::calculate_exponential_backoff(0), cookie_hash::BASE_BACKOFF);
    assert_eq!(cookie_hash::calculate_exponential_backoff(1), cookie_hash::BASE_BACKOFF * 2);
    assert_eq!(cookie_hash::calculate_exponential_backoff(2), cookie_hash::BASE_BACKOFF * 4);
    assert_eq!(cookie_hash::calculate_exponential_backoff(3), cookie_hash::BASE_BACKOFF * 8);
}

#[test]
fn cookie_hash_backoff_is_capped() {
    assert_eq!(cookie_hash::calculate_exponential_backoff(8), 256);
    assert_eq!(cookie_hash::calculate_exponential_backoff(9), cookie_hash::MAX_BACKOFF);
    assert_eq!(cookie_hash::calculate_exponential_backoff(31), cookie_hash::MAX_BACKOFF);
}

#[test]
fn ip_hash_test_calculate_exponential_backoff() {
    assert_eq!(ip_hash::calculate_exponential_backoff(0), ip_hash::BASE_BACKOFF);
    assert_eq!(ip_hash::calculate_exponential_backoff(1), ip_hash::BASE_BACKOFF * 2);
    assert_eq!(ip_hash::calculate_exponential_backoff(2), ip_hash::BASE_BACKOFF * 4);
    assert_eq!(ip_hash::calculate_exponential_backoff(3), ip_hash::BASE_BACKOFF * 8);
}

#[test]
fn test_strategy_from_str() {
    assert_eq!(
        Strategy::from_str("round_robin").unwrap(),
        Strategy::RoundRobin
    );
    assert_eq!(Strategy::from_str("ip_hash").unwrap(), Strategy::IpHash);
    assert!(Strategy::from_str("invalid").is_err());
}

#[test]
fn strategy_from_str_other_names() {
    assert_eq!(
        Strategy::from_str("cookie_hash").unwrap(),
        Strategy::CookieHash
    );
    assert_eq!(Strategy::from_str("rps").unwrap(), Strategy::Rps);
    assert_eq!(Strategy::from_str("Round_Robin"), Err("invalid strategy"));
}

fn shares(counts: &[usize], n: usize) -> Vec<f64> {
    counts.iter().map(|c| *c as f64 / n as f64).collect()
}

fn uuid_distribution(len: usize, low: f64, high: f64) {
    const N_UUIDS: usize = 100_000;
    let uuids: Vec<Uuid> = (0..N_UUIDS)
        .map(|_| Uuid::from_u128(uuid::Uuid::now_v7().as_u128()))
        .collect();
    let mut counts = vec![0usize; len];
    uuids.iter().for_each(|uuid| {
        let index = cookie_hash::hash_to_index(*uuid, len);
        counts[index] += 1;
    });
    for p in shares(&counts, N_UUIDS) {
        assert!((low..=high).contains(&p));
    }
}

#[test]
fn uuid_test_distribution_of_hash_function_len_4() {
    uuid_distribution(4, 0.24, 0.26);
}

#[test]
fn uuid_test_distribution_of_hash_function_len_3() {
    uuid_distribution(3, 0.32, 0.34);
}

#[test]
fn uuid_test_distribution_of_hash_function_len_2() {
    uuid_distribution(2, 0.49, 0.51);
}

fn ip_distribution(v6: bool, len: usize, low: f64, high: f64) {
    const N_IP: usize = 100_000;
    let ips: Vec<IpAddress> = (0..N_IP)
        .map(|_| {
            if v6 {
                IpAddress::V6(rand::random::<u128>())
            } else {
                IpAddress::V4(rand::random::<u32>())
            }
        })
        .collect();
    let mut counts = vec![0usize; len];
    ips.iter().for_each(|ip| {
        let index = ip_hash::hash_to_index(*ip, len);
        counts[index] += 1;
    });
    for p in shares(&counts, N_IP) {
        assert!((low..=high).contains(&p));
    }
}

#[test]
fn ip_v4_test_distribution_of_hash_function_len_4() {
    ip_distribution(false, 4, 0.24, 0.26);
}

#[test]
fn ip_v4_test_distribution_of_hash_function_len_3() {
    ip_distribution(false, 3, 0.32, 0.34);
}

#[test]
fn ip_v4_test_distribution_of_hash_function_len_2() {
    ip_distribution(false, 2, 0.49, 0.51);
}

#[test]
fn ip_v6_test_distribution_of_hash_function_len_4() {
    ip_distribution(true, 4, 0.24, 0.26);
}

#[test]
fn ip_v6_test_distribution_of_hash_function_len_3() {
    ip_distribution(true, 3, 0.32, 0.34);
}

#[test]
fn ip_v6_test_distribution_of_hash_function_len_2() {
    ip_distribution(true, 2, 0.49, 0.51);
}

#[test]
fn ip_hash_known_value() {
    // The mixing steps applied by hand to 1: x ^= x >> 33 keeps 1, then
    // wrapping multiplications and shifts.
    let mut x: u64 = 1;
    x ^= x >> 33;
    x = x.wrapping_mul(0xff51afd7ed558ccd);
    x ^= x >> 33;
    x = x.wrapping_mul(0xc4ceb9fe1a85ec53);
    x ^= x >> 33;
    assert_eq!(ip_hash::calculate_hash(IpAddress::V4(1)), x);
    assert_eq!(ip_hash::hash_to_index(IpAddress::V4(1), 7), (x % 7) as usize);
}

#[test]
fn ip_hash_is_sticky_on_values() {
    let h = ip_hash::IpHash::new(5);
    let ip = IpAddress::V4(0xC0A8_0001);
    let first = h.entry(ip);
    for _ in 0..10 {
        assert_eq!(h.entry(ip), first);
    }
    assert!(first < 5);
}

#[test]
fn cookie_hash_is_sticky_on_values() {
    let h = cookie_hash::CookieHash::new(3);
    let id = Uuid::from_u128(0x0123_4567_89ab_cdef_0123_4567_89ab_cdef);
    let first = h.entry(id);
    assert_eq!(h.entry(id), first);
    assert!(first < 3);
}

#[test]
fn test_load_balancer_new_round_robin() {
    let lb = LoadBalancer::new(Strategy::RoundRobin, IpExtractor::XForwardedFor, 0);
    assert_eq!(lb.get_strategy(), Strategy::RoundRobin);
}

#[test]
fn test_load_balancer_new_ip_hash() {
    let lb = LoadBalancer::new(Strategy::IpHash, IpExtractor::XForwardedFor, 0);
    assert_eq!(lb.get_strategy(), Strategy::IpHash);
}

#[test]
fn test_load_balancer_extract_ip() {
    let lb = LoadBalancer::new(Strategy::RoundRobin, IpExtractor::XForwardedFor, 0);
    let headers = ProxyHeaders {
        x_forwarded_for: Some(b"192.168.0.1".to_vec()),
        x_real_ip: None,
    };
    let candidate = lb
        .extract_ip(&headers, Some(IpAddress::V4(0x7f00_0001)))
        .ok()
        .expect("failed to extract ip");
    match &candidate {
        IpCandidate::Text { text, .. } => assert_eq!(text.as_slice(), b"192.168.0.1"),
        IpCandidate::Known(_) => panic!("expected the header's text"),
    }
    let ip = candidate.resolve(Some(IpAddress::V4(0xC0A8_0001)));
    assert!(matches!(ip, Ok(IpAddress::V4(0xC0A8_0001))));
}

fn headers(x_forwarded_for: Option<&str>, x_real_ip: Option<&str>) -> ProxyHeaders {
    ProxyHeaders {
        x_forwarded_for: x_forwarded_for.map(|v| v.as_bytes().to_vec()),
        x_real_ip: x_real_ip.map(|v| v.as_bytes().to_vec()),
    }
}

/// Extracts with `x` and checks the address text found; the text is then
/// taken to parse as `parsed`, and the final address is returned.
fn extract_text(
    x: IpExtractor,
    h: &ProxyHeaders,
    client: Option<IpAddress>,
    expected_text: Option<&str>,
    parsed: IpAddress,
) -> IpAddress {
    let candidate = x.extract(h, client).ok().expect("the address is found");
    match (&candidate, expected_text) {
        (IpCandidate::Text { text, .. }, Some(t)) => assert_eq!(text.as_slice(), t.as_bytes()),
        (IpCandidate::Known(_), None) => {}
        _ => panic!("unexpected source of the address"),
    }
    candidate.resolve(Some(parsed)).ok().expect("the text parses")
}

const LOCALHOST_V4: IpAddress = IpAddress::V4(0x7f00_0001);
const LOCALHOST_V6: IpAddress = IpAddress::V6(1);
const PRIVATE_V4: IpAddress = IpAddress::V4(0xc0a8_0001);

#[test]
fn extract_ip_from_x_forwarded_for_ipv4() {
    let h = headers(Some("127.0.0.1"), None);
    let ip = extract_text(IpExtractor::XForwardedFor, &h, None, Some("127.0.0.1"), LOCALHOST_V4);
    assert_eq!(ip, LOCALHOST_V4);
}

#[test]
fn extract_ip_from_x_forwarded_for_ipv6() {
    let h = headers(Some("::1"), None);
    let ip = extract_text(IpExtractor::XForwardedFor, &h, None, Some("::1"), LOCALHOST_V6);
    assert_eq!(ip, LOCALHOST_V6);
}

#[test]
fn extract_ip_from_x_forwarded_for_multiple() {
    let h = headers(Some("192.168.0.1, 127.0.0.1"), None);
    let ip = extract_text(IpExtractor::XForwardedFor, &h, None, Some("192.168.0.1"), PRIVATE_V4);
    assert_eq!(ip, PRIVATE_V4);
}

#[test]
fn extract_x_real_ip_ipv4_from_request() {
    let h = headers(None, Some("127.0.0.1"));
    let ip = extract_text(IpExtractor::XRealIp, &h, Some(IpAddress::V4(0)), Some("127.0.0.1"), LOCALHOST_V4);
    assert_eq!(ip, LOCALHOST_V4);
}

#[test]
fn extract_x_real_ip_ipv6_from_request() {
    let h = headers(None, Some("::1"));
    let ip = extract_text(IpExtractor::XRealIp, &h, Some(IpAddress::V4(0)), Some("::1"), LOCALHOST_V6);
    assert_eq!(ip, LOCALHOST_V6);
}

#[test]
fn extract_x_forwarded_for_ipv4_from_request() {
    let h = headers(Some("127.0.0.1"), None);
    let ip = extract_text(IpExtractor::XForwardedFor, &h, Some(IpAddress::V4(0)), Some("127.0.0.1"), LOCALHOST_V4);
    assert_eq!(ip, LOCALHOST_V4);
}

#[test]
fn extract_x_forwarded_for_ipv6_from_request() {
    let h = headers(Some("::1"), None);
    let ip = extract_text(IpExtractor::XForwardedFor, &h, Some(IpAddress::V4(0)), Some("::1"), LOCALHOST_V6);
    assert_eq!(ip, LOCALHOST_V6);
}

#[test]
fn extract_x_forwarded_for_ipv4_from_request_multiple() {
    let h = headers(Some("192.168.0.1, 127.0.0.1"), None);
    let ip = extract_text(IpExtractor::XForwardedFor, &h, Some(IpAddress::V4(0)), Some("192.168.0.1"), PRIVATE_V4);
    assert_eq!(ip, PRIVATE_V4);
}

#[test]
fn extract_client_addr_ipv4_from_request() {
    let h = headers(None, None);
    let ip = extract_text(IpExtractor::ClientAddr, &h, Some(LOCALHOST_V4), None, PRIVATE_V4);
    assert_eq!(ip, LOCALHOST_V4);
}

#[test]
fn extract_client_addr_ipv6_from_request() {
    let h = headers(None, None);
    let ip = extract_text(IpExtractor::ClientAddr, &h, Some(LOCALHOST_V6), None, PRIVATE_V4);
    assert_eq!(ip, LOCALHOST_V6);
}

#[test]
fn extract_client_addr_ipv4_with_x_forwarded_for_from_request() {
    let h = headers(Some("192.168.0.1"), None);
    let ip = extract_text(IpExtractor::ClientAddr, &h, Some(LOCALHOST_V4), None, PRIVATE_V4);
    assert_eq!(ip, LOCALHOST_V4);
}

#[test]
fn extract_x_forwarded_for_trims_first_entry() {
    let h = headers(Some(" 10.0.0.1 , 10.0.0.2"), None);
    match IpExtractor::XForwardedFor.extract(&h, None) {
        Ok(IpCandidate::Text { text, .. }) => assert_eq!(text.as_slice(), b"10.0.0.1"),
        _ => panic!("expected the first address"),
    }
}

#[test]
fn extract_client_addr_ignores_headers() {
    let headers = ProxyHeaders {
        x_forwarded_for: Some(b"10.0.0.1".to_vec()),
        x_real_ip: Some(b"10.0.0.2".to_vec()),
    };
    let r = IpExtractor::ClientAddr.extract(&headers, Some(IpAddress::V6(1)));
    assert!(matches!(r, Ok(IpCandidate::Known(IpAddress::V6(1)))));
}

#[test]
fn extract_missing_and_invalid_headers() {
    let none = ProxyHeaders {
        x_forwarded_for: None,
        x_real_ip: None,
    };
    match IpExtractor::XRealIp.extract(&none, None) {
        Err(FaucetError::BadRequest(BadRequestReason::MissingHeader(h))) => {
            assert_eq!(h, "X-Real-IP")
        }
        _ => panic!("expected a missing header"),
    }
    let binary = ProxyHeaders {
        x_forwarded_for: Some(vec![0xff, 0x31]),
        x_real_ip: None,
    };
    match IpExtractor::XForwardedFor.extract(&binary, None) {
        Err(FaucetError::BadRequest(BadRequestReason::MissingHeader(h))) => {
            assert_eq!(h, "X-Forwarded-For")
        }
        _ => panic!("expected a missing header"),
    }
    let text = ProxyHeaders {
        x_forwarded_for: None,
        x_real_ip: Some(b"not an ip".to_vec()),
    };
    let candidate = IpExtractor::XRealIp.extract(&text, None).ok().unwrap();
    match candidate.resolve(None) {
        Err(FaucetError::BadRequest(BadRequestReason::InvalidHeader(h))) => {
            assert_eq!(h, "X-Real-IP")
        }
        _ => panic!("expected an invalid header"),
    }
}

#[test]
fn round_robin_takes_turns_on_values() {
    let mut rr = RoundRobin::new(3);
    let picks: Vec<usize> = (0..7).map(|_| rr.next()).collect();
    assert_eq!(picks, vec![0, 1, 2, 0, 1, 2, 0]);
}

#[test]
fn round_robin_wraps_its_counter() {
    let mut rr = RoundRobin {
        index: usize::MAX,
        targets_len: 4,
    };
    assert_eq!(rr.next(), usize::MAX % 4);
    assert_eq!(rr.index, 0);
    assert_eq!(rr.next(), 0);
}

#[test]
fn load_balancer_get_client_per_strategy() {
    let ip = IpAddress::V4(0x0a00_0001);
    let mut rr = LoadBalancer::new(Strategy::RoundRobin, IpExtractor::ClientAddr, 2);
    assert_eq!(rr.get_client(ip, None), Pick::Next(0));
    assert_eq!(rr.get_client(ip, None), Pick::Next(1));
    assert_eq!(rr.get_client(ip, None), Pick::Next(0));

    let mut iph = LoadBalancer::new(Strategy::IpHash, IpExtractor::ClientAddr, 2);
    let expected = ip_hash::hash_to_index(ip, 2);
    assert_eq!(iph.get_client(ip, None), Pick::Fixed(expected));

    let id = Uuid::from_u128(42);
    let mut ch = LoadBalancer::new(Strategy::CookieHash, IpExtractor::ClientAddr, 2);
    let expected = cookie_hash::hash_to_index(id, 2);
    assert_eq!(ch.get_client(ip, Some(id)), Pick::Fixed(expected));
    match ch.strategy {
        DynLoadBalancer::CookieHash(h) => assert_eq!(h.targets_len, 2),
        _ => panic!("expected the cookie hash"),
    }
}

#[test]
fn request_counter_windows() {
    let mut c = RequestCounter::new();
    c.add();
    c.add();
    assert_eq!(c.current_window, 2);
    assert_eq!(c.set_new_window(), 0);
    assert_eq!(c.previous_window, 2);
    assert_eq!(c.current_window, 0);
    assert!(c.is_overloaded());
    c.add();
    assert_eq!(c.set_new_window(), 2);
    assert!(!c.is_overloaded());
}

#[test]
fn rps_serves_online_worker_and_counts() {
    let mut r = RoundRobinRps::new(2);
    let mut cursor = r.entry_start();
    assert_eq!(r.entry_step(&mut cursor, true), RpsAction::Serve(0));
    assert_eq!(r.counters[0].current_window, 1);
    assert_eq!(r.counters[1].current_window, 0);
}

#[test]
fn rps_skips_overloaded_worker() {
    let mut r = RoundRobinRps::new(2);
    r.counters[0].previous_window = 5;
    let mut cursor = r.entry_start();
    assert_eq!(r.entry_step(&mut cursor, true), RpsAction::Skip);
    assert_eq!(r.entry_step(&mut cursor, true), RpsAction::Serve(1));
}

#[test]
fn rps_offline_first_round_advances_then_spawns() {
    let mut r = RoundRobinRps::new(1);
    let mut cursor = r.entry_start();
    assert_eq!(r.entry_step(&mut cursor, false), RpsAction::Advance);
    assert_eq!(r.entry_step(&mut cursor, false), RpsAction::Advance);
    assert!(!cursor.is_first_round);
    assert_eq!(r.entry_step(&mut cursor, false), RpsAction::SpawnAndWait(0));
}

#[test]
fn rps_rotation_spawns_next_to_overloaded() {
    let mut r = RoundRobinRps::new(3);
    r.counters[0].previous_window = 4;
    r.counters[0].current_window = 7;
    r.counters[2].previous_window = 9;
    let spawn = r.rotate_windows();
    assert_eq!(spawn, vec![1]);
    assert_eq!(r.counters[0].previous_window, 7);
    assert_eq!(r.counters[0].current_window, 0);
}

fn rps_pick(r: &mut RoundRobinRps, online: &[bool]) -> usize {
    let mut cursor = r.entry_start();
    loop {
        let t = r.target(&cursor);
        match r.entry_step(&mut cursor, online[t]) {
            RpsAction::Serve(t) => return t,
            RpsAction::Skip | RpsAction::Advance => continue,
            RpsAction::SpawnAndWait(_) => panic!("no worker is online"),
        }
    }
}

#[test]
fn round_robin_rps_test_round_robin_entry() {
    let mut r = RoundRobinRps::new(3);
    let picks: Vec<usize> = (0..6).map(|_| rps_pick(&mut r, &[true, true, true])).collect();
    assert_eq!(picks, vec![0, 1, 2, 0, 1, 2]);
}

#[test]
fn round_robin_rps_test_round_robin_entry_with_offline_target() {
    let mut r = RoundRobinRps::new(3);
    assert_eq!(rps_pick(&mut r, &[false, false, true]), 2);
}

#[test]
fn rps_turns_around_overloaded_worker() {
    let mut r = RoundRobinRps::new(3);
    r.counters[1].previous_window = 5;
    let picks: Vec<usize> = (0..5).map(|_| rps_pick(&mut r, &[true, true, true])).collect();
    // The fourth pick starts at position 4 (worker 1, overloaded): the
    // cursor is then past the last worker, so it wraps at once and serves
    // worker 0 without passing over any other.
    assert_eq!(picks, vec![0, 2, 0, 0, 2]);
    assert_eq!(r.index, 3);
}

#[test]
fn rps_start_past_last_worker_wraps_at_once() {
    let mut r = RoundRobinRps::new(3);
    r.index = 3;
    r.counters[0].previous_window = 5;
    let mut cursor = r.entry_start();
    assert_eq!(r.target(&cursor), 0);
    assert_eq!(r.entry_step(&mut cursor, true), RpsAction::Skip);
    assert_eq!(r.index, 4);
    assert_eq!(cursor.index, 0);
    assert!(cursor.use_next_online_target);
    assert_eq!(r.entry_step(&mut cursor, true), RpsAction::Serve(0));
    assert_eq!(r.index, 1);
}

#[test]
fn rps_positions_count_on() {
    let mut r = RoundRobinRps::new(2);
    for expected in 1..=5usize {
        rps_pick(&mut r, &[true, true]);
        assert_eq!(r.index, expected);
    }
}

#[test]
fn rps_load_balancer_starts_with_empty_counters() {
    let lb = LoadBalancer::new(Strategy::Rps, IpExtractor::ClientAddr, 3);
    match lb.strategy {
        DynLoadBalancer::Rps(r) => {
            assert_eq!(r.index, 0);
            assert_eq!(r.counters.len(), 3);
            for c in r.counters.iter() {
                assert_eq!(*c, RequestCounter::new());
            }
        }
        _ => panic!("expected the requests-per-second strategy"),
    }
}
