use faucet_server::client::load_balancing::Strategy;
use faucet_server::server::service::{
    extract_lb_uuid_from_req_cookies, is_reconnect_request, lb_cookie_for_request,
    lb_cookie_header, lb_cookie_to_set, uuid_to_header_value,
};
use faucet_server::session::Uuid;

const SAMPLE: u128 = 0x0123_4567_89ab_cdef_0123_4567_89ab_cdef;
const SAMPLE_TEXT: &str = "01234567-89ab-cdef-0123-456789abcdef";

#[test]
fn uuid_header_value_is_hyphenated() {
    assert_eq!(uuid_to_header_value(Uuid::from_u128(SAMPLE)), SAMPLE_TEXT);
    assert_eq!(
        uuid_to_header_value(Uuid::from_u128(0)),
        "00000000-0000-0000-0000-000000000000"
    );
}

#[test]
fn lb_cookie_header_text() {
    assert_eq!(
        lb_cookie_header(Uuid::from_u128(SAMPLE)),
        format!("FAUCET_LB_COOKIE={SAMPLE_TEXT}; Path=/; HttpOnly; SameSite=Lax")
    );
}

#[test]
fn lb_cookie_is_read_back() {
    let u = Uuid::from_u128(SAMPLE);
    let set_cookie = lb_cookie_header(u);
    let pair = set_cookie.split(';').next().unwrap();
    assert_eq!(extract_lb_uuid_from_req_cookies(Some(pair.as_bytes())), Some(u));
}

#[test]
fn lb_cookie_among_other_cookies() {
    let header = format!(" a=1;; b = 2 ;FAUCET_LB_COOKIE = {SAMPLE_TEXT} ; c");
    assert_eq!(
        extract_lb_uuid_from_req_cookies(Some(header.as_bytes())),
        Some(Uuid::from_u128(SAMPLE))
    );
}

#[test]
fn lb_cookie_first_one_decides() {
    let header = format!("FAUCET_LB_COOKIE=garbage; FAUCET_LB_COOKIE={SAMPLE_TEXT}");
    assert_eq!(extract_lb_uuid_from_req_cookies(Some(header.as_bytes())), None);
}

#[test]
fn lb_cookie_absent_or_unreadable() {
    assert_eq!(extract_lb_uuid_from_req_cookies(None), None);
    assert_eq!(extract_lb_uuid_from_req_cookies(Some(b"a=b")), None);
    let mut bytes = format!("FAUCET_LB_COOKIE={SAMPLE_TEXT}").into_bytes();
    bytes.push(0x80);
    assert_eq!(extract_lb_uuid_from_req_cookies(Some(&bytes)), None);
}

#[test]
fn lb_cookie_only_for_cookie_hash() {
    let header = format!("FAUCET_LB_COOKIE={SAMPLE_TEXT}");
    assert_eq!(
        lb_cookie_for_request(Strategy::CookieHash, Some(header.as_bytes())),
        Some(Uuid::from_u128(SAMPLE))
    );
    assert!(lb_cookie_for_request(Strategy::CookieHash, None).is_some());
    assert_eq!(
        lb_cookie_for_request(Strategy::IpHash, Some(header.as_bytes())),
        None
    );
    assert!(lb_cookie_to_set(false, Some(Uuid::from_u128(SAMPLE))).is_none());
    assert!(lb_cookie_to_set(true, None).is_none());
    assert_eq!(
        lb_cookie_to_set(true, Some(Uuid::from_u128(SAMPLE))),
        Some(lb_cookie_header(Uuid::from_u128(SAMPLE)))
    );
}

#[test]
fn reconnect_script_path() {
    assert!(is_reconnect_request("/__faucet__/reconnect.js"));
    assert!(is_reconnect_request("/app/__faucet__/reconnect.js"));
    assert!(!is_reconnect_request("/__faucet__/reconnect.jsx"));
    assert!(!is_reconnect_request("/"));
}

#[test]
fn fresh_lb_cookie_is_version_seven() {
    let u = lb_cookie_for_request(Strategy::CookieHash, Some(b"other=1")).unwrap();
    let bits = u.as_u128();
    assert_eq!((bits >> 76) & 0xf, 7);
    assert_eq!((bits >> 62) & 0x3, 2);
}

#[test]
fn lb_cookie_with_white_space_around_it() {
    let header = format!("a=1;  FAUCET_LB_COOKIE={SAMPLE_TEXT} \t; b=2");
    assert_eq!(
        extract_lb_uuid_from_req_cookies(Some(header.as_bytes())),
        Some(Uuid::from_u128(SAMPLE))
    );
    let header = format!("FAUCET_LB_COOKIE={SAMPLE_TEXT}   ");
    assert_eq!(
        extract_lb_uuid_from_req_cookies(Some(header.as_bytes())),
        Some(Uuid::from_u128(SAMPLE))
    );
}
