use vstd::prelude::*;

use crate::error::{BadRequestReason, FaucetError, FaucetResult};
use crate::session::{parse_uuid, parsed_uuid, Uuid};
use crate::text::str_equals;
use base64::Engine;
use sha1::Digest;
use std::collections::HashMap;
use vstd::arithmetic::power2::pow2;
use vstd::string::StringSliceAdditionalSpecFns;

verus! {

broadcast use vstd::std_specs::hash::group_hash_axioms;

// ---------------------------------------------------------------------------
// Sec-WebSocket-Accept
// ---------------------------------------------------------------------------

/// The GUID that RFC 6455 appends to a client's key.
pub const SEC_WEBSOCKET_APPEND: &'static str = "258EAFA5-E914-47DA-95CA-C5AB0DC85B11";

/// The header a client sends its key in.
pub const SEC_WEBSOCKET_KEY: &'static str = "Sec-WebSocket-Key";

/// The header the server answers a key in.
pub const SEC_WEBSOCKET_ACCEPT: &'static str = "Sec-WebSocket-Accept";

/// The SHA-1 digest of some bytes, as the `sha1` crate computes it.
pub uninterp spec fn sha1_digest(data: Seq<u8>) -> Seq<u8>;

/// The character of the standard Base64 alphabet for a six-bit value.
pub open spec fn base64_char(v: nat) -> u8 {
    if v < 26 {
        (65 + v) as u8
    } else if v < 52 {
        (97 + (v - 26)) as u8
    } else if v < 62 {
        (48 + (v - 52)) as u8
    } else if v == 62 {
        43
    } else {
        47
    }
}

/// Six-bit group `i` (counted from 0, most significant first) of a 24-bit
/// value.
pub open spec fn sextet(n: nat, i: nat) -> nat {
    (n / pow2((18 - 6 * i) as nat)) % 64
}

/// The standard, padded Base64 encoding of some bytes: each group of three
/// bytes becomes four characters; a last group of one or two bytes becomes
/// two or three characters followed by `=` up to four.
pub open spec fn base64_standard(data: Seq<u8>) -> Seq<u8>
    decreases data.len(),
{
    if data.len() == 0 {
        Seq::empty()
    } else if data.len() == 1 {
        let n = data[0] as nat * 65536;
        seq![base64_char(sextet(n, 0)), base64_char(sextet(n, 1)), 61u8, 61u8]
    } else if data.len() == 2 {
        let n = data[0] as nat * 65536 + data[1] as nat * 256;
        seq![base64_char(sextet(n, 0)), base64_char(sextet(n, 1)), base64_char(sextet(n, 2)), 61u8]
    } else {
        let n = data[0] as nat * 65536 + data[1] as nat * 256 + data[2] as nat;
        seq![
            base64_char(sextet(n, 0)),
            base64_char(sextet(n, 1)),
            base64_char(sextet(n, 2)),
            base64_char(sextet(n, 3)),
        ] + base64_standard(data.subrange(3, data.len() as int))
    }
}

/// Padded Base64 text has four characters per started group of three bytes.
pub proof fn lemma_base64_len(data: Seq<u8>)
    ensures
        base64_standard(data).len() == 4 * ((data.len() + 2) / 3),
    decreases data.len(),
{
    if data.len() >= 3 {
        lemma_base64_len(data.subrange(3, data.len() as int));
    }
}

/// Calls `sha1::Sha1::digest`. The contract claims that the digest is a
/// function of the input (named `sha1_digest`) and has 20 bytes, as the
/// crate's output type fixes.
#[verifier::external_body]
fn sha1(data: &[u8]) -> (r: Vec<u8>)
    ensures
        r@ == sha1_digest(data@),
        r@.len() == 20,
{
    sha1::Sha1::digest(data).to_vec()
}

/// Calls `base64::engine::general_purpose::STANDARD.encode`. The contract
/// claims what RFC 4648 and the crate document for the standard alphabet
/// with padding: the bytes in groups of three, six bits per character,
/// `=` padding the last group.
#[verifier::external_body]
fn base64_encode(data: &[u8]) -> (r: Vec<u8>)
    ensures
        r@ == base64_standard(data@),
{
    base64::engine::general_purpose::STANDARD.encode(data).into_bytes()
}

/// The `Sec-WebSocket-Accept` value for a client's key: the Base64 text of
/// the SHA-1 digest of the key followed by the RFC 6455 GUID.
pub open spec fn spec_sec_websocket_accept(key: Seq<u8>) -> Seq<u8> {
    base64_standard(sha1_digest(key + SEC_WEBSOCKET_APPEND.spec_bytes()))
}

/// Computes the `Sec-WebSocket-Accept` value that answers a client's key.
pub fn calculate_sec_websocket_accept(key: &[u8]) -> (r: Vec<u8>)
    ensures
        r@ == spec_sec_websocket_accept(key@),
        r@.len() == 28,
{
    let guid = SEC_WEBSOCKET_APPEND.as_bytes();
    let mut data: Vec<u8> = Vec::new();
    let mut i: usize = 0;
    while i < key.len()
        invariant
            i <= key.len(),
            data@ == key@.subrange(0, i as int),
        decreases key.len() - i,
    {
        data.push(key[i]);
        assert(data@ =~= key@.subrange(0, i + 1));
        i = i + 1;
    }
    let mut j: usize = 0;
    while j < guid.len()
        invariant
            j <= guid.len(),
            data@ == key@ + guid@.subrange(0, j as int),
        decreases guid.len() - j,
    {
        data.push(guid[j]);
        assert(data@ =~= key@ + guid@.subrange(0, j + 1));
        j = j + 1;
    }
    assert(guid@.subrange(0, guid@.len() as int) =~= guid@);
    let digest = sha1(data.as_slice());
    proof {
        lemma_base64_len(digest@);
    }
    base64_encode(digest.as_slice())
}

// ---------------------------------------------------------------------------
// Query parameters of an upgrade request
// ---------------------------------------------------------------------------

/// The query parameter that names the session.
pub const SESSION_ID_QUERY: &'static str = "sessionId";

/// The query parameter that counts the client's reconnection attempts.
pub const ATTEMPT_QUERY: &'static str = "attempt";

/// The name/value pairs of a query string after percent-decoding, as
/// `url::form_urlencoded::parse` yields them.
pub uninterp spec fn form_urlencoded_pairs(query: Seq<u8>) -> Seq<(Seq<char>, Seq<char>)>;

/// Views a list of text pairs.
pub open spec fn pairs_view(v: Seq<(String, String)>) -> Seq<(Seq<char>, Seq<char>)> {
    v.map_values(|p: (String, String)| (p.0@, p.1@))
}

/// Calls `url::form_urlencoded::parse` and collects the pairs. The contract
/// claims that the pairs are a function of the query text (named
/// `form_urlencoded_pairs`).
#[verifier::external_body]
fn parse_query_pairs(query: &[u8]) -> (r: Vec<(String, String)>)
    ensures
        pairs_view(r@) == form_urlencoded_pairs(query@),
{
    url::form_urlencoded::parse(query).map(|(k, v)| (k.into_owned(), v.into_owned())).collect()
}

/// Whether a character is an ASCII decimal digit.
pub open spec fn is_digit(c: char) -> bool {
    '0' <= c && c <= '9'
}

/// The value of a string of decimal digits.
pub open spec fn digits_value(s: Seq<char>) -> nat
    decreases s.len(),
{
    if s.len() == 0 {
        0
    } else {
        digits_value(s.drop_last()) * 10 + (s.last() as nat - '0' as nat) as nat
    }
}

/// A text made of decimal digits only.
pub open spec fn all_digits(d: Seq<char>) -> bool {
    forall|i: int| 0 <= i < d.len() ==> is_digit(#[trigger] d[i])
}

/// The text after an optional leading `+`.
pub open spec fn unsigned_digits(s: Seq<char>) -> Seq<char> {
    if s.len() > 0 && s[0] == '+' {
        s.drop_first()
    } else {
        s
    }
}

/// What `str::parse::<usize>` returns: an optional `+`, then at least one
/// decimal digit, and a value that fits.
pub open spec fn spec_parse_usize(s: Seq<char>) -> Option<usize> {
    let d = unsigned_digits(s);
    if d.len() > 0 && all_digits(d) && digits_value(d) <= usize::MAX {
        Some(digits_value(d) as usize)
    } else {
        None
    }
}

proof fn lemma_digits_value_grows(s: Seq<char>, i: int)
    requires
        0 <= i <= s.len(),
        forall|j: int| 0 <= j < s.len() ==> is_digit(#[trigger] s[j]),
    ensures
        digits_value(s.subrange(0, i)) <= digits_value(s),
    decreases s.len() - i,
{
    if i < s.len() {
        lemma_digits_value_grows(s, i + 1);
        let t = s.subrange(0, i + 1);
        assert(t.drop_last() =~= s.subrange(0, i));
        assert(is_digit(t.last()));
    } else {
        assert(s.subrange(0, i) =~= s);
    }
}

/// Reads a `usize` the way `str::parse::<usize>` does.
pub fn parse_usize(s: &str) -> (r: Option<usize>)
    ensures
        r == spec_parse_usize(s@),
{
    let n = s.unicode_len();
    let ghost d = unsigned_digits(s@);
    let mut start: usize = 0;
    if n > 0 && s.get_char(0) == '+' {
        start = 1;
    }
    assert(d =~= s@.subrange(start as int, n as int));
    if start >= n {
        return None;
    }
    let mut value: usize = 0;
    let mut i: usize = start;
    while i < n
        invariant
            start <= i <= n,
            n == s@.len(),
            start < n,
            d == unsigned_digits(s@),
            d == s@.subrange(start as int, n as int),
            forall|j: int| start <= j < i ==> is_digit(#[trigger] s@[j]),
            value == digits_value(s@.subrange(start as int, i as int)),
        decreases n - i,
    {
        let c = s.get_char(i);
        if !('0' <= c && c <= '9') {
            assert(d[i - start] == s@[i as int]);
            assert(!is_digit(d[i - start]));
            assert(!all_digits(d));
            return None;
        }
        let digit = (c as u32 - '0' as u32) as usize;
        let ghost prefix = s@.subrange(start as int, i + 1);
        assert(prefix.drop_last() =~= s@.subrange(start as int, i as int));
        assert(prefix.last() == c);
        assert(digits_value(prefix) == value * 10 + digit);
        match value.checked_mul(10) {
            Some(m) => match m.checked_add(digit) {
                Some(v) => {
                    value = v;
                },
                None => {
                    proof {
                        if all_digits(d) {
                            lemma_digits_value_grows(d, i + 1 - start);
                            assert(d.subrange(0, i + 1 - start) =~= prefix);
                        }
                    }
                    return None;
                },
            },
            None => {
                proof {
                    if all_digits(d) {
                        lemma_digits_value_grows(d, i + 1 - start);
                        assert(d.subrange(0, i + 1 - start) =~= prefix);
                    }
                }
                return None;
            },
        }
        i = i + 1;
    }
    assert(s@.subrange(start as int, n as int) =~= d);
    Some(value)
}

/// The session and attempt that the pairs of a query name: each pair named
/// `sessionId` or `attempt` replaces what an earlier one gave, with `None`
/// where its value does not parse.
pub open spec fn spec_query_params(pairs: Seq<(Seq<char>, Seq<char>)>) -> (
    Option<Uuid>,
    Option<usize>,
)
    decreases pairs.len(),
{
    if pairs.len() == 0 {
        (None, None)
    } else {
        let (s, a) = spec_query_params(pairs.drop_last());
        let (k, v) = pairs.last();
        if k == SESSION_ID_QUERY@ {
            (parsed_uuid(v), a)
        } else if k == ATTEMPT_QUERY@ {
            (s, spec_parse_usize(v))
        } else {
            (s, a)
        }
    }
}

/// The session and attempt that the decoded pairs of a query name, as
/// `spec_query_params` states.
pub fn query_params(pairs: &Vec<(String, String)>) -> (r: (Option<Uuid>, Option<usize>))
    ensures
        r == spec_query_params(pairs_view(pairs@)),
{
    let ghost pv = pairs_view(pairs@);
    let mut session_id: Option<Uuid> = None;
    let mut attempt: Option<usize> = None;
    let mut i: usize = 0;
    while i < pairs.len()
        invariant
            i <= pairs.len(),
            pv == pairs_view(pairs@),
            pv.len() == pairs@.len(),
            (session_id, attempt) == spec_query_params(pv.subrange(0, i as int)),
        decreases pairs.len() - i,
    {
        let key = pairs[i].0.as_str();
        let value = pairs[i].1.as_str();
        assert(pv.subrange(0, i + 1).drop_last() =~= pv.subrange(0, i as int));
        assert(pv.subrange(0, i + 1).last() == pv[i as int]);
        if str_equals(key, SESSION_ID_QUERY) {
            session_id = parse_uuid(value);
        } else if str_equals(key, ATTEMPT_QUERY) {
            attempt = parse_usize(value);
        }
        i = i + 1;
    }
    assert(pv.subrange(0, pairs.len() as int) =~= pv);
    (session_id, attempt)
}

/// The session and attempt of an upgrade request, read from its query
/// string. A missing query, a missing or unreadable `sessionId` and a
/// missing or unreadable `attempt` are refused in that order.
pub fn session_params(query: Option<&[u8]>) -> (r: FaucetResult<(Uuid, usize)>)
    ensures
        match query {
            None => r matches Err(FaucetError::BadRequest(BadRequestReason::MissingQueryParam(p)))
                && p@ == SESSION_ID_QUERY@,
            Some(q) => {
                let (s, a) = spec_query_params(form_urlencoded_pairs(q@));
                match (s, a) {
                    (None, _) => r matches Err(
                        FaucetError::BadRequest(BadRequestReason::MissingQueryParam(p)),
                    ) && p@ == SESSION_ID_QUERY@,
                    (Some(_), None) => r matches Err(
                        FaucetError::BadRequest(BadRequestReason::MissingQueryParam(p)),
                    ) && p@ == ATTEMPT_QUERY@,
                    (Some(sid), Some(att)) => r == Ok::<(Uuid, usize), FaucetError>((sid, att)),
                }
            },
        },
{
    let q = match query {
        None => {
            return Err(FaucetError::BadRequest(BadRequestReason::MissingQueryParam(SESSION_ID_QUERY)));
        },
        Some(q) => q,
    };
    let pairs = parse_query_pairs(q);
    let (session_id, attempt) = query_params(&pairs);
    let sid = match session_id {
        None => {
            return Err(FaucetError::BadRequest(BadRequestReason::MissingQueryParam(SESSION_ID_QUERY)));
        },
        Some(s) => s,
    };
    match attempt {
        None => Err(FaucetError::BadRequest(BadRequestReason::MissingQueryParam(ATTEMPT_QUERY))),
        Some(a) => Ok((sid, a)),
    }
}

// ---------------------------------------------------------------------------
// Cache of worker connections kept for reconnecting clients
// ---------------------------------------------------------------------------

/// What is remembered of one session's connection to its worker.
///
/// An even, non-zero access count means that the connection is parked
/// here, ready to be taken; an odd one that a client is using it.
pub struct ConnectionInstance<T> {
    pub purged: bool,
    pub access_count: usize,
    pub pair: Option<T>,
}

impl<T> ConnectionInstance<T> {
    pub open spec fn fresh() -> ConnectionInstance<T> {
        ConnectionInstance { purged: false, access_count: 0, pair: None }
    }
}

/// The connections to workers kept per session (`T` is the connection).
pub struct ConnectionManager<T> {
    pub map: HashMap<u128, ConnectionInstance<T>>,
    pub purge_count: usize,
}

/// What a connecting client is told to do.
#[derive(Clone, Copy, PartialEq, Eq, Structural, Debug)]
pub enum InitDecision {
    /// The session had a connection before: try to take it over.
    AlreadyInitialized,
    /// The session is new: open a connection to the worker.
    Connect,
}

/// The entry of a session, a fresh one where the session is unknown.
pub open spec fn entry_of<T>(m: Map<u128, ConnectionInstance<T>>, k: u128) -> ConnectionInstance<T> {
    if m.contains_key(k) {
        m[k]
    } else {
        ConnectionInstance::fresh()
    }
}

/// Whether taking the connection of session `k` is safe: the session is
/// known, and when its connection is marked as parked it is there.
pub open spec fn can_take<T>(m: Map<u128, ConnectionInstance<T>>, k: u128) -> bool {
    &&& m.contains_key(k)
    &&& m[k].access_count % 2 == 0 ==> m[k].pair is Some
}

/// Every connection that is marked as parked is there: an entry whose
/// access count is even and not zero holds its connection.
pub open spec fn parked_are_kept<T>(m: Map<u128, ConnectionInstance<T>>) -> bool {
    forall|k: u128|
        #[trigger] m.contains_key(k) ==> (m[k].access_count % 2 == 0 && m[k].access_count != 0
            ==> m[k].pair is Some)
}

impl<T> ConnectionManager<T> {
    pub fn new() -> (m: Self)
        ensures
            m.map@ == Map::<u128, ConnectionInstance<T>>::empty(),
            m.purge_count == 0,
            parked_are_kept(m.map@),
    {
        ConnectionManager { map: HashMap::new(), purge_count: 0 }
    }

    /// Decides what a client that connects to `session_id` does; `attempt`
    /// counts its earlier attempts. A session seen before is taken over. A
    /// purged session, or one that was never seen while the client says it
    /// tried before, is refused as purged. Otherwise the session is
    /// registered as in use and the client opens a new connection. An
    /// unknown session is registered in any case.
    pub fn initialize_if_not(&mut self, session_id: Uuid, attempt: usize) -> (r: FaucetResult<
        InitDecision,
    >)
        requires
            entry_of(old(self).map@, session_id.bits).access_count < usize::MAX,
        ensures
            final(self).purge_count == old(self).purge_count,
            parked_are_kept(old(self).map@) ==> parked_are_kept(final(self).map@),
            parked_are_kept(old(self).map@) && r == Ok::<InitDecision, FaucetError>(
                InitDecision::AlreadyInitialized,
            ) ==> can_take(final(self).map@, session_id.bits),
            ({
                let k = session_id.bits;
                let e = entry_of(old(self).map@, k);
                if e.access_count != 0 {
                    &&& r == Ok::<InitDecision, FaucetError>(InitDecision::AlreadyInitialized)
                    &&& final(self).map@ == old(self).map@
                } else if e.purged || attempt > 0 {
                    &&& r matches Err(FaucetError::WebSocketConnectionPurged)
                    &&& final(self).map@ == old(self).map@.insert(k, e)
                } else {
                    &&& r == Ok::<InitDecision, FaucetError>(InitDecision::Connect)
                    &&& final(self).map@ == old(self).map@.insert(
                        k,
                        ConnectionInstance { access_count: 1, ..e },
                    )
                }
            }),
    {
        let k = session_id.bits;
        let mut entry = match self.map.remove(&k) {
            Some(e) => e,
            None => ConnectionInstance { purged: false, access_count: 0, pair: None },
        };
        let ghost e0 = entry_of(old(self).map@, k);
        if entry.access_count != 0 {
            self.map.insert(k, entry);
            assert(self.map@ =~= old(self).map@);
            return Ok(InitDecision::AlreadyInitialized);
        }
        if entry.purged {
            self.map.insert(k, entry);
            return Err(FaucetError::WebSocketConnectionPurged);
        }
        if attempt > 0 {
            self.map.insert(k, entry);
            return Err(FaucetError::WebSocketConnectionPurged);
        }
        entry.access_count = entry.access_count + 1;
        self.map.insert(k, entry);
        Ok(InitDecision::Connect)
    }

    /// Takes over the connection of `session_id` if it is parked; refuses
    /// with "in use" while a client holds it.
    pub fn attempt_take(&mut self, session_id: Uuid) -> (r: FaucetResult<T>)
        requires
            can_take(old(self).map@, session_id.bits),
            old(self).map@[session_id.bits].access_count < usize::MAX,
        ensures
            final(self).purge_count == old(self).purge_count,
            parked_are_kept(old(self).map@) ==> parked_are_kept(final(self).map@),
            ({
                let k = session_id.bits;
                let e = old(self).map@[k];
                if e.access_count % 2 == 0 {
                    &&& r == Ok::<T, FaucetError>(e.pair->0)
                    &&& final(self).map@ == old(self).map@.insert(
                        k,
                        ConnectionInstance { access_count: (e.access_count + 1) as usize, pair: None, ..e },
                    )
                } else {
                    &&& r matches Err(FaucetError::WebSocketConnectionInUse)
                    &&& final(self).map@ == old(self).map@
                }
            }),
    {
        let k = session_id.bits;
        let mut entry = match self.map.remove(&k) {
            Some(e) => e,
            None => {
                assert(false);
                return Err(FaucetError::WebSocketConnectionInUse);
            },
        };
        if entry.access_count % 2 == 0 {
            entry.access_count = entry.access_count + 1;
            let pair = entry.pair.take();
            self.map.insert(k, entry);
            match pair {
                Some(p) => Ok(p),
                None => {
                    assert(false);
                    Err(FaucetError::WebSocketConnectionInUse)
                },
            }
        } else {
            self.map.insert(k, entry);
            assert(self.map@ =~= old(self).map@);
            Err(FaucetError::WebSocketConnectionInUse)
        }
    }

    /// Parks the connection of a session that a client stopped using. A
    /// connection of a session that is no longer known is dropped.
    pub fn put_back(&mut self, session_id: Uuid, pair: T)
        requires
            old(self).map@.contains_key(session_id.bits) ==> old(self).map@[session_id.bits].access_count
                < usize::MAX,
        ensures
            final(self).purge_count == old(self).purge_count,
            parked_are_kept(old(self).map@) ==> parked_are_kept(final(self).map@),
            ({
                let k = session_id.bits;
                if old(self).map@.contains_key(k) {
                    let e = old(self).map@[k];
                    final(self).map@ == old(self).map@.insert(
                        k,
                        ConnectionInstance {
                            access_count: (e.access_count + 1) as usize,
                            pair: Some(pair),
                            ..e
                        },
                    )
                } else {
                    final(self).map@ == old(self).map@
                }
            }),
    {
        let k = session_id.bits;
        match self.map.remove(&k) {
            Some(mut entry) => {
                entry.access_count = entry.access_count + 1;
                entry.pair = Some(pair);
                self.map.insert(k, entry);
            },
            None => {
                assert(self.map@ =~= old(self).map@);
            },
        }
    }

    /// Forgets a session, for good.
    pub fn remove_session(&mut self, session_id: Uuid)
        requires
            old(self).purge_count < usize::MAX,
        ensures
            final(self).map@ == old(self).map@.remove(session_id.bits),
            final(self).purge_count == old(self).purge_count + 1,
            parked_are_kept(old(self).map@) ==> parked_are_kept(final(self).map@),
    {
        let k = session_id.bits;
        self.map.remove(&k);
        self.purge_count = self.purge_count + 1;
    }
}

/// The address of a worker's WebSocket endpoint: `ws://`, the worker's
/// socket address, and the request's path and query, `/` where it has
/// none.
pub open spec fn spec_ws_uri(authority: Seq<char>, path_and_query: Option<Seq<char>>) -> Seq<char> {
    "ws://"@ + authority + match path_and_query {
        Some(p) => p,
        None => "/"@,
    }
}

/// Builds the address of a worker's WebSocket endpoint; `authority` is the
/// worker's socket address as `SocketAddr`'s `Display` writes it.
pub fn build_ws_uri(authority: &str, path_and_query: Option<&str>) -> (r: String)
    ensures
        r@ == spec_ws_uri(
            authority@,
            match path_and_query {
                Some(p) => Some(p@),
                None => None,
            },
        ),
{
    let mut r = String::from_str("ws://");
    r.append(authority);
    match path_and_query {
        Some(p) => r.append(p),
        None => r.append("/"),
    }
    r
}

/// How the bridge between a client and its worker ended.
#[derive(Clone, Copy, PartialEq, Eq, Structural, Debug)]
pub enum BridgeEnd {
    /// The client went away (or stayed silent too long); the worker's side
    /// is still open.
    ClientLeft,
    /// The worker closed the session.
    WorkerLeft,
    /// The server is shutting down.
    ShuttingDown,
}

/// What is left to do once a bridge ended.
#[derive(Clone, Copy, PartialEq, Eq, Structural, Debug)]
pub enum AfterBridge {
    /// Look at the parked connection again after `RECHECK_TIME_SECS`.
    RecheckLater,
    /// Nothing.
    Done,
}

/// How long a parked connection waits for its client, in seconds.
pub const RECHECK_TIME_SECS: u64 = 60;

/// How often the server pings a client, in seconds.
pub const PING_INTERVAL_SECS: u64 = 1;

/// How long a client may stay silent before its side of the bridge is
/// closed, in seconds.
pub const PING_INTERVAL_TIMEOUT_SECS: u64 = 30;

/// The reason sent to a client whose session was purged.
pub const PURGED_CLOSE_REASON: &'static str = "Connection purged due to inactivity, update or error.";

/// The reason of the close frame that tells a client its session is gone,
/// where the error says so.
pub fn purged_close_reason(e: &FaucetError) -> (r: Option<&'static str>)
    ensures
        r == (if *e is WebSocketConnectionPurged {
            Some(PURGED_CLOSE_REASON)
        } else {
            None
        }),
{
    match e {
        FaucetError::WebSocketConnectionPurged => Some(PURGED_CLOSE_REASON),
        _ => None,
    }
}

impl<T> ConnectionManager<T> {
    /// Whether the connection of `session_id` can be taken: the session is
    /// known and, where it is marked as parked, the connection is there.
    pub fn is_takeable(&self, session_id: Uuid) -> (r: bool)
        ensures
            r == can_take(self.map@, session_id.bits),
    {
        match self.map.get(&session_id.bits) {
            Some(e) => e.access_count % 2 != 0 || e.pair.is_some(),
            None => false,
        }
    }

    /// Settles a session whose bridge ended: a client that left has its
    /// worker connection parked for a while; a session that the worker
    /// ended is forgotten; on shutdown nothing is kept.
    pub fn end_bridge(&mut self, session_id: Uuid, end: BridgeEnd, pair: T) -> (r: AfterBridge)
        requires
            end == BridgeEnd::ClientLeft && old(self).map@.contains_key(session_id.bits) ==> old(
                self,
            ).map@[session_id.bits].access_count < usize::MAX,
            end == BridgeEnd::WorkerLeft ==> old(self).purge_count < usize::MAX,
        ensures
            parked_are_kept(old(self).map@) ==> parked_are_kept(final(self).map@),
            match end {
                BridgeEnd::ClientLeft => {
                    &&& r == AfterBridge::RecheckLater
                    &&& final(self).purge_count == old(self).purge_count
                    &&& if old(self).map@.contains_key(session_id.bits) {
                        let e = old(self).map@[session_id.bits];
                        final(self).map@ == old(self).map@.insert(
                            session_id.bits,
                            ConnectionInstance {
                                access_count: (e.access_count + 1) as usize,
                                pair: Some(pair),
                                ..e
                            },
                        )
                    } else {
                        final(self).map@ == old(self).map@
                    }
                },
                BridgeEnd::WorkerLeft => {
                    &&& r == AfterBridge::Done
                    &&& final(self).map@ == old(self).map@.remove(session_id.bits)
                    &&& final(self).purge_count == old(self).purge_count + 1
                },
                BridgeEnd::ShuttingDown => {
                    &&& r == AfterBridge::Done
                    &&& final(self).map@ == old(self).map@
                    &&& final(self).purge_count == old(self).purge_count
                },
            },
    {
        match end {
            BridgeEnd::ClientLeft => {
                self.put_back(session_id, pair);
                AfterBridge::RecheckLater
            },
            BridgeEnd::WorkerLeft => {
                self.remove_session(session_id);
                AfterBridge::Done
            },
            BridgeEnd::ShuttingDown => AfterBridge::Done,
        }
    }

    /// Looks at a parked connection once its waiting time is over: where
    /// no client took it over, it is taken out, to be closed, and the
    /// session is forgotten; where a client uses it, nothing changes.
    pub fn recheck(&mut self, session_id: Uuid) -> (r: Option<T>)
        requires
            can_take(old(self).map@, session_id.bits),
            old(self).map@[session_id.bits].access_count < usize::MAX,
            old(self).purge_count < usize::MAX,
        ensures
            parked_are_kept(old(self).map@) ==> parked_are_kept(final(self).map@),
            ({
                let k = session_id.bits;
                let e = old(self).map@[k];
                if e.access_count % 2 == 0 {
                    &&& r == Some(e.pair->0)
                    &&& final(self).map@ == old(self).map@.remove(k)
                    &&& final(self).purge_count == old(self).purge_count + 1
                } else {
                    &&& r is None
                    &&& final(self).map@ == old(self).map@
                    &&& final(self).purge_count == old(self).purge_count
                }
            }),
    {
        match self.attempt_take(session_id) {
            Ok(pair) => {
                self.remove_session(session_id);
                proof {
                    assert(self.map@ =~= old(self).map@.remove(session_id.bits));
                }
                Some(pair)
            },
            Err(_) => None,
        }
    }
}

/// A connection parked by a client is the one that the next client of the
/// session takes over.
pub proof fn lemma_parked_connection_is_taken_back<T>(
    m: Map<u128, ConnectionInstance<T>>,
    k: u128,
    pair: T,
)
    requires
        m.contains_key(k),
        m[k].access_count % 2 == 1,
        m[k].access_count < usize::MAX,
    ensures
        ({
            let e = m[k];
            let parked = m.insert(
                k,
                ConnectionInstance { access_count: (e.access_count + 1) as usize, pair: Some(pair), ..e },
            );
            &&& can_take(parked, k)
            &&& parked[k].access_count % 2 == 0
            &&& parked[k].pair == Some(pair)
        }),
{
}

/// A client that says it tried before, for a session that is not known, is
/// refused as purged; a session that was forgotten is no longer known.
pub proof fn lemma_forgotten_session_is_purged<T>(m: Map<u128, ConnectionInstance<T>>, k: u128)
    ensures
        entry_of(m.remove(k), k).access_count == 0,
        !entry_of(m.remove(k), k).purged,
{
}

} // verus!
