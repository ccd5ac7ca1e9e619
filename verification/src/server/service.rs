use vstd::prelude::*;

use crate::client::load_balancing::Strategy;
use crate::http::{ascii_text, header_is_text, is_header_text};
use crate::server::logging::ascii_chars;
use crate::session::{
    format_uuid, hyphens_before, is_hyphen_position, now_v7, parse_uuid, parsed_uuid, uuid_variant, uuid_version,
    uuid_hyphenated, uuid_nibble, uuid_parse, Uuid,
};
use crate::text::{
    hex_digit, is_white_space, lemma_trim_end_by, lemma_trim_start_chars, str_ends_with, str_equals, trim_chars,
    trim_end_by, trim_start_chars,
};

verus! {

/// The cookie that holds the UUID by which the cookie hash strategy keeps a
/// client on one worker.
pub const LB_COOKIE_NAME: &'static str = "FAUCET_LB_COOKIE";

/// The path, at the end of any route, that serves the reconnection script.
pub const RESERVED_RECONNECT_PATH: &'static str = "__faucet__/reconnect.js";

/// The pieces of `s` between the occurrences of `c` (one more piece than
/// there are occurrences).
pub open spec fn split_on(s: Seq<char>, c: char) -> Seq<Seq<char>>
    decreases s.len(),
{
    if s.len() == 0 {
        seq![Seq::empty()]
    } else {
        let rest = split_on(s.drop_first(), c);
        if s[0] == c {
            seq![Seq::<char>::empty()] + rest
        } else {
            rest.update(0, seq![s[0]] + rest[0])
        }
    }
}

/// Text made of white space alone (empty text included).
pub open spec fn is_blank(s: Seq<char>) -> bool {
    forall|i: int| 0 <= i < s.len() ==> is_white_space(#[trigger] s[i])
}

/// The text before the first occurrence of `c`.
pub open spec fn before_first(s: Seq<char>, c: char) -> Seq<char>
    decreases s.len(),
{
    if s.len() == 0 || s[0] == c {
        Seq::empty()
    } else {
        seq![s[0]] + before_first(s.drop_first(), c)
    }
}

/// The text after the first occurrence of `c`.
pub open spec fn after_first(s: Seq<char>, c: char) -> Seq<char>
    decreases s.len(),
{
    if s.len() == 0 {
        Seq::empty()
    } else if s[0] == c {
        s.drop_first()
    } else {
        after_first(s.drop_first(), c)
    }
}

/// One cookie of a `Cookie` header, as `cookie::Cookie::parse` reads a
/// piece without `;`: the name and the value are the trimmed text before
/// and after the first `=`. `None` where there is no `=` or the name is
/// empty.
pub open spec fn parse_cookie_pair(piece: Seq<char>) -> Option<(Seq<char>, Seq<char>)> {
    let t = trim_chars(piece);
    if !t.contains('=') {
        None
    } else {
        let name = trim_chars(before_first(t, '='));
        let value = trim_chars(after_first(t, '='));
        if name.len() == 0 {
            None
        } else {
            Some((name, value))
        }
    }
}

/// The cookies of the pieces of a header, blank pieces skipped.
pub open spec fn cookies_of_pieces(pieces: Seq<Seq<char>>) -> Seq<Option<(Seq<char>, Seq<char>)>>
    decreases pieces.len(),
{
    if pieces.len() == 0 {
        Seq::empty()
    } else {
        let rest = cookies_of_pieces(pieces.drop_first());
        if is_blank(pieces[0]) {
            rest
        } else {
            seq![parse_cookie_pair(pieces[0])] + rest
        }
    }
}

/// The cookies of a `Cookie` header, in order, as
/// `cookie::Cookie::split_parse` yields them: one for each piece between
/// semicolons that is not blank, `None` where the piece does not parse.
pub open spec fn spec_split_cookies(header: Seq<char>) -> Seq<Option<(Seq<char>, Seq<char>)>> {
    cookies_of_pieces(split_on(header, ';'))
}

/// The names and values of parsed cookies.
pub open spec fn pair_views(pairs: Seq<Option<(String, String)>>) -> Seq<
    Option<(Seq<char>, Seq<char>)>,
> {
    pairs.map_values(
        |p: Option<(String, String)>|
            match p {
                Some((n, v)) => Some((n@, v@)),
                None => None,
            },
    )
}

/// Calls `cookie::Cookie::split_parse` and keeps the name and value of
/// each cookie, `None` for each piece that does not parse. The contract
/// claims what the crate's source shows: the header is split at each `;`,
/// pieces made of white space are skipped, and each other piece is parsed
/// after trimming, a name and a value being the trimmed text before and
/// after its first `=`, and a piece without `=` or with an empty name
/// being an error.
#[verifier::external_body]
fn split_cookies(header: &str) -> (r: Vec<Option<(String, String)>>)
    ensures
        pair_views(r@) == spec_split_cookies(header@),
{
    let mut r = Vec::new();
    for item in cookie::Cookie::split_parse(header) {
        match item {
            Ok(c) => r.push(Some((c.name().to_string(), c.value().to_string()))),
            Err(_) => r.push(None),
        }
    }
    r
}

/// The UUID of the load balancing cookie among parsed cookies: the value
/// of the first cookie with that name, read as a UUID (`None` where it is
/// no UUID); `None` where no cookie has that name.
pub open spec fn spec_lb_uuid(cookies: Seq<Option<(Seq<char>, Seq<char>)>>) -> Option<Uuid>
    decreases cookies.len(),
{
    if cookies.len() == 0 {
        None
    } else {
        match cookies[0] {
            Some((name, value)) => if name == LB_COOKIE_NAME@ {
                parsed_uuid(value)
            } else {
                spec_lb_uuid(cookies.drop_first())
            },
            None => spec_lb_uuid(cookies.drop_first()),
        }
    }
}

/// The UUID of the load balancing cookie in the text of a `Cookie` header.
pub open spec fn lb_uuid_in_cookie_text(header: Seq<char>) -> Option<Uuid> {
    spec_lb_uuid(spec_split_cookies(header))
}

/// The UUID of the load balancing cookie of a request whose first `Cookie`
/// header holds `header` (`None` where there is none, or where it cannot be
/// read as text).
pub open spec fn lb_uuid_in_cookie_header(header: Option<Seq<u8>>) -> Option<Uuid> {
    match header {
        Some(v) => if is_header_text(v) {
            lb_uuid_in_cookie_text(ascii_chars(v))
        } else {
            None
        },
        None => None,
    }
}

/// Finds the load balancing cookie among parsed cookies.
pub fn lb_uuid_in_cookies(cookies: &Vec<Option<(String, String)>>) -> (r: Option<Uuid>)
    ensures
        r == spec_lb_uuid(pair_views(cookies@)),
{
    let ghost all = pair_views(cookies@);
    let mut i: usize = 0;
    assert(all.subrange(0, all.len() as int) =~= all);
    while i < cookies.len()
        invariant
            i <= cookies.len(),
            all == pair_views(cookies@),
            spec_lb_uuid(all) == spec_lb_uuid(all.subrange(i as int, all.len() as int)),
        decreases cookies.len() - i,
    {
        let ghost rest = all.subrange(i as int, all.len() as int);
        assert(rest.drop_first() =~= all.subrange(i + 1, all.len() as int));
        match &cookies[i] {
            Some((name, value)) => {
                if str_equals(name.as_str(), LB_COOKIE_NAME) {
                    return parse_uuid(value.as_str());
                }
            },
            None => {},
        }
        i = i + 1;
    }
    proof {
        assert(all.subrange(i as int, all.len() as int) =~= Seq::empty());
    }
    None
}

/// Reads the UUID of the load balancing cookie out of the first `Cookie`
/// header of a request.
pub fn extract_lb_uuid_from_req_cookies(cookie_header: Option<&[u8]>) -> (r: Option<Uuid>)
    ensures
        r == lb_uuid_in_cookie_header(
            match cookie_header {
                Some(v) => Some(v@),
                None => None,
            },
        ),
{
    match cookie_header {
        None => None,
        Some(v) => {
            if !header_is_text(v) {
                return None;
            }
            let text = ascii_text(v);
            let cookies = split_cookies(text.as_str());
            lb_uuid_in_cookies(&cookies)
        },
    }
}

/// The UUID that a request is balanced by: under the cookie hash strategy
/// the one of its load balancing cookie, or a fresh version 7 one where it
/// has none; under another strategy none.
pub fn lb_cookie_for_request(strategy: Strategy, cookie_header: Option<&[u8]>) -> (r: Option<Uuid>)
    ensures
        strategy != Strategy::CookieHash ==> r is None,
        strategy == Strategy::CookieHash ==> r is Some,
        strategy == Strategy::CookieHash ==> match lb_uuid_in_cookie_header(
            match cookie_header {
                Some(v) => Some(v@),
                None => None,
            },
        ) {
            Some(u) => r == Some(u),
            None => uuid_version(r.unwrap().bits) == 7 && uuid_variant(r.unwrap().bits) == 2,
        },
{
    let found = extract_lb_uuid_from_req_cookies(cookie_header);
    if strategy == Strategy::CookieHash {
        match found {
            Some(u) => Some(u),
            None => Some(now_v7()),
        }
    } else {
        None
    }
}

/// The `Set-Cookie` value that hands a client its load balancing UUID.
pub open spec fn spec_lb_cookie_header(u: Uuid) -> Seq<char> {
    LB_COOKIE_NAME@ + "="@ + uuid_hyphenated(u.bits) + "; Path=/; HttpOnly; SameSite=Lax"@
}

/// Writes the `Set-Cookie` value that hands a client its load balancing UUID.
pub fn lb_cookie_header(u: Uuid) -> (s: String)
    ensures
        s@ == spec_lb_cookie_header(u),
        uuid_parse(uuid_hyphenated(u.bits)) == Some(u.bits),
{
    proof {
        reveal_strlit("=");
        reveal_strlit("; Path=/; HttpOnly; SameSite=Lax");
    }
    let mut s = String::from_str(LB_COOKIE_NAME);
    s.append("=");
    let t = format_uuid(u);
    s.append(t.as_str());
    s.append("; Path=/; HttpOnly; SameSite=Lax");
    s
}

/// The `Set-Cookie` value that a response carries: one where the request
/// was balanced by a cookie.
pub fn lb_cookie_to_set(is_cookie_hash: bool, lb_cookie: Option<Uuid>) -> (r: Option<String>)
    ensures
        match lb_cookie {
            Some(u) => if is_cookie_hash {
                r matches Some(s) && s@ == spec_lb_cookie_header(u) && uuid_parse(
                    uuid_hyphenated(u.bits),
                ) == Some(u.bits)
            } else {
                r is None
            },
            None => r is None,
        },
{
    match lb_cookie {
        Some(u) => {
            if is_cookie_hash {
                Some(lb_cookie_header(u))
            } else {
                None
            }
        },
        None => None,
    }
}

/// The value of the `Faucet-Request-Uuid` header that names a request: the
/// hyphenated lower case text of its UUID.
pub fn uuid_to_header_value(u: Uuid) -> (s: String)
    ensures
        s@ == uuid_hyphenated(u.bits),
{
    format_uuid(u)
}

/// Whether a request asks for the reconnection script: its path ends with
/// the reserved path.
pub fn is_reconnect_request(path: &str) -> (r: bool)
    ensures
        r == (RESERVED_RECONNECT_PATH@.len() <= path@.len() && path@.subrange(
            path@.len() - RESERVED_RECONNECT_PATH@.len(),
            path@.len() as int,
        ) == RESERVED_RECONNECT_PATH@),
{
    str_ends_with(path, RESERVED_RECONNECT_PATH)
}

proof fn lemma_first_split(a: Seq<char>, c: char, b: Seq<char>)
    requires
        !a.contains(c),
    ensures
        before_first(a + seq![c] + b, c) == a,
        after_first(a + seq![c] + b, c) == b,
    decreases a.len(),
{
    let s = a + seq![c] + b;
    if a.len() == 0 {
        assert(s =~= seq![c] + b);
        assert(s.drop_first() =~= b);
    } else {
        assert(a[0] != c) by {
            if a[0] == c {
                assert(a.contains(c));
            }
        }
        let t = a.drop_first();
        assert(!t.contains(c)) by {
            if t.contains(c) {
                let i = choose|i: int| 0 <= i < t.len() && t[i] == c;
                assert(a[i + 1] == c);
            }
        }
        lemma_first_split(t, c, b);
        assert(s.drop_first() =~= t + seq![c] + b);
        assert(s[0] == a[0]);
        assert(seq![a[0]] + t =~= a);
    }
}

proof fn lemma_split_on_without(s: Seq<char>, c: char)
    requires
        !s.contains(c),
    ensures
        split_on(s, c) == seq![s],
    decreases s.len(),
{
    if s.len() == 0 {
        assert(s =~= Seq::<char>::empty());
    } else {
        let t = s.drop_first();
        assert(s[0] != c) by {
            if s[0] == c {
                assert(s.contains(c));
            }
        }
        assert(!t.contains(c)) by {
            if t.contains(c) {
                let i = choose|i: int| 0 <= i < t.len() && t[i] == c;
                assert(s[i + 1] == c);
            }
        }
        lemma_split_on_without(t, c);
        assert(seq![s[0]] + t =~= s);
        assert(split_on(t, c).update(0, seq![s[0]] + split_on(t, c)[0]) =~= seq![s]);
    }
}

proof fn lemma_trim_keeps(s: Seq<char>)
    requires
        s.len() > 0,
        !is_white_space(s[0]),
        !is_white_space(s.last()),
    ensures
        trim_chars(s) == s,
{
    assert(trim_start_chars(s) == s);
}

/// Every character of a hyphenated UUID is a hyphen or a lower case
/// hexadecimal digit.
proof fn lemma_hyphenated_chars(bits: u128, i: int)
    requires
        0 <= i < 36,
    ensures
        uuid_hyphenated(bits)[i] == '-' || uuid_hyphenated(bits)[i] == hex_digit(
            uuid_nibble(bits, i - hyphens_before(i)),
        ),
        uuid_hyphenated(bits)[i] != ';',
        uuid_hyphenated(bits)[i] != '=',
        !is_white_space(uuid_hyphenated(bits)[i]),
{
}

/// The name and value of the load balancing cookie for `u`, as a client
/// sends it back: the part of `Set-Cookie` before its first `;`.
pub open spec fn lb_cookie_pair(u: Uuid) -> Seq<char> {
    LB_COOKIE_NAME@ + "="@ + uuid_hyphenated(u.bits)
}

/// Parsed cookies among which none is the load balancing cookie.
pub open spec fn no_lb_cookie(cookies: Seq<Option<(Seq<char>, Seq<char>)>>) -> bool {
    forall|i: int|
        0 <= i < cookies.len() ==> !(#[trigger] cookies[i] matches Some((n, _)) && n
            == LB_COOKIE_NAME@)
}

/// What the cookie pair of a UUID is made of.
proof fn lemma_lb_pair_facts(u: Uuid)
    ensures
        lb_cookie_pair(u) == before_first(spec_lb_cookie_header(u), ';'),
        !lb_cookie_pair(u).contains(';'),
        lb_cookie_pair(u).len() > 0,
        lb_cookie_pair(u)[0] == 'F',
        !is_white_space(lb_cookie_pair(u).last()),
        trim_start_chars(lb_cookie_pair(u)) == lb_cookie_pair(u),
        trim_chars(lb_cookie_pair(u)) == lb_cookie_pair(u),
        parse_cookie_pair(lb_cookie_pair(u)) == Some((LB_COOKIE_NAME@, uuid_hyphenated(u.bits))),
{
    reveal_strlit("FAUCET_LB_COOKIE");
    reveal_strlit("=");
    reveal_strlit("; Path=/; HttpOnly; SameSite=Lax");
    let name = LB_COOKIE_NAME@;
    let hyph = uuid_hyphenated(u.bits);
    let pair = lb_cookie_pair(u);
    let attrs = "; Path=/; HttpOnly; SameSite=Lax"@;
    assert(!name.contains('=') && !name.contains(';')) by {
        assert forall|i: int| 0 <= i < name.len() implies name[i] != '=' && name[i] != ';' by {
            assert(name =~= seq!['F', 'A', 'U', 'C', 'E', 'T', '_', 'L', 'B', '_', 'C', 'O', 'O', 'K', 'I', 'E']);
        }
    }
    assert(!hyph.contains(';') && !hyph.contains('=')) by {
        assert forall|i: int| 0 <= i < hyph.len() implies hyph[i] != ';' && hyph[i] != '=' by {
            lemma_hyphenated_chars(u.bits, i);
        }
    }
    assert(!pair.contains(';')) by {
        assert forall|i: int| 0 <= i < pair.len() implies pair[i] != ';' by {
            if i < 16 {
                assert(pair[i] == name[i]);
            } else if i > 16 {
                assert(pair[i] == hyph[i - 17]);
            }
        }
    }
    assert(spec_lb_cookie_header(u) =~= pair + seq![';'] + attrs.drop_first());
    lemma_first_split(pair, ';', attrs.drop_first());
    assert(pair[0] == 'F');
    lemma_hyphenated_chars(u.bits, 35);
    assert(pair.last() == hyph[35]);
    lemma_trim_keeps(pair);
    assert(pair =~= name + seq!['='] + hyph);
    lemma_first_split(name, '=', hyph);
    assert(pair.contains('=')) by {
        assert(pair[16] == '=');
    }
    assert(name[15] == 'E');
    lemma_trim_keeps(name);
    lemma_hyphenated_chars(u.bits, 0);
    lemma_trim_keeps(hyph);
}

/// The cookie that a client sends back after a response set its load
/// balancing cookie (the name and value before the first `;` of
/// `Set-Cookie`) is read back as the same UUID.
pub proof fn lemma_lb_cookie_is_read_back(u: Uuid)
    requires
        uuid_parse(uuid_hyphenated(u.bits)) == Some(u.bits),
    ensures
        lb_uuid_in_cookie_text(before_first(spec_lb_cookie_header(u), ';')) == Some(u),
{
    lemma_lb_pair_facts(u);
    let pair = lb_cookie_pair(u);
    lemma_split_on_without(pair, ';');
    assert(!is_blank(pair)) by {
        assert(pair[0] == 'F');
    }
    let pieces = seq![pair];
    assert(pieces.drop_first() =~= Seq::<Seq<char>>::empty());
    assert(pieces[0] == pair);
    assert(cookies_of_pieces(pieces.drop_first()) =~= Seq::<Option<(Seq<char>, Seq<char>)>>::empty());
    let cookies = spec_split_cookies(pair);
    assert(cookies.drop_first() =~= Seq::<Option<(Seq<char>, Seq<char>)>>::empty());
}

proof fn lemma_split_on_len(s: Seq<char>, c: char)
    ensures
        split_on(s, c).len() >= 1,
    decreases s.len(),
{
    if s.len() > 0 {
        lemma_split_on_len(s.drop_first(), c);
    }
}

/// Splitting text made of two parts joined by the separator gives the
/// pieces of the first part followed by those of the second.
proof fn lemma_split_on_concat(a: Seq<char>, c: char, b: Seq<char>)
    ensures
        split_on(a + seq![c] + b, c) == split_on(a, c) + split_on(b, c),
    decreases a.len(),
{
    let s = a + seq![c] + b;
    if a.len() == 0 {
        assert(s =~= seq![c] + b);
        assert(s.drop_first() =~= b);
        assert(split_on(a, c) =~= seq![Seq::<char>::empty()]);
        assert(split_on(s, c) =~= split_on(a, c) + split_on(b, c));
    } else {
        let t = a.drop_first();
        lemma_split_on_concat(t, c, b);
        lemma_split_on_len(t, c);
        assert(s.drop_first() =~= t + seq![c] + b);
        assert(s[0] == a[0]);
        let rest = split_on(t, c) + split_on(b, c);
        if a[0] == c {
            assert(split_on(s, c) =~= split_on(a, c) + split_on(b, c));
        } else {
            assert(rest.update(0, seq![a[0]] + rest[0]) =~= split_on(t, c).update(
                0,
                seq![a[0]] + split_on(t, c)[0],
            ) + split_on(b, c));
        }
    }
}

proof fn lemma_cookies_concat(x: Seq<Seq<char>>, y: Seq<Seq<char>>)
    ensures
        cookies_of_pieces(x + y) == cookies_of_pieces(x) + cookies_of_pieces(y),
    decreases x.len(),
{
    if x.len() == 0 {
        assert(x + y =~= y);
        assert(cookies_of_pieces(x) + cookies_of_pieces(y) =~= cookies_of_pieces(y));
    } else {
        lemma_cookies_concat(x.drop_first(), y);
        assert((x + y).drop_first() =~= x.drop_first() + y);
        assert((x + y)[0] == x[0]);
        if is_blank(x[0]) {
        } else {
            assert(seq![parse_cookie_pair(x[0])] + (cookies_of_pieces(x.drop_first())
                + cookies_of_pieces(y)) =~= (seq![parse_cookie_pair(x[0])] + cookies_of_pieces(
                x.drop_first(),
            )) + cookies_of_pieces(y));
        }
    }
}

proof fn lemma_lb_after_others(
    x: Seq<Option<(Seq<char>, Seq<char>)>>,
    y: Seq<Option<(Seq<char>, Seq<char>)>>,
)
    requires
        no_lb_cookie(x),
    ensures
        spec_lb_uuid(x + y) == spec_lb_uuid(y),
    decreases x.len(),
{
    if x.len() == 0 {
        assert(x + y =~= y);
    } else {
        let t = x.drop_first();
        assert(no_lb_cookie(t)) by {
            assert forall|i: int| 0 <= i < t.len() implies !(#[trigger] t[i] matches Some((n, _))
                && n == LB_COOKIE_NAME@) by {
                assert(t[i] == x[i + 1]);
            }
        }
        lemma_lb_after_others(t, y);
        assert((x + y).drop_first() =~= t + y);
        assert((x + y)[0] == x[0]);
        assert(!(x[0] matches Some((n, _)) && n == LB_COOKIE_NAME@));
    }
}

/// The load balancing cookie with blanks on either side is one piece of a
/// header, and is read as that cookie.
proof fn lemma_lb_piece(u: Uuid, spaces: Seq<char>, trailing: Seq<char>)
    requires
        is_blank(spaces),
        is_blank(trailing),
    ensures
        !(spaces + lb_cookie_pair(u) + trailing).contains(';'),
        !is_blank(spaces + lb_cookie_pair(u) + trailing),
        parse_cookie_pair(spaces + lb_cookie_pair(u) + trailing) == Some(
            (LB_COOKIE_NAME@, uuid_hyphenated(u.bits)),
        ),
{
    lemma_lb_pair_facts(u);
    let pair = lb_cookie_pair(u);
    let piece = spaces + pair + trailing;
    let a = spaces.len() as int;
    let b = a + pair.len();
    assert(!piece.contains(';')) by {
        assert forall|i: int| 0 <= i < piece.len() implies piece[i] != ';' by {
            if i < a {
                assert(is_white_space(spaces[i]));
            } else if i < b {
                assert(piece[i] == pair[i - a]);
            } else {
                assert(piece[i] == trailing[i - b]);
                assert(is_white_space(trailing[i - b]));
            }
        }
    }
    assert forall|j: int| 0 <= j < a implies is_white_space(#[trigger] piece[j]) by {
        assert(piece[j] == spaces[j]);
    }
    assert(piece[a] == 'F');
    lemma_trim_start_chars(piece, a);
    let started = piece.subrange(a, piece.len() as int);
    assert(started =~= pair + trailing);
    let white = |c: char| is_white_space(c);
    assert forall|j: int| pair.len() <= j < started.len() implies white(#[trigger] started[j]) by {
        assert(started[j] == trailing[j - pair.len()]);
    }
    assert(!white(started[pair.len() - 1])) by {
        assert(started[pair.len() - 1] == pair.last());
    }
    lemma_trim_end_by(started, white, pair.len() as int);
    assert(started.subrange(0, pair.len() as int) =~= pair);
    assert(trim_chars(piece) == trim_chars(pair));
    assert(!is_blank(piece)) by {
        assert(!is_white_space(piece[a]));
    }
}

/// Text made of blanks, the load balancing cookie, blanks and, where
/// `with_after` holds, a `;` and anything: the first of its cookies is the
/// load balancing cookie.
proof fn lemma_lb_cookie_leads(
    u: Uuid,
    spaces: Seq<char>,
    trailing: Seq<char>,
    after: Seq<char>,
    with_after: bool,
)
    requires
        uuid_parse(uuid_hyphenated(u.bits)) == Some(u.bits),
        is_blank(spaces),
        is_blank(trailing),
    ensures
        spec_lb_uuid(
            spec_split_cookies(
                spaces + lb_cookie_pair(u) + trailing + (if with_after {
                    seq![';'] + after
                } else {
                    Seq::empty()
                }),
            ),
        ) == Some(u),
{
    lemma_lb_piece(u, spaces, trailing);
    let pair = lb_cookie_pair(u);
    let piece = spaces + pair + trailing;
    lemma_split_on_without(piece, ';');
    let one = seq![piece];
    assert(one.drop_first() =~= Seq::<Seq<char>>::empty());
    assert(cookies_of_pieces(one.drop_first()) =~= Seq::<Option<(Seq<char>, Seq<char>)>>::empty());
    let found = seq![Some((LB_COOKIE_NAME@, uuid_hyphenated(u.bits)))];
    assert(cookies_of_pieces(one) =~= found);
    let tail = spaces + pair + trailing + (if with_after {
        seq![';'] + after
    } else {
        Seq::empty()
    });
    let tail_cookies = spec_split_cookies(tail);
    if with_after {
        assert(tail =~= piece + seq![';'] + after);
        lemma_split_on_concat(piece, ';', after);
        lemma_cookies_concat(one, split_on(after, ';'));
        assert(tail_cookies =~= found + spec_split_cookies(after));
        assert(tail_cookies.drop_first() =~= spec_split_cookies(after));
    } else {
        assert(tail =~= piece);
        assert(tail_cookies =~= found);
        assert(tail_cookies.drop_first() =~= Seq::<Option<(Seq<char>, Seq<char>)>>::empty());
    }
}

/// A client's `Cookie` header is read as the UUID of its load balancing
/// cookie wherever that cookie stands: after any cookies that are not the
/// load balancing cookie (followed by `;`), with white space on either
/// side of it, and before anything at all (after a `;`). The first load
/// balancing cookie decides. The text of the UUID must read back as the
/// UUID, which `lb_cookie_to_set` ensures of every cookie it hands out.
pub proof fn lemma_lb_cookie_is_found_among_others(
    u: Uuid,
    before: Seq<char>,
    spaces: Seq<char>,
    trailing: Seq<char>,
    after: Seq<char>,
    with_before: bool,
    with_after: bool,
)
    requires
        uuid_parse(uuid_hyphenated(u.bits)) == Some(u.bits),
        no_lb_cookie(spec_split_cookies(before)),
        is_blank(spaces),
        is_blank(trailing),
    ensures
        lb_uuid_in_cookie_text(
            (if with_before {
                before + seq![';'] + spaces
            } else {
                spaces
            }) + lb_cookie_pair(u) + trailing + (if with_after {
                seq![';'] + after
            } else {
                Seq::empty()
            }),
        ) == Some(u),
{
    lemma_lb_cookie_leads(u, spaces, trailing, after, with_after);
    let rest = lb_cookie_pair(u) + trailing + (if with_after {
        seq![';'] + after
    } else {
        Seq::empty()
    });
    let tail = spaces + rest;
    assert(tail =~= spaces + lb_cookie_pair(u) + trailing + (if with_after {
        seq![';'] + after
    } else {
        Seq::empty()
    }));
    let tail_cookies = spec_split_cookies(tail);
    let whole = (if with_before {
        before + seq![';'] + spaces
    } else {
        spaces
    }) + lb_cookie_pair(u) + trailing + (if with_after {
        seq![';'] + after
    } else {
        Seq::empty()
    });
    if with_before {
        assert(whole =~= before + seq![';'] + tail);
        lemma_split_on_concat(before, ';', tail);
        lemma_cookies_concat(split_on(before, ';'), split_on(tail, ';'));
        lemma_lb_after_others(spec_split_cookies(before), tail_cookies);
    } else {
        assert(whole =~= tail);
    }
}

} // verus!
