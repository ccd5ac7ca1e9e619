use vstd::prelude::*;

verus! {

/// A byte that may stand in a header value that is read as text: a visible
/// ASCII character or a horizontal tab.
pub open spec fn is_header_char(b: u8) -> bool {
    (32 <= b && b < 127) || b == 9
}

/// A header value that can be read as text.
pub open spec fn is_header_text(v: Seq<u8>) -> bool {
    forall|i: int| 0 <= i < v.len() ==> is_header_char(#[trigger] v[i])
}

/// Checks that a header value can be read as text, as `HeaderValue::to_str` does.
pub fn header_is_text(v: &[u8]) -> (r: bool)
    ensures
        r == is_header_text(v@),
{
    let mut i: usize = 0;
    while i < v.len()
        invariant
            i <= v.len(),
            forall|j: int| 0 <= j < i ==> is_header_char(#[trigger] v@[j]),
        decreases v.len() - i,
    {
        let b = v[i];
        if !((32 <= b && b < 127) || b == 9) {
            assert(!is_header_char(v@[i as int]));
            return false;
        }
        i = i + 1;
    }
    true
}

/// ASCII white space as `char::is_whitespace` sees it.
pub open spec fn is_ascii_space(b: u8) -> bool {
    b == 9 || b == 10 || b == 11 || b == 12 || b == 13 || b == 32
}

/// Drops leading white space.
pub open spec fn trim_start(s: Seq<u8>) -> Seq<u8>
    decreases s.len(),
{
    if s.len() > 0 && is_ascii_space(s[0]) {
        trim_start(s.drop_first())
    } else {
        s
    }
}

/// Drops trailing white space.
pub open spec fn trim_end(s: Seq<u8>) -> Seq<u8>
    decreases s.len(),
{
    if s.len() > 0 && is_ascii_space(s.last()) {
        trim_end(s.drop_last())
    } else {
        s
    }
}

/// Drops white space at both ends, as `str::trim` does on ASCII text.
pub open spec fn trim(s: Seq<u8>) -> Seq<u8> {
    trim_end(trim_start(s))
}

/// The text before the first occurrence of `sep`, the whole text if there is none.
pub open spec fn take_until(s: Seq<u8>, sep: u8) -> Seq<u8>
    decreases s.len(),
{
    if s.len() == 0 || s[0] == sep {
        Seq::empty()
    } else {
        seq![s[0]] + take_until(s.drop_first(), sep)
    }
}

proof fn lemma_trim_start(s: Seq<u8>, a: int)
    requires
        0 <= a <= s.len(),
        forall|j: int| 0 <= j < a ==> is_ascii_space(#[trigger] s[j]),
        a == s.len() || !is_ascii_space(s[a]),
    ensures
        trim_start(s) == s.subrange(a, s.len() as int),
    decreases a,
{
    if a > 0 {
        let t = s.drop_first();
        assert forall|j: int| 0 <= j < a - 1 implies is_ascii_space(#[trigger] t[j]) by {
            assert(t[j] == s[j + 1]);
        }
        lemma_trim_start(t, a - 1);
        assert(t.subrange(a - 1, t.len() as int) =~= s.subrange(a, s.len() as int));
    } else {
        assert(s.subrange(0, s.len() as int) =~= s);
    }
}

proof fn lemma_trim_end(s: Seq<u8>, b: int)
    requires
        0 <= b <= s.len(),
        forall|j: int| b <= j < s.len() ==> is_ascii_space(#[trigger] s[j]),
        b == 0 || !is_ascii_space(s[b - 1]),
    ensures
        trim_end(s) == s.subrange(0, b),
    decreases s.len() - b,
{
    if b < s.len() {
        let t = s.drop_last();
        assert forall|j: int| b <= j < t.len() implies is_ascii_space(#[trigger] t[j]) by {
            assert(t[j] == s[j]);
        }
        lemma_trim_end(t, b);
        assert(t.subrange(0, b) =~= s.subrange(0, b));
    } else {
        assert(s.subrange(0, s.len() as int) =~= s);
    }
}

proof fn lemma_take_until(s: Seq<u8>, sep: u8, k: int)
    requires
        0 <= k <= s.len(),
        forall|j: int| 0 <= j < k ==> #[trigger] s[j] != sep,
        k == s.len() || s[k] == sep,
    ensures
        take_until(s, sep) == s.subrange(0, k),
    decreases k,
{
    if k > 0 {
        let t = s.drop_first();
        assert forall|j: int| 0 <= j < k - 1 implies #[trigger] t[j] != sep by {
            assert(t[j] == s[j + 1]);
        }
        lemma_take_until(t, sep, k - 1);
        assert(seq![s[0]] + t.subrange(0, k - 1) =~= s.subrange(0, k));
    } else {
        assert(s.subrange(0, 0) =~= Seq::<u8>::empty());
    }
}

/// Copies `s[from..to]` into a new vector.
fn copy_range(s: &[u8], from: usize, to: usize) -> (r: Vec<u8>)
    requires
        from <= to <= s.len(),
    ensures
        r@ == s@.subrange(from as int, to as int),
{
    let mut r: Vec<u8> = Vec::new();
    let mut i = from;
    while i < to
        invariant
            from <= i <= to <= s.len(),
            r@ == s@.subrange(from as int, i as int),
        decreases to - i,
    {
        r.push(s[i]);
        assert(r@ =~= s@.subrange(from as int, i + 1));
        i = i + 1;
    }
    r
}

/// The text before the first `sep`, as `str::split(sep).next()` gives it.
pub fn first_segment(s: &[u8], sep: u8) -> (r: Vec<u8>)
    ensures
        r@ == take_until(s@, sep),
{
    let mut k: usize = 0;
    while k < s.len() && s[k] != sep
        invariant
            k <= s.len(),
            forall|j: int| 0 <= j < k ==> #[trigger] s@[j] != sep,
        decreases s.len() - k,
    {
        k = k + 1;
    }
    proof {
        lemma_take_until(s@, sep, k as int);
    }
    copy_range(s, 0, k)
}

/// The text without white space at either end, as `str::trim` gives it.
pub fn trim_ascii(s: &[u8]) -> (r: Vec<u8>)
    ensures
        r@ == trim(s@),
{
    let mut a: usize = 0;
    while a < s.len() && (s[a] == 9 || s[a] == 10 || s[a] == 11 || s[a] == 12 || s[a] == 13 || s[a]
        == 32)
        invariant
            a <= s.len(),
            forall|j: int| 0 <= j < a ==> is_ascii_space(#[trigger] s@[j]),
        decreases s.len() - a,
    {
        a = a + 1;
    }
    proof {
        lemma_trim_start(s@, a as int);
    }
    let ghost t = s@.subrange(a as int, s@.len() as int);
    let mut b: usize = s.len();
    while b > a && (s[b - 1] == 9 || s[b - 1] == 10 || s[b - 1] == 11 || s[b - 1] == 12 || s[b - 1]
        == 13 || s[b - 1] == 32)
        invariant
            a <= b <= s.len(),
            forall|j: int| b <= j < s.len() ==> is_ascii_space(#[trigger] s@[j]),
        decreases b - a,
    {
        b = b - 1;
    }
    proof {
        let bb = b - a;
        assert forall|j: int| bb <= j < t.len() implies is_ascii_space(#[trigger] t[j]) by {
            assert(t[j] == s@[j + a]);
        }
        if bb > 0 {
            assert(t[bb - 1] == s@[b - 1]);
        }
        lemma_trim_end(t, bb as int);
        assert(t.subrange(0, bb as int) =~= s@.subrange(a as int, b as int));
    }
    copy_range(s, a, b)
}


/// Calls `std::str::from_utf8` on bytes that were checked to be header
/// text. The contract claims what UTF-8 defines: ASCII bytes decode one for
/// one to the characters with the same codes.
#[verifier::external_body]
pub(crate) fn ascii_text(bytes: &[u8]) -> (s: String)
    requires
        is_header_text(bytes@),
    ensures
        s@ == bytes@.map_values(|x: u8| x as char),
{
    match std::str::from_utf8(bytes) {
        Ok(t) => t.to_string(),
        Err(_) => String::new(),
    }
}

} // verus!
