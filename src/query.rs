//! Looking up a key in a URL query string of the form `?k1=v1&k2=v2`.

use vstd::prelude::*;
use vstd::string::StringSliceAdditionalSpecFns;
use vstd::utf8::*;

verus! {

broadcast use {vstd::utf8::encode_utf8_valid_utf8, vstd::utf8::is_char_boundary_start_end_of_seq};

pub const QUESTION_MARK: u8 = 0x3f;

pub const AMPERSAND: u8 = 0x26;

pub const EQUALS: u8 = 0x3d;

/// Index of the first `c` in `s`, or `s.len()` when there is none.
pub open spec fn find_or_end(s: Seq<u8>, c: u8) -> nat
    decreases s.len(),
{
    if s.len() == 0 {
        0
    } else if s[0] == c {
        0
    } else {
        1 + find_or_end(s.subrange(1, s.len() as int), c)
    }
}

/// The value for `key` among `&`-separated `key=value` pairs: the pairs are
/// read in order, the first whose key equals `key` gives its value (up to
/// any further `=`), and a pair without `=` ends the search with nothing.
pub open spec fn query_value(pairs: Seq<u8>, key: Seq<u8>) -> Option<Seq<u8>>
    decreases pairs.len(),
{
    let end = find_or_end(pairs, AMPERSAND);
    if end > pairs.len() {
        None
    } else {
        let pair = pairs.subrange(0, end as int);
        let eq = find_or_end(pair, EQUALS);
        if eq >= pair.len() {
            None
        } else {
            let after = pair.subrange(eq + 1 as int, pair.len() as int);
            if pair.subrange(0, eq as int) == key {
                Some(after.subrange(0, find_or_end(after, EQUALS) as int))
            } else if end >= pairs.len() {
                None
            } else {
                query_value(pairs.subrange(end + 1 as int, pairs.len() as int), key)
            }
        }
    }
}

/// The value for `key` in the query string `query`, which must start with
/// `?`.
pub open spec fn url_query_lookup(query: Seq<u8>, key: Seq<u8>) -> Option<Seq<u8>> {
    if query.len() > 0 && query[0] == QUESTION_MARK {
        query_value(query.subrange(1, query.len() as int), key)
    } else {
        None
    }
}

proof fn lemma_find_or_end_bounds(s: Seq<u8>, c: u8)
    ensures
        find_or_end(s, c) <= s.len(),
        find_or_end(s, c) < s.len() ==> s[find_or_end(s, c) as int] == c,
        forall|j: int| 0 <= j < find_or_end(s, c) ==> s[j] != c,
    decreases s.len(),
{
    if s.len() > 0 && s[0] != c {
        let t = s.subrange(1, s.len() as int);
        lemma_find_or_end_bounds(t, c);
        assert forall|j: int| 0 <= j < find_or_end(s, c) implies s[j] != c by {
            if j > 0 {
                assert(s[j] == t[j - 1]);
            }
        }
    }
}

proof fn lemma_find_or_end_prefix(s: Seq<u8>, c: u8, k: int)
    requires
        0 <= k <= s.len(),
        forall|j: int| 0 <= j < k ==> s[j] != c,
    ensures
        find_or_end(s, c) == k + find_or_end(s.subrange(k, s.len() as int), c),
    decreases k,
{
    if k > 0 {
        let t = s.subrange(1, s.len() as int);
        assert(t.subrange(k - 1, t.len() as int) =~= s.subrange(k, s.len() as int));
        lemma_find_or_end_prefix(t, c, k - 1);
    } else {
        assert(s.subrange(0, s.len() as int) =~= s);
    }
}

/// A position right after a one-byte character is a character boundary.
proof fn lemma_boundary_after_ascii(bytes: Seq<u8>, i: int)
    requires
        valid_utf8(bytes),
        0 <= i < bytes.len(),
        is_char_boundary(bytes, i),
        bytes[i] < 0x80,
    ensures
        is_char_boundary(bytes, i + 1),
    decreases bytes.len(),
{
    let tail = pop_first_scalar(bytes);
    let len = length_of_first_scalar(bytes);
    if i == 0 {
        assert(len == 1);
        assert(is_char_boundary(tail, 0));
    } else {
        assert(is_char_boundary(tail, i - len));
        assert(tail[i - len] == bytes[i]);
        lemma_boundary_after_ascii(tail, i - len);
    }
}

/// Index of the first `c` in `b[from..to]`, or `to` when there is none.
fn find_byte(b: &[u8], from: usize, to: usize, c: u8) -> (r: usize)
    requires
        from <= to <= b@.len(),
    ensures
        from <= r <= to,
        r == from + find_or_end(b@.subrange(from as int, to as int), c),
{
    let ghost s = b@.subrange(from as int, to as int);
    let mut i: usize = from;
    while i < to && b[i] != c
        invariant
            from <= i <= to <= b@.len(),
            s == b@.subrange(from as int, to as int),
            forall|j: int| 0 <= j < i - from ==> s[j] != c,
        decreases to - i,
    {
        i = i + 1;
    }
    proof {
        lemma_find_or_end_prefix(s, c, i - from);
        let rest = s.subrange(i - from, s.len() as int);
        if i < to {
            assert(rest[0] == c);
        } else {
            assert(rest.len() == 0);
        }
    }
    i
}

/// Whether `b[from..to]` equals `key`.
fn bytes_equal(b: &[u8], from: usize, to: usize, key: &[u8]) -> (r: bool)
    requires
        from <= to <= b@.len(),
    ensures
        r == (b@.subrange(from as int, to as int) == key@),
{
    if to - from != key.len() {
        return false;
    }
    let mut i: usize = 0;
    while i < key.len()
        invariant
            from <= to <= b@.len(),
            to - from == key@.len(),
            i <= key@.len(),
            forall|j: int| 0 <= j < i ==> b@[from + j] == key@[j],
        decreases key@.len() - i,
    {
        if b[from + i] != key[i] {
            assert(b@.subrange(from as int, to as int)[i as int] != key@[i as int]);
            return false;
        }
        i = i + 1;
    }
    assert(b@.subrange(from as int, to as int) =~= key@);
    true
}

/// The part of `s` between byte offsets `from` and `to`, both of which fall
/// on character boundaries.
fn substring(s: &str, from: usize, to: usize) -> (r: &str)
    requires
        from <= to <= s.spec_bytes().len(),
        is_char_boundary(s.spec_bytes(), from as int),
        is_char_boundary(s.spec_bytes(), to as int),
    ensures
        r.spec_bytes() == s.spec_bytes().subrange(from as int, to as int),
{
    let (_, tail) = s.split_at(from);
    let ghost b = s.spec_bytes();
    let ghost t = tail.spec_bytes();
    proof {
        if to < b.len() {
            is_char_boundary_iff_not_is_continuation_byte(b, to as int);
            is_char_boundary_iff_not_is_continuation_byte(t, to - from);
            assert(t[to - from] == b[to as int]);
        }
    }
    let (mid, _) = tail.split_at(to - from);
    assert(mid.spec_bytes() =~= b.subrange(from as int, to as int));
    mid
}

/// Returns the value of `search_key` in a URL query string such as
/// `?a=1&b=2`. There is none when the string does not start with `?`, when
/// no pair has that key, or when a pair without `=` comes first.
pub fn parse_url_query_string<'a>(query: &'a str, search_key: &str) -> (r: Option<&'a str>)
    ensures
        match url_query_lookup(query.spec_bytes(), search_key.spec_bytes()) {
            Some(v) => r is Some && r->Some_0.spec_bytes() == v,
            None => r is None,
        },
{
    let b = query.as_bytes();
    let key = search_key.as_bytes();
    let ghost bs = b@;
    let n = b.len();
    if n == 0 || b[0] != QUESTION_MARK {
        return None;
    }
    let ghost target = url_query_lookup(bs, key@);
    let mut pos: usize = 1;
    loop
        invariant
            b@ == bs,
            bs == query.spec_bytes(),
            key@ == search_key.spec_bytes(),
            n == bs.len(),
            1 <= pos <= n,
            target == url_query_lookup(bs, key@),
            target == query_value(bs.subrange(pos as int, n as int), key@),
            pos == 1 || bs[pos - 1] == AMPERSAND,
        decreases n - pos,
    {
        let ghost pairs = bs.subrange(pos as int, n as int);
        let end = find_byte(b, pos, n, AMPERSAND);
        let eq = find_byte(b, pos, end, EQUALS);
        proof {
            lemma_find_or_end_bounds(pairs, AMPERSAND);
            assert(pairs.subrange(0, end - pos) =~= bs.subrange(pos as int, end as int));
        }
        if eq == end {
            proof {
                let pair = pairs.subrange(0, end - pos);
                assert(find_or_end(pair, EQUALS) == pair.len());
                assert(query_value(pairs, key@) is None);
            }
            return None;
        }
        let vstart = eq + 1;
        let vend = find_byte(b, vstart, end, EQUALS);
        proof {
            let pair = bs.subrange(pos as int, end as int);
            lemma_find_or_end_bounds(pair, EQUALS);
            assert(pair.subrange(eq - pos + 1, pair.len() as int) =~= bs.subrange(
                vstart as int,
                end as int,
            ));
            assert(pair.subrange(0, eq - pos) =~= bs.subrange(pos as int, eq as int));
        }
        if bytes_equal(b, pos, eq, key) {
            proof {
                let after = bs.subrange(vstart as int, end as int);
                lemma_find_or_end_bounds(after, EQUALS);
                lemma_find_or_end_bounds(bs.subrange(pos as int, end as int), EQUALS);
                assert(after.subrange(0, vend - vstart) =~= bs.subrange(
                    vstart as int,
                    vend as int,
                ));
                assert(bs[eq as int] == EQUALS);
                is_char_boundary_iff_not_is_continuation_byte(bs, eq as int);
                lemma_boundary_after_ascii(bs, eq as int);
                if vend < n {
                    is_char_boundary_iff_not_is_continuation_byte(bs, vend as int);
                    if vend < end {
                        assert(bs[vend as int] == EQUALS);
                    } else {
                        assert(bs[vend as int] == AMPERSAND);
                    }
                }
            }
            return Some(substring(query, vstart, vend));
        }
        if end == n {
            return None;
        }
        assert(bs.subrange(pos as int, n as int).subrange(end - pos + 1, n - pos) =~= bs.subrange(
            end + 1,
            n as int,
        ));
        pos = end + 1;
    }
}

} // verus!
