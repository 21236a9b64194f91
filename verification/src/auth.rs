//! The comparison behind API-key authentication. It runs in time that
//! depends only on the lengths of its inputs, never on where they
//! first differ, so an attacker cannot time their way to the key.

use vstd::prelude::*;
use vstd::string::StrSliceExecFns;
use vstd::string::StringSliceAdditionalSpecFns;
use vstd::utf8::encode_utf8;
use vstd::utf8::encode_utf8_decode_utf8;

verus! {

proof fn lemma_or_zero(a: usize, b: usize)
    ensures
        ((a | b) == 0) <==> (a == 0 && b == 0),
{
    assert(((a | b) == 0) <==> (a == 0 && b == 0)) by (bit_vector);
}

proof fn lemma_xor_zero(a: usize, b: usize)
    ensures
        ((a ^ b) == 0) <==> (a == b),
{
    assert(((a ^ b) == 0) <==> (a == b)) by (bit_vector);
}

proof fn lemma_xor_zero_u8(a: u8, b: u8)
    ensures
        ((a ^ b) == 0) <==> (a == b),
{
    assert(((a ^ b) == 0) <==> (a == b)) by (bit_vector);
}

/// Whether the two strings hold the same text, computed by folding
/// every byte position into one accumulator rather than returning at
/// the first difference, so that the running time leaks nothing about
/// the position of a mismatch.
pub fn constant_time_compare(a: &str, b: &str) -> (r: bool)
    ensures
        r == (a@ == b@),
{
    let a_bytes = a.as_bytes();
    let b_bytes = b.as_bytes();
    let a_len = a_bytes.len();
    let b_len = b_bytes.len();
    let max_len = if a_len < b_len {
        b_len
    } else {
        a_len
    };

    let mut result: usize = a_len ^ b_len;
    proof {
        lemma_xor_zero(a_len, b_len);
    }

    let mut i: usize = 0;
    while i < max_len
        invariant
            i <= max_len,
            max_len == (if a_bytes@.len() < b_bytes@.len() {
                b_bytes@.len()
            } else {
                a_bytes@.len()
            }),
            a_bytes@ == encode_utf8(a@),
            b_bytes@ == encode_utf8(b@),
            (result == 0) <==> (a_bytes@.len() == b_bytes@.len() && (forall|j: int|
                0 <= j < i && j < a_bytes@.len() ==> a_bytes@[j] == b_bytes@[j])),
        decreases max_len - i,
    {
        let byte_a: u8 = if i < a_bytes.len() {
            a_bytes[i]
        } else {
            0
        };
        let byte_b: u8 = if i < b_bytes.len() {
            b_bytes[i]
        } else {
            0
        };
        let x: usize = (byte_a ^ byte_b) as usize;
        let next: usize = result | x;
        proof {
            lemma_or_zero(result, x);
            lemma_xor_zero_u8(byte_a, byte_b);
        }
        result = next;
        i += 1;
    }

    proof {
        if result == 0 {
            assert(a_bytes@ =~= b_bytes@);
            encode_utf8_decode_utf8(a@);
            encode_utf8_decode_utf8(b@);
        } else {
            if a@ == b@ {
                assert(a_bytes@ == b_bytes@);
            }
        }
    }
    result == 0
}

/// A whitespace character that surrounds a submitted token: the ASCII
/// ones, which are all that a readable HTTP header value can carry.
pub open spec fn spec_is_ws(c: char) -> bool {
    c == ' ' || c == '\t' || c == '\r' || c == '\n'
}

/// The first index at or after `i` holding a non-whitespace character,
/// or the length when there is none.
pub open spec fn spec_skip_ws(s: Seq<char>, i: int) -> int
    decreases s.len() - i,
{
    if i < 0 || i >= s.len() {
        s.len() as int
    } else if spec_is_ws(s[i]) {
        spec_skip_ws(s, i + 1)
    } else {
        i
    }
}

/// The index just after the last non-whitespace character when
/// scanning down from `i`, or `lo` when all of `[lo, i)` is
/// whitespace.
pub open spec fn spec_rskip_ws(s: Seq<char>, lo: int, i: int) -> int
    decreases i - lo,
{
    if i <= lo {
        lo
    } else if spec_is_ws(s[i - 1]) {
        spec_rskip_ws(s, lo, i - 1)
    } else {
        i
    }
}

/// The text with surrounding whitespace removed, within `[from, len)`.
pub open spec fn spec_trimmed(s: Seq<char>, from: int) -> Seq<char> {
    let lo = spec_skip_ws(s, from);
    s.subrange(lo, spec_rskip_ws(s, lo, s.len() as int))
}

/// Whether the text begins with the bearer scheme marker.
pub open spec fn spec_has_bearer_prefix(s: Seq<char>) -> bool {
    s.len() >= 7 && s.subrange(0, 7) == "Bearer "@
}

proof fn lemma_skip_ws_bounds(s: Seq<char>, i: int)
    requires
        0 <= i <= s.len(),
    ensures
        i <= spec_skip_ws(s, i) <= s.len(),
    decreases s.len() - i,
{
    if i < s.len() && spec_is_ws(s[i]) {
        lemma_skip_ws_bounds(s, i + 1);
    }
}

proof fn lemma_rskip_ws_bounds(s: Seq<char>, lo: int, i: int)
    requires
        0 <= lo <= i <= s.len(),
    ensures
        lo <= spec_rskip_ws(s, lo, i) <= i,
    decreases i - lo,
{
    if i > lo && spec_is_ws(s[i - 1]) {
        lemma_rskip_ws_bounds(s, lo, i - 1);
    }
}

fn is_ws(c: char) -> (r: bool)
    ensures
        r == spec_is_ws(c),
{
    c == ' ' || c == '\t' || c == '\r' || c == '\n'
}

/// The authorization decision behind the API middleware: the header
/// value must carry the bearer scheme marker, and the token after it —
/// with surrounding whitespace ignored — must equal the configured
/// key. The header value is compared in constant time.
pub fn authorize_header(auth_value: &str, api_key: &str) -> (r: bool)
    ensures
        r == (spec_has_bearer_prefix(auth_value@) && spec_trimmed(auth_value@, 7) == api_key@),
{
    let n = auth_value.unicode_len();
    proof {
        reveal_strlit("Bearer ");
    }
    if n < 7 {
        return false;
    }
    let has_prefix = auth_value.get_char(0) == 'B' && auth_value.get_char(1) == 'e'
        && auth_value.get_char(2) == 'a' && auth_value.get_char(3) == 'r' && auth_value.get_char(
        4,
    ) == 'e' && auth_value.get_char(5) == 'r' && auth_value.get_char(6) == ' ';
    proof {
        if has_prefix {
            assert(auth_value@.subrange(0, 7) =~= "Bearer "@);
        } else {
            assert(auth_value@.subrange(0, 7)[0] == auth_value@[0]);
            assert(auth_value@.subrange(0, 7)[1] == auth_value@[1]);
            assert(auth_value@.subrange(0, 7)[2] == auth_value@[2]);
            assert(auth_value@.subrange(0, 7)[3] == auth_value@[3]);
            assert(auth_value@.subrange(0, 7)[4] == auth_value@[4]);
            assert(auth_value@.subrange(0, 7)[5] == auth_value@[5]);
            assert(auth_value@.subrange(0, 7)[6] == auth_value@[6]);
        }
    }
    if !has_prefix {
        return false;
    }

    let mut lo: usize = 7;
    while lo < n && is_ws(auth_value.get_char(lo))
        invariant
            7 <= lo <= n,
            n == auth_value@.len(),
            spec_skip_ws(auth_value@, 7) == spec_skip_ws(auth_value@, lo as int),
        decreases n - lo,
    {
        lo += 1;
    }
    proof {
        assert(spec_skip_ws(auth_value@, lo as int) == lo as int);
    }

    let mut hi: usize = n;
    while hi > lo && is_ws(auth_value.get_char(hi - 1))
        invariant
            lo <= hi <= n,
            n == auth_value@.len(),
            spec_rskip_ws(auth_value@, lo as int, n as int) == spec_rskip_ws(
                auth_value@,
                lo as int,
                hi as int,
            ),
        decreases hi,
    {
        hi -= 1;
    }
    proof {
        assert(spec_rskip_ws(auth_value@, lo as int, hi as int) == hi as int);
    }

    let token = auth_value.substring_char(lo, hi);
    constant_time_compare(token, api_key)
}

} // verus!
