//! Verified text helpers: decimal rendering of unsigned integers, and
//! string building used by the tag renderer.

use vstd::prelude::*;
use vstd::string::StrSliceExecFns;
use vstd::string::StringExecFns;
use vstd::string::StringSliceAdditionalSpecFns;
use vstd::utf8::encode_utf8;
use vstd::utf8::encode_utf8_decode_utf8;

verus! {

/// The character for a single decimal digit.
pub open spec fn digit_char(d: nat) -> char {
    if d == 0 {
        '0'
    } else if d == 1 {
        '1'
    } else if d == 2 {
        '2'
    } else if d == 3 {
        '3'
    } else if d == 4 {
        '4'
    } else if d == 5 {
        '5'
    } else if d == 6 {
        '6'
    } else if d == 7 {
        '7'
    } else if d == 8 {
        '8'
    } else {
        '9'
    }
}

/// The usual decimal numeral of `n`, most significant digit first,
/// without leading zeros (`0` itself is rendered as "0").
pub open spec fn dec_rep(n: nat) -> Seq<char>
    decreases n,
{
    if n < 10 {
        seq![digit_char(n)]
    } else {
        dec_rep(n / 10).push(digit_char(n % 10))
    }
}

/// A one-character string slice for the decimal digit `d`.
fn digit_str(d: u64) -> (r: &'static str)
    requires
        d < 10,
    ensures
        r@ == seq![digit_char(d as nat)],
{
    proof {
        reveal_strlit("0");
        reveal_strlit("1");
        reveal_strlit("2");
        reveal_strlit("3");
        reveal_strlit("4");
        reveal_strlit("5");
        reveal_strlit("6");
        reveal_strlit("7");
        reveal_strlit("8");
        reveal_strlit("9");
    }
    let r: &'static str = match d {
        0 => "0",
        1 => "1",
        2 => "2",
        3 => "3",
        4 => "4",
        5 => "5",
        6 => "6",
        7 => "7",
        8 => "8",
        _ => "9",
    };
    proof {
        assert(r@ =~= seq![digit_char(d as nat)]);
    }
    r
}

/// Appends the decimal numeral of `n` to `out`.
pub fn push_u64_decimal(out: &mut String, n: u64)
    ensures
        final(out)@ == old(out)@ + dec_rep(n as nat),
    decreases n,
{
    let ghost pre = out@;
    if n >= 10 {
        push_u64_decimal(out, n / 10);
    }
    out.append(digit_str(n % 10));
    proof {
        assert(out@ =~= pre + dec_rep(n as nat));
    }
}

/// Whether two string slices hold the same text.
pub fn str_eq(a: &str, b: &str) -> (r: bool)
    ensures
        r == (a@ == b@),
{
    let ab = a.as_bytes();
    let bb = b.as_bytes();
    if ab.len() != bb.len() {
        return false;
    }
    let mut i: usize = 0;
    while i < ab.len()
        invariant
            i <= ab@.len(),
            ab@.len() == bb@.len(),
            ab@ == encode_utf8(a@),
            bb@ == encode_utf8(b@),
            forall|j: int| 0 <= j < i ==> ab@[j] == bb@[j],
        decreases ab@.len() - i,
    {
        if ab[i] != bb[i] {
            return false;
        }
        i += 1;
    }
    proof {
        assert(ab@ =~= bb@);
        encode_utf8_decode_utf8(a@);
        encode_utf8_decode_utf8(b@);
    }
    true
}

/// The character with any ASCII upper-case letter folded to lower
/// case; every other character is kept as it is.
pub open spec fn spec_lower_char(c: char) -> char {
    if 65 <= c as u32 && c as u32 <= 90 {
        ((c as u32 + 32) as u8) as char
    } else {
        c
    }
}

/// The text with every ASCII upper-case letter folded to lower case.
pub open spec fn spec_ascii_lower(s: Seq<char>) -> Seq<char> {
    Seq::new(s.len(), |i| spec_lower_char(s[i]))
}

/// Folds one ASCII upper-case letter to lower case.
pub fn lower_char(c: char) -> (r: char)
    ensures
        r == spec_lower_char(c),
{
    let u = c as u32;
    if 65 <= u && u <= 90 {
        ((u + 32) as u8) as char
    } else {
        c
    }
}

/// The index where the file name within the path begins when scanning
/// from position `i`: just after the last path separator, or 0 when
/// there is none.
pub open spec fn spec_base_start(s: Seq<char>, i: int) -> int
    decreases i,
{
    if i <= 0 {
        0
    } else if s[i - 1] == '/' {
        i
    } else {
        spec_base_start(s, i - 1)
    }
}

/// The file-name part of a path: everything after the last separator.
pub open spec fn spec_basename(s: Seq<char>) -> Seq<char> {
    s.subrange(spec_base_start(s, s.len() as int), s.len() as int)
}

/// Returns the file-name part of a path: everything after the last
/// `/`, or the whole path when it holds none.
pub fn basename<'a>(path: &'a str) -> (r: &'a str)
    ensures
        r@ == spec_basename(path@),
{
    let n = path.unicode_len();
    let mut i = n;
    let mut start: usize = 0;
    loop
        invariant_except_break
            i <= n,
            n == path@.len(),
            start == 0,
            spec_base_start(path@, n as int) == spec_base_start(path@, i as int),
        ensures
            start <= n,
            n == path@.len(),
            start as int == spec_base_start(path@, n as int),
        decreases i,
    {
        if i == 0 {
            break;
        }
        if path.get_char(i - 1) == '/' {
            start = i;
            break;
        }
        i -= 1;
    }
    path.substring_char(start, n)
}

/// The index where the file-name extension begins when scanning from
/// position `i`: just after the last `.` of the file name, provided
/// that dot is neither the first character of the file name nor ahead
/// of the last separator; `-1` when the name has no extension.
pub open spec fn spec_ext_start(s: Seq<char>, i: int) -> int
    decreases i,
{
    if i <= 0 {
        -1
    } else if s[i - 1] == '/' {
        -1
    } else if s[i - 1] == '.' {
        if i - 1 > 0 && s[i - 2] != '/' {
            i
        } else {
            -1
        }
    } else {
        spec_ext_start(s, i - 1)
    }
}

/// The extension of the file name within the path, without its dot:
/// `None` when the name has no dot, or only a leading one.
pub open spec fn spec_ext(s: Seq<char>) -> Option<Seq<char>> {
    let e = spec_ext_start(s, s.len() as int);
    if e >= 0 {
        Some(s.subrange(e, s.len() as int))
    } else {
        None
    }
}

pub proof fn lemma_ext_start_bounds(s: Seq<char>, i: int)
    requires
        0 <= i <= s.len(),
    ensures
        spec_ext_start(s, i) == -1 || (1 <= spec_ext_start(s, i) <= i),
    decreases i,
{
    if i > 0 && s[i - 1] != '/' && s[i - 1] != '.' {
        lemma_ext_start_bounds(s, i - 1);
    }
}

/// Returns the extension of the file name within the path, without
/// its dot, when the name has one.
pub fn extension<'a>(path: &'a str) -> (r: Option<&'a str>)
    ensures
        match r {
            Some(e) => spec_ext(path@) == Some(e@),
            None => spec_ext(path@) is None,
        },
{
    let n = path.unicode_len();
    let mut i = n;
    loop
        invariant
            i <= n,
            n == path@.len(),
            spec_ext_start(path@, n as int) == spec_ext_start(path@, i as int),
        decreases i,
    {
        if i == 0 {
            return None;
        }
        let c = path.get_char(i - 1);
        if c == '/' {
            return None;
        }
        if c == '.' {
            if i - 1 > 0 && path.get_char(i - 2) != '/' {
                proof {
                    lemma_ext_start_bounds(path@, n as int);
                }
                return Some(path.substring_char(i, n));
            }
            return None;
        }
        i -= 1;
    }
}

/// The character for a single hexadecimal digit, lower case.
pub open spec fn hex_char(d: nat) -> char {
    if d < 10 {
        digit_char(d)
    } else if d == 10 {
        'a'
    } else if d == 11 {
        'b'
    } else if d == 12 {
        'c'
    } else if d == 13 {
        'd'
    } else if d == 14 {
        'e'
    } else {
        'f'
    }
}

/// The `i`-th hexadecimal digit of `v`, most significant first, out
/// of the 32 digits of a 128-bit value.
pub open spec fn spec_nibble(v: u128, i: int) -> nat {
    ((v >> (((31 - i) * 4) as u128)) & 0xf) as nat
}

/// All 32 hexadecimal digits of a 128-bit value, most significant
/// first.
pub open spec fn spec_hex32(v: u128) -> Seq<char> {
    Seq::new(32, |i| hex_char(spec_nibble(v, i)))
}

/// A one-character string slice for the hexadecimal digit `d`.
fn hex_digit_str(d: u128) -> (r: &'static str)
    requires
        d < 16,
    ensures
        r@ == seq![hex_char(d as nat)],
{
    proof {
        reveal_strlit("a");
        reveal_strlit("b");
        reveal_strlit("c");
        reveal_strlit("d");
        reveal_strlit("e");
        reveal_strlit("f");
    }
    if d < 10 {
        digit_str(d as u64)
    } else {
        let r: &'static str = match d {
            10 => "a",
            11 => "b",
            12 => "c",
            13 => "d",
            14 => "e",
            _ => "f",
        };
        proof {
            assert(r@ =~= seq![hex_char(d as nat)]);
        }
        r
    }
}

/// Appends the 32-digit hexadecimal rendering of `v` to `out`.
pub fn push_hex32(out: &mut String, v: u128)
    ensures
        final(out)@ == old(out)@ + spec_hex32(v),
{
    let ghost pre = out@;
    let mut i: usize = 0;
    while i < 32
        invariant
            i <= 32,
            out@ == pre + Seq::new(i as nat, |j| hex_char(spec_nibble(v, j))),
        decreases 32 - i,
    {
        let sh: u128 = ((31 - i) as u128) * 4;
        let d: u128 = (v >> sh) & 0xf;
        proof {
            assert((v >> sh) & 0xf < 16) by (bit_vector);
            assert(sh == ((31 - i as int) * 4) as u128);
            assert(d == spec_nibble(v, i as int));
        }
        out.append(hex_digit_str(d));
        i += 1;
        proof {
            assert(out@ =~= pre + Seq::new(i as nat, |j| hex_char(spec_nibble(v, j))));
        }
    }
    proof {
        assert(out@ =~= pre + spec_hex32(v));
    }
}

} // verus!
