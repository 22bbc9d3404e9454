//! UTF-16 encoding and decoding of text, the string format the native
//! engine's entry points take.

use vstd::prelude::*;
use vstd::arithmetic::div_mod::lemma_fundamental_div_mod;
use vstd::utf8::char_is_scalar;
use vstd::utf8::char_u32_cast;
use vstd::utf8::is_scalar;

verus! {

/// Whether a code unit is a high (leading) surrogate.
pub open spec fn is_high_surrogate(u: u16) -> bool {
    0xD800 <= u <= 0xDBFF
}

/// Whether a code unit is a low (trailing) surrogate.
pub open spec fn is_low_surrogate(u: u16) -> bool {
    0xDC00 <= u <= 0xDFFF
}

/// The Unicode scalar value encoded by a surrogate pair.
pub open spec fn spec_scalar_of_pair(hi: u16, lo: u16) -> int {
    0x10000 + (hi - 0xD800) * 0x400 + (lo - 0xDC00)
}

/// The UTF-16 code units of one character: a single unit for scalar values
/// below 0x10000, else a surrogate pair.
pub open spec fn spec_encode_char(c: char) -> Seq<u16> {
    let v = c as u32;
    if v < 0x10000 {
        seq![v as u16]
    } else {
        seq![(0xD800 + (v - 0x10000) / 0x400) as u16, (0xDC00 + (v - 0x10000) % 0x400) as u16]
    }
}

/// The UTF-16 encoding of a character sequence.
pub open spec fn spec_encode(s: Seq<char>) -> Seq<u16>
    decreases s.len(),
{
    if s.len() == 0 {
        Seq::empty()
    } else {
        spec_encode_char(s[0]) + spec_encode(s.drop_first())
    }
}

/// Whether a code-unit sequence is well-formed UTF-16: every high surrogate
/// is followed by a low surrogate, and no low surrogate stands alone.
pub open spec fn spec_valid(u: Seq<u16>) -> bool
    decreases u.len(),
{
    if u.len() == 0 {
        true
    } else if is_high_surrogate(u[0]) {
        u.len() >= 2 && is_low_surrogate(u[1]) && spec_valid(u.skip(2))
    } else {
        !is_low_surrogate(u[0]) && spec_valid(u.skip(1))
    }
}

/// The characters a code-unit sequence decodes to, assuming it is
/// well-formed.
pub open spec fn spec_decode(u: Seq<u16>) -> Seq<char>
    recommends
        spec_valid(u),
    decreases u.len(),
{
    if u.len() == 0 {
        seq![]
    } else if is_high_surrogate(u[0]) {
        if u.len() >= 2 {
            seq![(spec_scalar_of_pair(u[0], u[1]) as u32) as char] + spec_decode(u.skip(2))
        } else {
            seq![]
        }
    } else {
        seq![(u[0] as u32) as char] + spec_decode(u.skip(1))
    }
}

/// Encoding appends per character: the encoding of `s` with `c` pushed is
/// the encoding of `s` followed by the units of `c`.
pub proof fn lemma_encode_push(s: Seq<char>, c: char)
    ensures
        spec_encode(s.push(c)) == spec_encode(s) + spec_encode_char(c),
    decreases s.len(),
{
    if s.len() == 0 {
        assert(s.push(c)[0] == c);
        assert(s.push(c).drop_first() =~= Seq::<char>::empty());
        assert(spec_encode(Seq::<char>::empty()) == Seq::<u16>::empty());
        assert(spec_encode(s.push(c)) == spec_encode_char(c) + spec_encode(s.push(c).drop_first()));
        assert(spec_encode(s.push(c)) =~= spec_encode(s) + spec_encode_char(c));
    } else {
        assert(s.push(c)[0] == s[0]);
        assert(s.push(c).drop_first() =~= s.drop_first().push(c));
        lemma_encode_push(s.drop_first(), c);
        assert(spec_encode(s.push(c)) =~= spec_encode(s) + spec_encode_char(c));
    }
}

/// Encode a string into its UTF-16 code units.
pub fn encode_utf16_str(s: &str) -> (r: Vec<u16>)
    ensures
        r@ == spec_encode(s@),
{
    let len = s.unicode_len();
    let mut r: Vec<u16> = Vec::new();
    let mut i: usize = 0;
    while i < len
        invariant
            i <= len,
            len == s@.len(),
            r@ == spec_encode(s@.take(i as int)),
        decreases len - i,
    {
        let c = s.get_char(i);
        proof {
            char_is_scalar(c);
        }
        let v = c as u32;
        if v < 0x10000 {
            r.push(v as u16);
        } else {
            let w = v - 0x10000;
            assert(w / 0x400 <= 0x3FF && w % 0x400 <= 0x3FF) by (nonlinear_arith)
                requires
                    w <= 0xFFFFF,
            ;
            r.push((0xD800 + w / 0x400) as u16);
            r.push((0xDC00 + w % 0x400) as u16);
        }
        proof {
            assert(s@.take(i as int).push(s@[i as int]) =~= s@.take(i + 1));
            lemma_encode_push(s@.take(i as int), s@[i as int]);
        }
        i += 1;
    }
    proof {
        assert(s@.take(len as int) =~= s@);
    }
    r
}

/// Encode a string into its UTF-16 code units with a terminating NUL, the
/// form the native engine's text parameters take.
pub fn to_wide(s: &str) -> (r: Vec<u16>)
    ensures
        r@ == spec_encode(s@).push(0u16),
{
    let mut r = encode_utf16_str(s);
    r.push(0);
    r
}

/// Relies on char::from_u32: the conversion succeeds exactly on Unicode
/// scalar values (codes up to 0x10FFFF that are not surrogates) and yields
/// the character with that code.
pub assume_specification[ char::from_u32 ](v: u32) -> (r: Option<char>)
    ensures
        r is Some <==> is_scalar(v),
        r is Some ==> r->0 as u32 == v,
;

/// Decode UTF-16 code units into characters; `None` exactly when the
/// sequence is not well-formed.
pub fn decode_utf16(units: &[u16]) -> (r: Option<Vec<char>>)
    ensures
        r is Some <==> spec_valid(units@),
        r is Some ==> r->0@ == spec_decode(units@),
{
    let len = units.len();
    let mut out: Vec<char> = Vec::new();
    let mut i: usize = 0;
    proof {
        assert(units@.skip(0) =~= units@);
    }
    while i < len
        invariant
            i <= len,
            len == units@.len(),
            spec_valid(units@) <==> spec_valid(units@.skip(i as int)),
            spec_valid(units@.skip(i as int)) ==> spec_decode(units@) =~= out@ + spec_decode(
                units@.skip(i as int),
            ),
        decreases len - i,
    {
        let u = units[i];
        if 0xD800 <= u && u <= 0xDBFF {
            if i + 1 >= len {
                proof {
                    assert(!spec_valid(units@.skip(i as int)));
                }
                return None;
            }
            let lo = units[i + 1];
            if !(0xDC00 <= lo && lo <= 0xDFFF) {
                proof {
                    assert(!spec_valid(units@.skip(i as int)));
                }
                return None;
            }
            let scalar: u32 = 0x10000 + (u as u32 - 0xD800) * 0x400 + (lo as u32 - 0xDC00);
            assert(0x10000 <= scalar <= 0x10FFFF && scalar == spec_scalar_of_pair(u, lo))
                by (nonlinear_arith)
                requires
                    0xD800 <= u <= 0xDBFF,
                    0xDC00 <= lo <= 0xDFFF,
                    scalar == 0x10000 + (u as u32 - 0xD800) * 0x400 + (lo as u32 - 0xDC00),
            ;
            match char::from_u32(scalar) {
                Some(c) => {
                    out.push(c);
                    proof {
                        char_u32_cast(c, scalar);
                        assert(units@.skip(i as int).skip(2) =~= units@.skip(i + 2));
                    }
                    i += 2;
                },
                None => {
                    // unreachable: a value in 0x10000..=0x10FFFF is a scalar
                    proof {
                        assert(is_scalar(scalar));
                    }
                    return None;
                },
            }
        } else if 0xDC00 <= u && u <= 0xDFFF {
            proof {
                assert(!spec_valid(units@.skip(i as int)));
            }
            return None;
        } else {
            match char::from_u32(u as u32) {
                Some(c) => {
                    out.push(c);
                    proof {
                        char_u32_cast(c, u as u32);
                        assert(units@.skip(i as int).skip(1) =~= units@.skip(i + 1));
                    }
                    i += 1;
                },
                None => {
                    // unreachable: a non-surrogate 16-bit value is a scalar
                    proof {
                        assert(is_scalar(u as u32));
                    }
                    return None;
                },
            }
        }
    }
    proof {
        assert(units@.skip(len as int) =~= Seq::<u16>::empty());
    }
    Some(out)
}

/// Relies on String's FromIterator over char: collecting characters yields
/// the string holding exactly those characters.
#[verifier::external_body]
fn string_from_chars(chars: &Vec<char>) -> (r: String)
    ensures
        r@ == chars@,
{
    chars.iter().collect()
}

/// Decode UTF-16 code units into a string; `None` exactly when the sequence
/// is not well-formed.
pub fn decode_utf16_string(units: &[u16]) -> (r: Option<String>)
    ensures
        r is Some <==> spec_valid(units@),
        r is Some ==> r->0@ == spec_decode(units@),
{
    match decode_utf16(units) {
        Some(chars) => Some(string_from_chars(&chars)),
        None => None,
    }
}

/// UTF-16 round trip: the encoding of any character sequence is well-formed,
/// and decoding it yields the original characters.
pub proof fn lemma_utf16_roundtrip(s: Seq<char>)
    ensures
        spec_valid(spec_encode(s)),
        spec_decode(spec_encode(s)) == s,
    decreases s.len(),
{
    if s.len() == 0 {
        assert(spec_decode(spec_encode(s)) =~= s);
    } else {
        let c = s[0];
        let rest = s.drop_first();
        char_is_scalar(c);
        let v = c as u32;
        lemma_utf16_roundtrip(rest);
        if v < 0x10000 {
            char_u32_cast(c, v);
            assert(spec_encode(s).skip(1) =~= spec_encode(rest));
            assert(spec_decode(spec_encode(s)) =~= s);
        } else {
            let w = v - 0x10000;
            let hi = (0xD800 + w / 0x400) as u16;
            let lo = (0xDC00 + w % 0x400) as u16;
            assert(w / 0x400 <= 0x3FF && w % 0x400 <= 0x3FF) by (nonlinear_arith)
                requires
                    w <= 0xFFFFF,
            ;
            lemma_fundamental_div_mod(w, 0x400);
            assert(spec_scalar_of_pair(hi, lo) == v);
            char_u32_cast(c, v);
            assert(spec_encode(s).skip(2) =~= spec_encode(rest));
            assert(spec_decode(spec_encode(s)) =~= s);
        }
    }
}

} // verus!
