//! Decoding of URL path segments: percent-escapes first, then UTF-8.
//!
//! A segment arrives as raw bytes.  Every well-formed `%XX` escape is replaced
//! by the byte `XX`; anything else, including a `%` that does not begin a
//! well-formed escape, passes through unchanged.  The decoded bytes must then
//! form valid UTF-8 text, or the segment is rejected as undecodable.

use vstd::prelude::*;
use vstd::utf8::{decode_utf8, valid_utf8};

verus! {

/// The byte `'%'`, which opens an escape.
pub const PERCENT: u8 = 0x25;

/// Whether `b` is an ASCII hexadecimal digit.
pub open spec fn is_hex_digit(b: u8) -> bool {
    (0x30 <= b && b <= 0x39) || (0x41 <= b && b <= 0x46) || (0x61 <= b && b <= 0x66)
}

/// The numeric value of the hexadecimal digit `b`.
pub open spec fn hex_digit_value(b: u8) -> u8
    recommends
        is_hex_digit(b),
{
    if 0x30 <= b && b <= 0x39 {
        (b - 0x30) as u8
    } else if 0x41 <= b && b <= 0x46 {
        (b - 0x41 + 10) as u8
    } else {
        (b - 0x61 + 10) as u8
    }
}

/// Whether `s` opens with a well-formed escape: `%` and two hexadecimal
/// digits.
pub open spec fn starts_with_escape(s: Seq<u8>) -> bool {
    s.len() >= 3 && s[0] == PERCENT && is_hex_digit(s[1]) && is_hex_digit(s[2])
}

/// The percent-decoded form of `s`: each well-formed `%XX` escape becomes the
/// byte `XX`, every other byte is kept as it is.
pub open spec fn percent_decoded(s: Seq<u8>) -> Seq<u8>
    decreases s.len(),
{
    if s.len() == 0 {
        Seq::empty()
    } else if starts_with_escape(s) {
        seq![(hex_digit_value(s[1]) * 16 + hex_digit_value(s[2])) as u8] + percent_decoded(
            s.skip(3),
        )
    } else {
        seq![s[0]] + percent_decoded(s.skip(1))
    }
}

fn is_hex(b: u8) -> (r: bool)
    ensures
        r == is_hex_digit(b),
{
    (0x30 <= b && b <= 0x39) || (0x41 <= b && b <= 0x46) || (0x61 <= b && b <= 0x66)
}

fn hex_value(b: u8) -> (r: u8)
    requires
        is_hex_digit(b),
    ensures
        r == hex_digit_value(b),
{
    if 0x30 <= b && b <= 0x39 {
        b - 0x30
    } else if 0x41 <= b && b <= 0x46 {
        b - 0x41 + 10
    } else {
        b - 0x61 + 10
    }
}

/// Replace every well-formed `%XX` escape of `s` by the byte `XX`.
pub fn percent_decode(s: &[u8]) -> (r: Vec<u8>)
    ensures
        r@ == percent_decoded(s@),
{
    let mut out: Vec<u8> = Vec::new();
    let mut i: usize = 0;
    proof {
        assert(s@.skip(0) =~= s@);
        assert(out@ + percent_decoded(s@) =~= percent_decoded(s@));
    }
    while i < s.len()
        invariant
            i <= s.len(),
            percent_decoded(s@) == out@ + percent_decoded(s@.skip(i as int)),
        decreases s.len() - i,
    {
        let ghost tail = s@.skip(i as int);
        if s[i] == PERCENT && s.len() - i >= 3 && is_hex(s[i + 1]) && is_hex(s[i + 2]) {
            let v = hex_value(s[i + 1]) * 16 + hex_value(s[i + 2]);
            out.push(v);
            proof {
                assert(tail[0] == s@[i as int]);
                assert(tail[1] == s@[i as int + 1]);
                assert(tail[2] == s@[i as int + 2]);
                assert(starts_with_escape(tail));
                assert(tail.skip(3) =~= s@.skip(i as int + 3));
                assert(percent_decoded(s@) =~= out@ + percent_decoded(s@.skip(i as int + 3)));
            }
            i = i + 3;
        } else {
            let b = s[i];
            out.push(b);
            proof {
                assert(tail[0] == s@[i as int]);
                assert(!starts_with_escape(tail)) by {
                    if tail.len() >= 3 {
                        assert(tail[1] == s@[i as int + 1]);
                        assert(tail[2] == s@[i as int + 2]);
                    }
                }
                assert(tail.skip(1) =~= s@.skip(i as int + 1));
                assert(percent_decoded(s@) =~= out@ + percent_decoded(s@.skip(i as int + 1)));
            }
            i = i + 1;
        }
    }
    proof {
        assert(s@.skip(s@.len() as int) =~= Seq::<u8>::empty());
    }
    out
}

/// Relies on `String::from_utf8`: it returns the text decoded from `bytes`
/// exactly when `bytes` is valid UTF-8, and otherwise an error, from which the
/// original bytes are recovered unchanged.
#[verifier::external_body]
pub(crate) fn string_from_utf8(bytes: Vec<u8>) -> (r: Result<String, Vec<u8>>)
    ensures
        (match r {
            Ok(s) => valid_utf8(bytes@) && s@ == decode_utf8(bytes@),
            Err(b) => !valid_utf8(bytes@) && b@ == bytes@,
        }),
{
    match String::from_utf8(bytes) {
        Ok(s) => Ok(s),
        Err(e) => Err(e.into_bytes()),
    }
}

} // verus!
