//! The validated domain primitives: a display name and its numeric
//! discriminator.
//!
//! Both types are constructed only through validating factories (plus a
//! narrowly scoped known-safe factory for literal internal constants), so a
//! value of either type always satisfies its invariant.

use crate::encoding::{percent_decode, percent_decoded, string_from_utf8};
use vstd::prelude::*;
use vstd::slice::slice_to_vec;
use vstd::string::StrSliceExecFns;
use vstd::utf8::{decode_utf8, valid_utf8};

verus! {

/// Whether `c` has the Unicode `White_Space` property, the set of characters
/// that `str::trim` strips from either end of a text.
pub open spec fn is_whitespace_char(c: char) -> bool {
    let u = c as u32;
    ||| u == 0x20
    ||| (0x9 <= u && u <= 0xD)
    ||| u == 0x85
    ||| u == 0xA0
    ||| u == 0x1680
    ||| (0x2000 <= u && u <= 0x200A)
    ||| u == 0x2028
    ||| u == 0x2029
    ||| u == 0x202F
    ||| u == 0x205F
    ||| u == 0x3000
}

fn is_whitespace(c: char) -> (r: bool)
    ensures
        r == is_whitespace_char(c),
{
    let u = c as u32;
    u == 0x20 || (0x9 <= u && u <= 0xD) || u == 0x85 || u == 0xA0 || u == 0x1680 || (0x2000 <= u
        && u <= 0x200A) || u == 0x2028 || u == 0x2029 || u == 0x202F || u == 0x205F || u == 0x3000
}

/// A valid display name: one to sixteen characters (characters, not bytes),
/// neither starting nor ending with whitespace.
pub open spec fn valid_name_chars(cs: Seq<char>) -> bool {
    &&& 1 <= cs.len() <= 16
    &&& !is_whitespace_char(cs[0])
    &&& !is_whitespace_char(cs[cs.len() - 1])
}

/// What `UserName::new` returns on a text: each rejection rule, applied in
/// order, with the offending text retained where the rule keeps it.
pub open spec fn name_validation_post(cs: Seq<char>, r: Result<UserName, UserNameError>) -> bool {
    &&& (cs.len() == 0 ==> r matches Err(UserNameError::Empty))
    &&& (cs.len() > 16 ==> (r matches Err(UserNameError::TooLarge(t)) && t@ == cs))
    &&& ((1 <= cs.len() <= 16 && !valid_name_chars(cs)) ==> (r matches Err(
        UserNameError::TrailingWhiteSpace(t),
    ) && t@ == cs))
    &&& (valid_name_chars(cs) ==> (r matches Ok(u) && u@ == cs))
}

/// A validated display name.  Owns its text; the text always satisfies
/// [`valid_name_chars`].
pub struct UserName {
    value: String,
}

impl View for UserName {
    type V = Seq<char>;

    closed spec fn view(&self) -> Seq<char> {
        self.value@
    }
}

impl UserName {
    #[verifier::type_invariant]
    spec fn inv(self) -> bool {
        valid_name_chars(self.view())
    }

    /// Validate `value` as a display name: non-empty, at most sixteen
    /// characters, no leading or trailing whitespace.
    pub fn new(value: String) -> (r: Result<UserName, UserNameError>)
        ensures
            name_validation_post(value@, r),
    {
        let n = value.as_str().unicode_len();
        if n == 0 {
            Err(UserNameError::Empty)
        } else if n > 16 {
            Err(UserNameError::TooLarge(value))
        } else if is_whitespace(value.as_str().get_char(0)) || is_whitespace(
            value.as_str().get_char(n - 1),
        ) {
            Err(UserNameError::TrailingWhiteSpace(value))
        } else {
            Ok(UserName { value })
        }
    }

    /// Wrap a text already known to be a valid display name.  Strictly for
    /// literal, compile-time-safe call sites; untrusted input must go through
    /// [`UserName::new`].
    pub fn new_unchecked(value: String) -> (r: UserName)
        requires
            valid_name_chars(value@),
        ensures
            r@ == value@,
    {
        UserName { value }
    }

    /// Decode a raw path segment and validate it as a display name: the
    /// segment is percent-decoded, the decoded bytes must form UTF-8 text,
    /// and the text must pass [`UserName::new`]'s rules.
    pub fn from_param(param: &[u8]) -> (r: Result<UserName, UserNameError>)
        ensures
            ({
                let d = percent_decoded(param@);
                &&& (!valid_utf8(d) ==> (r matches Err(UserNameError::InvalidEncoding {
                    param: p,
                }) && p@ == param@))
                &&& (valid_utf8(d) ==> name_validation_post(decode_utf8(d), r))
            }),
    {
        let decoded = percent_decode(param);
        match string_from_utf8(decoded) {
            Ok(s) => UserName::new(s),
            Err(_) => Err(UserNameError::InvalidEncoding { param: slice_to_vec(param) }),
        }
    }

    /// The name's text, unchanged from what validation accepted.
    pub fn as_str(&self) -> (r: &str)
        ensures
            r@ == self@,
            valid_name_chars(self@),
    {
        proof {
            use_type_invariant(self);
        }
        self.value.as_str()
    }
}

/// Why a display name was rejected.
#[derive(Debug)]
pub enum UserNameError {
    /// The raw path segment did not percent-decode to UTF-8 text; the raw
    /// segment is retained.
    InvalidEncoding { param: Vec<u8> },
    /// The text was empty.
    Empty,
    /// The text had more than sixteen characters; it is retained.
    TooLarge(String),
    /// The text began or ended with whitespace; it is retained.
    TrailingWhiteSpace(String),
}

/// Law: any text of one to sixteen characters with no leading or trailing
/// whitespace is a valid name, so by [`name_validation_post`] the validator
/// accepts it and hands back a value holding exactly that text, which
/// [`UserName::as_str`] returns unchanged: the round trip is the identity.
pub proof fn lemma_name_round_trip(cs: Seq<char>)
    requires
        1 <= cs.len() <= 16,
        !is_whitespace_char(cs[0]),
        !is_whitespace_char(cs[cs.len() - 1]),
    ensures
        valid_name_chars(cs),
{
}

/// The largest value a discriminator may hold.  The invariant is the closed
/// range `[0, 9999]`: the boundary value 9999 is an ordinary, valid
/// discriminator, with no reserved sentinel.
pub const MAX_DISCRIMINATOR: u16 = 9999;

/// Whether `c` is an ASCII decimal digit.
pub open spec fn is_digit_char(c: char) -> bool {
    48 <= c as u32 && c as u32 <= 57
}

/// The numeric value of the decimal digit `c`.
pub open spec fn digit_value(c: char) -> int
    recommends
        is_digit_char(c),
{
    c as u32 - 48
}

/// Whether every character of `cs` is an ASCII decimal digit.
pub open spec fn all_digits(cs: Seq<char>) -> bool {
    forall|i: int| 0 <= i < cs.len() ==> is_digit_char(#[trigger] cs[i])
}

/// The number written by the digit string `cs` in base ten.
pub open spec fn digits_value(cs: Seq<char>) -> int
    recommends
        all_digits(cs),
    decreases cs.len(),
{
    if cs.len() == 0 {
        0
    } else {
        digits_value(cs.drop_last()) * 10 + digit_value(cs.last())
    }
}

/// What parsing a text as a base-ten unsigned integer yields: the written
/// number if the text is a non-empty digit string whose value fits in
/// sixteen bits, and nothing otherwise.
pub open spec fn parse_u16_spec(cs: Seq<char>) -> Option<u16> {
    if cs.len() == 0 || !all_digits(cs) {
        Option::None
    } else if digits_value(cs) > 65535 {
        Option::None
    } else {
        Option::Some(digits_value(cs) as u16)
    }
}

/// Parse a text as a base-ten unsigned sixteen-bit integer.
fn parse_u16(s: &str) -> (r: Option<u16>)
    ensures
        r == parse_u16_spec(s@),
{
    let n = s.unicode_len();
    if n == 0 {
        return None;
    }
    // `acc` follows the value of the digits read so far, saturating at 65536
    // the moment that value can no longer fit in sixteen bits.
    let mut acc: u32 = 0;
    let mut i: usize = 0;
    proof {
        assert(s@.take(0) =~= Seq::<char>::empty());
    }
    while i < n
        invariant
            n == s@.len(),
            i <= n,
            forall|j: int| 0 <= j < i ==> is_digit_char(#[trigger] s@[j]),
            if digits_value(s@.take(i as int)) <= 65535 {
                acc == digits_value(s@.take(i as int))
            } else {
                acc == 65536
            },
        decreases n - i,
    {
        let c = s.get_char(i);
        let u = c as u32;
        if u < 48 || u > 57 {
            proof {
                assert(!is_digit_char(s@[i as int]));
            }
            return None;
        }
        let d = u - 48;
        proof {
            let prefix = s@.take(i as int);
            let prefix1 = s@.take(i as int + 1);
            assert(prefix1.drop_last() =~= prefix);
            assert(prefix1.last() == s@[i as int]);
            assert(digits_value(prefix1) == digits_value(prefix) * 10 + digit_value(s@[i as int]));
        }
        if acc <= 65535 {
            let next = acc * 10 + d;
            acc = if next > 65535 {
                65536
            } else {
                next
            };
        }
        i = i + 1;
    }
    proof {
        assert(s@.take(n as int) =~= s@);
        assert(all_digits(s@));
    }
    if acc <= 65535 {
        Some(acc as u16)
    } else {
        None
    }
}

/// A validated discriminator: a four-digit numeric tag.  The held value is
/// always in the closed range `[0, MAX_DISCRIMINATOR]`.
pub struct Discriminator {
    value: u16,
}

impl View for Discriminator {
    type V = u16;

    closed spec fn view(&self) -> u16 {
        self.value
    }
}

impl Discriminator {
    #[verifier::type_invariant]
    spec fn inv(self) -> bool {
        self.value <= MAX_DISCRIMINATOR
    }

    /// Validate `value` as a discriminator: it must lie in
    /// `[0, MAX_DISCRIMINATOR]`.
    pub fn new(value: u16) -> (r: Option<Discriminator>)
        ensures
            value <= MAX_DISCRIMINATOR ==> (r matches Some(d) && d@ == value),
            value > MAX_DISCRIMINATOR ==> r is None,
    {
        if value <= MAX_DISCRIMINATOR {
            Some(Discriminator { value })
        } else {
            None
        }
    }

    /// Wrap a value already known to be in range.  Strictly for literal,
    /// compile-time-safe call sites, such as the implicit default 0 used when
    /// a request omits the discriminator segment.
    pub fn new_unchecked(value: u16) -> (r: Discriminator)
        requires
            value <= MAX_DISCRIMINATOR,
        ensures
            r@ == value,
    {
        Discriminator { value }
    }

    /// Decode a raw path segment and validate it as a discriminator: the
    /// segment is percent-decoded, the decoded bytes must form UTF-8 text,
    /// the text is parsed as a base-ten unsigned integer, and the parsed
    /// value is range-checked into `[0, MAX_DISCRIMINATOR]`.
    pub fn from_param(param: &[u8]) -> (r: Result<Discriminator, DiscriminatorError>)
        ensures
            ({
                let d = percent_decoded(param@);
                &&& (!valid_utf8(d) ==> (r matches Err(DiscriminatorError::InvalidEncoding {
                    param: p,
                }) && p@ == param@))
                &&& (valid_utf8(d) ==> discriminator_validation_post(decode_utf8(d), r))
            }),
    {
        let decoded = percent_decode(param);
        match string_from_utf8(decoded) {
            Ok(s) => match parse_u16(s.as_str()) {
                Some(n) => match Discriminator::new(n) {
                    Some(disc) => Ok(disc),
                    None => Err(DiscriminatorError::OutOfRange(n)),
                },
                None => Err(DiscriminatorError::InvalidNumber { value: s }),
            },
            Err(_) => Err(DiscriminatorError::InvalidEncoding { param: slice_to_vec(param) }),
        }
    }

    /// The held value, unchanged; always in `[0, MAX_DISCRIMINATOR]`.
    pub fn value(&self) -> (r: u16)
        ensures
            r == self@,
            r <= MAX_DISCRIMINATOR,
    {
        proof {
            use_type_invariant(self);
        }
        self.value
    }
}

/// What discriminator validation returns on a decoded text: a parse failure
/// retains the text, an out-of-range value is reported with the parsed value,
/// and an in-range value is accepted as it is.
pub open spec fn discriminator_validation_post(
    cs: Seq<char>,
    r: Result<Discriminator, DiscriminatorError>,
) -> bool {
    match parse_u16_spec(cs) {
        Option::None => (r matches Err(DiscriminatorError::InvalidNumber { value }) && value@
            == cs),
        Option::Some(n) => if n <= MAX_DISCRIMINATOR {
            r matches Ok(d) && d@ == n
        } else {
            r matches Err(DiscriminatorError::OutOfRange(m)) && m == n
        },
    }
}

/// Why a discriminator was rejected.
#[derive(Debug)]
pub enum DiscriminatorError {
    /// The raw path segment did not percent-decode to UTF-8 text; the raw
    /// segment is retained.
    InvalidEncoding { param: Vec<u8> },
    /// The decoded text was not a base-ten unsigned integer; it is retained.
    InvalidNumber { value: String },
    /// The parsed value lay outside `[0, MAX_DISCRIMINATOR]`; it is retained.
    OutOfRange(u16),
}

} // verus!
