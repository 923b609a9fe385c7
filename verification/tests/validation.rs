use user_lookup::data::primitives::{Discriminator, DiscriminatorError, UserName, UserNameError};

#[test]
fn name_round_trip_plain() {
    let name = UserName::new("bob".to_string()).unwrap();
    assert_eq!(name.as_str(), "bob");
}

#[test]
fn name_round_trip_single_char() {
    let name = UserName::new("a".to_string()).unwrap();
    assert_eq!(name.as_str(), "a");
}

#[test]
fn name_round_trip_sixteen_chars() {
    let text = "abcdefghijklmnop";
    assert_eq!(text.chars().count(), 16);
    let name = UserName::new(text.to_string()).unwrap();
    assert_eq!(name.as_str(), text);
}

#[test]
fn name_round_trip_inner_whitespace() {
    let name = UserName::new("bob the cat".to_string()).unwrap();
    assert_eq!(name.as_str(), "bob the cat");
}

#[test]
fn name_length_counts_chars_not_bytes() {
    // Sixteen characters, thirty-two bytes: accepted, since the limit is
    // measured in characters.
    let text = "\u{e9}".repeat(16);
    assert_eq!(text.chars().count(), 16);
    assert_eq!(text.len(), 32);
    let name = UserName::new(text.clone()).unwrap();
    assert_eq!(name.as_str(), text);
}

#[test]
fn name_empty_fails() {
    assert!(matches!(
        UserName::new(String::new()),
        Err(UserNameError::Empty)
    ));
}

#[test]
fn name_too_large_retains_text() {
    let text = "abcdefghijklmnopq";
    assert_eq!(text.chars().count(), 17);
    match UserName::new(text.to_string()) {
        Err(UserNameError::TooLarge(t)) => assert_eq!(t, text),
        _ => panic!("seventeen characters must be rejected as too large"),
    }
}

#[test]
fn name_leading_whitespace_fails() {
    match UserName::new(" bob".to_string()) {
        Err(UserNameError::TrailingWhiteSpace(t)) => assert_eq!(t, " bob"),
        _ => panic!("a leading space must be rejected"),
    }
}

#[test]
fn name_trailing_whitespace_fails() {
    match UserName::new("bob ".to_string()) {
        Err(UserNameError::TrailingWhiteSpace(t)) => assert_eq!(t, "bob "),
        _ => panic!("a trailing space must be rejected"),
    }
}

#[test]
fn name_plain_succeeds_where_padded_fails() {
    assert!(UserName::new("bob".to_string()).is_ok());
}

#[test]
fn name_unicode_trailing_whitespace_fails() {
    // U+3000 ideographic space has the White_Space property.
    assert!(matches!(
        UserName::new("bob\u{3000}".to_string()),
        Err(UserNameError::TrailingWhiteSpace(_))
    ));
}

#[test]
fn name_new_unchecked_passes_through() {
    let name = UserName::new_unchecked("fallback".to_string());
    assert_eq!(name.as_str(), "fallback");
}

#[test]
fn name_segment_percent_decodes() {
    let name = UserName::from_param(b"bob%20cat").unwrap();
    assert_eq!(name.as_str(), "bob cat");
}

#[test]
fn name_segment_multibyte_percent_decodes() {
    // Fails if the byte-to-text step handed its input back unchanged.
    let name = UserName::from_param(b"caf%C3%A9").unwrap();
    assert_eq!(name.as_str(), "caf\u{e9}");
}

#[test]
fn name_segment_decoded_whitespace_fails() {
    assert!(matches!(
        UserName::from_param(b"%20bob"),
        Err(UserNameError::TrailingWhiteSpace(_))
    ));
}

#[test]
fn name_segment_invalid_utf8_fails() {
    match UserName::from_param(b"%FF") {
        Err(UserNameError::InvalidEncoding { param }) => assert_eq!(param, b"%FF".to_vec()),
        _ => panic!("bytes that are not UTF-8 must be rejected as undecodable"),
    }
}

#[test]
fn name_segment_malformed_escape_passes_through() {
    // A `%` that does not open a well-formed escape is kept as it is.
    let name = UserName::from_param(b"a%zz").unwrap();
    assert_eq!(name.as_str(), "a%zz");
}

#[test]
fn discriminator_42_succeeds() {
    let disc = Discriminator::from_param(b"42").unwrap();
    assert_eq!(disc.value(), 42);
}

#[test]
fn discriminator_negative_fails_as_number() {
    match Discriminator::from_param(b"-1") {
        Err(DiscriminatorError::InvalidNumber { value }) => assert_eq!(value, "-1"),
        _ => panic!("a negative text must fail as a malformed number"),
    }
}

#[test]
fn discriminator_alphabetic_fails_as_number() {
    assert!(matches!(
        Discriminator::from_param(b"abc"),
        Err(DiscriminatorError::InvalidNumber { .. })
    ));
}

#[test]
fn discriminator_empty_fails_as_number() {
    assert!(matches!(
        Discriminator::from_param(b""),
        Err(DiscriminatorError::InvalidNumber { .. })
    ));
}

#[test]
fn discriminator_plus_sign_fails_as_number() {
    // The parser takes plain digit strings only.
    assert!(matches!(
        Discriminator::from_param(b"%2B42"),
        Err(DiscriminatorError::InvalidNumber { .. })
    ));
}

#[test]
fn discriminator_10000_fails_out_of_range() {
    match Discriminator::from_param(b"10000") {
        Err(DiscriminatorError::OutOfRange(v)) => assert_eq!(v, 10000),
        _ => panic!("10000 must be rejected as out of range"),
    }
}

#[test]
fn discriminator_boundary_9999_is_valid() {
    // The chosen invariant is the closed range [0, 9999]: the boundary value
    // is an ordinary, valid discriminator.
    let disc = Discriminator::from_param(b"9999").unwrap();
    assert_eq!(disc.value(), 9999);
    assert_eq!(Discriminator::new(9999).unwrap().value(), 9999);
    assert!(Discriminator::new(10000).is_none());
}

#[test]
fn discriminator_zero_is_valid() {
    assert_eq!(Discriminator::new(0).unwrap().value(), 0);
    assert_eq!(Discriminator::new_unchecked(0).value(), 0);
}

#[test]
fn discriminator_leading_zeros_parse() {
    let disc = Discriminator::from_param(b"0042").unwrap();
    assert_eq!(disc.value(), 42);
}

#[test]
fn discriminator_u16_overflow_fails_as_number() {
    // 70000 does not fit in sixteen bits, so it fails the parse itself.
    assert!(matches!(
        Discriminator::from_param(b"70000"),
        Err(DiscriminatorError::InvalidNumber { .. })
    ));
}

#[test]
fn discriminator_segment_percent_decodes() {
    // Fails if percent-decoding handed its input back unchanged.
    let disc = Discriminator::from_param(b"%34%32").unwrap();
    assert_eq!(disc.value(), 42);
}

#[test]
fn discriminator_segment_invalid_utf8_fails() {
    match Discriminator::from_param(b"%80") {
        Err(DiscriminatorError::InvalidEncoding { param }) => assert_eq!(param, b"%80".to_vec()),
        _ => panic!("bytes that are not UTF-8 must be rejected as undecodable"),
    }
}
