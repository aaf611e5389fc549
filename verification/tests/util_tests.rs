use oauth_filter::text::{chars_of, find_char, same_text, space, trim_bounds};
use oauth_filter::util::{hex_text, new_random_verifier, verifier_from};

#[test]
fn hex_text_writes_two_digits_for_each_byte() {
    assert_eq!(hex_text(&vec![]), "");
    assert_eq!(hex_text(&vec![0x00, 0x0f, 0xa5, 0xff]), "000fa5ff");
    assert_eq!(hex_text(&vec![0x12, 0x34, 0x56, 0x78, 0x9a, 0xbc, 0xde]), "123456789abcde");
}

#[test]
fn random_verifiers_are_fresh_hexadecimal_tokens() {
    let first = new_random_verifier(32).unwrap();
    let second = new_random_verifier(32).unwrap();
    assert_eq!(first.len(), 64);
    assert!(first.chars().all(|c| c.is_ascii_digit() || ('a'..='f').contains(&c)));
    assert_ne!(first, second);
    assert_eq!(new_random_verifier(0).unwrap(), "");
}

#[test]
fn white_space_is_what_unicode_says() {
    for c in ['\u{9}', '\n', '\u{b}', '\u{c}', '\r', ' ', '\u{85}', '\u{a0}', '\u{1680}',
        '\u{2000}', '\u{200a}', '\u{2028}', '\u{2029}', '\u{202f}', '\u{205f}', '\u{3000}']
    {
        assert!(space(c));
    }
    for c in ['a', '=', ';', '\u{8}', '\u{e}', '\u{200b}', '\u{feff}'] {
        assert!(!space(c));
    }
    for code in 0u32..0x3100 {
        if let Some(c) = char::from_u32(code) {
            assert_eq!(space(c), c.is_whitespace());
        }
    }
}

#[test]
fn text_is_searched_and_trimmed_by_characters() {
    let chars = chars_of("  é=ü  ;x");
    assert_eq!(chars.len(), 9);
    assert_eq!(find_char(&chars, 0, 9, '='), 3);
    assert_eq!(find_char(&chars, 4, 9, '='), 9);
    assert_eq!(find_char(&chars, 0, 9, ';'), 7);
    assert_eq!(trim_bounds(&chars, 0, 7), (2, 5));
    assert_eq!(trim_bounds(&chars, 0, 2), (2, 2));
    assert_eq!(trim_bounds(&chars, 5, 7), (7, 7));
    assert!(same_text("é", "é"));
    assert!(!same_text("e", "é"));
    assert!(!same_text("ab", "a"));
}

#[test]
fn a_draw_stands_for_its_bytes_in_hexadecimal() {
    assert_eq!(verifier_from(Ok(vec![0x01, 0xab])), Some("01ab".to_string()));
    assert_eq!(verifier_from(Ok(vec![])), Some("".to_string()));
    assert_eq!(verifier_from(Err(getrandom::Error::UNSUPPORTED)), None);
}
