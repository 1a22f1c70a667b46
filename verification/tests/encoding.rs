use patrol::base64url::{decode_padded_text, encode_unpadded_text};
use patrol::text::{is_white_space_char, str_eq, trim_str};

#[test]
fn encodes_without_padding() {
    assert_eq!(encode_unpadded_text(b"hello"), "aGVsbG8");
    assert_eq!(encode_unpadded_text(b""), "");
    assert_eq!(encode_unpadded_text(b"f"), "Zg");
    assert_eq!(encode_unpadded_text(b"fo"), "Zm8");
    assert_eq!(encode_unpadded_text(b"foo"), "Zm9v");
}

#[test]
fn encodes_with_the_url_safe_alphabet() {
    assert_eq!(encode_unpadded_text(&[0xfb, 0xff, 0xbf]), "-_-_");
    assert_eq!(encode_unpadded_text(&[0x00, 0x10, 0x83]), "ABCD");
}

#[test]
fn decodes_canonical_padded_text() {
    assert_eq!(decode_padded_text("aGVsbG8="), Some(b"hello".to_vec()));
    assert_eq!(decode_padded_text("Zg=="), Some(b"f".to_vec()));
    assert_eq!(decode_padded_text(""), Some(Vec::new()));
    assert_eq!(decode_padded_text("-_-_"), Some(vec![0xfb, 0xff, 0xbf]));
}

#[test]
fn refuses_text_that_is_no_padded_encoding() {
    // missing padding
    assert_eq!(decode_padded_text("aGVsbG8"), None);
    // trailing bits that no encoding sets
    assert_eq!(decode_padded_text("aGVsbG9="), None);
    // the standard alphabet's characters
    assert_eq!(decode_padded_text("+/+/"), None);
    assert_eq!(decode_padded_text("a"), None);
}

#[test]
fn decoding_inverts_encoding() {
    for bytes in [vec![], vec![0u8], vec![1, 2], vec![255, 0, 128, 7], b"{\"a\":1}".to_vec()] {
        let mut text = encode_unpadded_text(&bytes);
        while text.len() % 4 != 0 {
            text.push('=');
        }
        assert_eq!(decode_padded_text(&text), Some(bytes));
    }
}

#[test]
fn trims_unicode_whitespace() {
    assert_eq!(trim_str("  abc \t"), "abc");
    assert_eq!(trim_str("\u{3000}x y\u{2028}\n"), "x y");
    assert_eq!(trim_str(" \u{a0} "), "");
    assert_eq!(trim_str(""), "");
    assert_eq!(trim_str("plain"), "plain");
}

#[test]
fn classifies_whitespace() {
    assert!(is_white_space_char(' '));
    assert!(is_white_space_char('\u{85}'));
    assert!(is_white_space_char('\u{200a}'));
    assert!(!is_white_space_char('\u{200b}'));
    assert!(!is_white_space_char('a'));
}

#[test]
fn compares_strings() {
    assert!(str_eq("abc", "abc"));
    assert!(!str_eq("abc", "abd"));
    assert!(!str_eq("abc", "ab"));
    assert!(str_eq("", ""));
}
