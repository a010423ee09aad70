use own_view::base64::base64_encode;
use own_view::json::{js_string, literal_or_empty};

#[test]
fn base64_of_standard_vectors() {
    assert_eq!(base64_encode(b""), "");
    assert_eq!(base64_encode(b"f"), "Zg==");
    assert_eq!(base64_encode(b"fo"), "Zm8=");
    assert_eq!(base64_encode(b"foo"), "Zm9v");
    assert_eq!(base64_encode(b"foob"), "Zm9vYg==");
    assert_eq!(base64_encode(b"fooba"), "Zm9vYmE=");
    assert_eq!(base64_encode(b"foobar"), "Zm9vYmFy");
}

#[test]
fn base64_reaches_both_ends_of_the_alphabet() {
    assert_eq!(base64_encode(&[0, 0, 0]), "AAAA");
    assert_eq!(base64_encode(&[255, 255, 255]), "////");
    assert_eq!(base64_encode(&[251, 239, 190]), "++++");
    assert_eq!(base64_encode(&[255]), "/w==");
    assert_eq!(base64_encode(&[255, 255]), "//8=");
}

fn value_of(c: u8) -> u32 {
    let alphabet = b"ABCDEFGHIJKLMNOPQRSTUVWXYZabcdefghijklmnopqrstuvwxyz0123456789+/";
    alphabet.iter().position(|a| *a == c).unwrap_or(0) as u32
}

fn decode(text: &str) -> Vec<u8> {
    let pad = text.bytes().rev().take_while(|c| *c == b'=').count();
    let mut bytes = Vec::new();
    for quad in text.as_bytes().chunks(4) {
        let value = quad.iter().fold(0u32, |sum, c| sum * 64 + value_of(*c));
        bytes.extend_from_slice(&[(value >> 16) as u8, (value >> 8) as u8, value as u8]);
    }
    bytes.truncate(bytes.len() - pad);
    bytes
}

#[test]
fn base64_is_undone_by_decoding() {
    let bytes: Vec<u8> = (0..=255u8).chain((0..=255u8).rev()).collect();
    for len in 0..bytes.len() {
        let text = base64_encode(&bytes[..len]);
        assert_eq!(text.len(), (len + 2) / 3 * 4);
        assert_eq!(decode(&text), &bytes[..len]);
    }
}

#[test]
fn base64_tells_inputs_apart() {
    assert_ne!(base64_encode(&[0]), base64_encode(&[0, 0]));
    assert_ne!(base64_encode(&[1, 2, 3]), base64_encode(&[1, 2, 4]));
}

#[test]
fn literal_of_plain_text() {
    assert_eq!(js_string(""), "\"\"");
    assert_eq!(js_string("spotlight"), "\"spotlight\"");
    assert_eq!(js_string("a/b'c"), "\"a/b'c\"");
}

#[test]
fn literal_escapes_quote_and_backslash() {
    assert_eq!(js_string("\""), "\"\\\"\"");
    assert_eq!(js_string("\\"), "\"\\\\\"");
    assert_eq!(js_string("\");alert(1);//"), "\"\\\");alert(1);//\"");
}

#[test]
fn literal_escapes_control_characters() {
    assert_eq!(js_string("\u{8}\t\n\u{c}\r"), "\"\\b\\t\\n\\f\\r\"");
    assert_eq!(js_string("\u{0}\u{1f}\u{b}"), "\"\\u0000\\u001f\\u000b\"");
    assert_eq!(js_string("\u{7f}"), "\"\u{7f}\"");
}

#[test]
fn literal_keeps_other_characters() {
    assert_eq!(js_string("größe \u{2028} \u{1f600}"), "\"größe \u{2028} \u{1f600}\"");
}

#[test]
fn literal_holds_no_control_character_and_is_read_back() {
    for code in 0..0x250u32 {
        if let Some(c) = char::from_u32(code) {
            let text: String = vec!['x', c, 'y'].into_iter().collect();
            let literal = js_string(&text);
            assert!(literal.chars().all(|c| c >= ' '));
            let back: String = serde_json::from_str(&literal).unwrap();
            assert_eq!(back, text);
        }
    }
}

#[test]
fn failed_literal_is_empty() {
    let error = serde_json::from_str::<bool>("x").unwrap_err();
    assert_eq!(literal_or_empty(Err(error)), "\"\"");
    assert_eq!(literal_or_empty(Ok("\"ok\"".to_string())), "\"ok\"");
}
