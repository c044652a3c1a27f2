//! The request wire format: discriminants, length-prefixed fields,
//! exact consumption, UTF-8 validation.

use nft_minter::processor::{parse_instruction, SplNftMinterIntstruction};

fn enc_str(s: &str) -> Vec<u8> {
    let bytes = s.as_bytes();
    let mut v = Vec::new();
    v.extend_from_slice(&(bytes.len() as u32).to_le_bytes());
    v.extend_from_slice(bytes);
    v
}

fn create_payload(name: &str, symbol: &str, uri: &str) -> Vec<u8> {
    let mut v = vec![0u8];
    v.extend_from_slice(&enc_str(name));
    v.extend_from_slice(&enc_str(symbol));
    v.extend_from_slice(&enc_str(uri));
    v
}

#[test]
fn parse_mint_request() {
    match parse_instruction(&[1]) {
        Ok(SplNftMinterIntstruction::Mint) => {}
        _ => panic!("a single byte one must decode as the mint request"),
    }
}

#[test]
fn parse_mint_with_trailing_bytes_fails() {
    assert!(parse_instruction(&[1, 0]).is_err());
}

#[test]
fn parse_empty_payload_fails() {
    assert!(parse_instruction(&[]).is_err());
}

#[test]
fn parse_unknown_discriminant_fails() {
    assert!(parse_instruction(&[2]).is_err());
    assert!(parse_instruction(&[255]).is_err());
}

#[test]
fn parse_create_request() {
    let payload = create_payload("My Token", "TOK", "https://example.invalid/a.json");
    match parse_instruction(&payload) {
        Ok(SplNftMinterIntstruction::Create(args)) => {
            assert_eq!(args.name, "My Token");
            assert_eq!(args.symbol, "TOK");
            assert_eq!(args.uri, "https://example.invalid/a.json");
        }
        _ => panic!("a well-formed create payload must decode"),
    }
}

#[test]
fn parse_create_empty_fields() {
    let payload = create_payload("", "", "");
    match parse_instruction(&payload) {
        Ok(SplNftMinterIntstruction::Create(args)) => {
            assert_eq!(args.name, "");
            assert_eq!(args.symbol, "");
            assert_eq!(args.uri, "");
        }
        _ => panic!("empty fields are still well-formed"),
    }
}

#[test]
fn parse_create_multibyte_utf8() {
    let payload = create_payload("caf\u{e9}", "\u{20ac}", "u");
    match parse_instruction(&payload) {
        Ok(SplNftMinterIntstruction::Create(args)) => {
            assert_eq!(args.name, "caf\u{e9}");
            assert_eq!(args.name.chars().count(), 4);
            assert_eq!(args.symbol, "\u{20ac}");
            assert_eq!(args.symbol.chars().count(), 1);
        }
        _ => panic!("multi-byte UTF-8 fields must decode"),
    }
}

#[test]
fn parse_create_invalid_utf8_fails() {
    let mut payload = vec![0u8];
    payload.extend_from_slice(&2u32.to_le_bytes());
    payload.extend_from_slice(&[0xFF, 0xFE]);
    payload.extend_from_slice(&enc_str("TOK"));
    payload.extend_from_slice(&enc_str("u"));
    assert!(parse_instruction(&payload).is_err());
}

#[test]
fn parse_create_truncated_field_fails() {
    let mut payload = vec![0u8];
    payload.extend_from_slice(&10u32.to_le_bytes());
    payload.extend_from_slice(b"abc");
    assert!(parse_instruction(&payload).is_err());
}

#[test]
fn parse_create_missing_fields_fails() {
    let mut payload = vec![0u8];
    payload.extend_from_slice(&enc_str("name only"));
    assert!(parse_instruction(&payload).is_err());
}

#[test]
fn parse_create_trailing_bytes_fails() {
    let mut payload = create_payload("a", "b", "c");
    payload.push(0);
    assert!(parse_instruction(&payload).is_err());
}
