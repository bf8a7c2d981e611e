use base64::Engine;

use model::login::{AccessToken, EmailLoginToken, RefreshToken};

fn is_base64url_no_padding_character(c: char) -> bool {
    c.is_ascii_alphanumeric() || c == '-' || c == '_'
}

fn is_base64_character(c: char) -> bool {
    c.is_ascii_alphanumeric() || c == '+' || c == '/' || c == '='
}

#[test]
fn access_token_length_is_256_bits() {
    let data_256_bit = [0u8; 256 / 8];
    let wanted_len = base64::engine::general_purpose::URL_SAFE_NO_PAD
        .encode(data_256_bit)
        .len();
    let token = AccessToken::generate_new();
    assert_eq!(token.as_str().len(), wanted_len);
    assert_eq!(token.as_str().len(), 43);
}

#[test]
fn access_token_contains_only_allowed_characters() {
    let token = AccessToken::generate_new();
    for c in token.as_str().chars() {
        assert!(is_base64url_no_padding_character(c));
    }
}

#[test]
fn refresh_token_length_is_256_bits() {
    let data_256_bit = [0u8; 256 / 8];
    let wanted_len = base64::engine::general_purpose::STANDARD
        .encode(data_256_bit)
        .len();
    let token = RefreshToken::generate_new();
    assert_eq!(token.as_str().len(), wanted_len);
    assert_eq!(token.as_str().len(), 44);
}

#[test]
fn refresh_token_contains_only_allowed_characters() {
    let token = RefreshToken::generate_new();
    for c in token.as_str().chars() {
        assert!(is_base64_character(c));
    }
}

#[test]
fn access_token_from_bytes_gives_the_bytes_back() {
    let data: Vec<u8> = (0u8..32).collect();
    let token = AccessToken::from_bytes(&data);
    assert_eq!(token.as_str(), "AAECAwQFBgcICQoLDA0ODxAREhMUFRYXGBkaGxwdHh8");
    assert_eq!(token.bytes(), Ok(data));
}

#[test]
fn access_token_with_bytes_encodes_the_bytes() {
    let (token, bytes) = AccessToken::generate_new_with_bytes();
    assert_eq!(bytes.len(), 32);
    assert_eq!(token.bytes(), Ok(bytes));
}

#[test]
fn access_token_invalid_text_does_not_decode() {
    let token = AccessToken::new("not base64!".to_string());
    assert_eq!(token.bytes(), Err(base64::DecodeError::InvalidByte(3, b' ')));
    assert_eq!(token.into_string(), "not base64!");
}

#[test]
fn refresh_token_from_bytes_gives_the_bytes_back() {
    let data = [255u8, 254, 253];
    let token = RefreshToken::from_bytes(&data);
    assert_eq!(token.as_str(), "//79");
    assert_eq!(token.bytes(), Ok(data.to_vec()));
    let (token, bytes) = RefreshToken::generate_new_with_bytes();
    assert_eq!(token.bytes(), Ok(bytes));
}

#[test]
fn email_login_token_is_128_bits() {
    let (token, bytes) = EmailLoginToken::generate_new_with_bytes();
    assert_eq!(bytes.len(), 16);
    assert_eq!(token.as_str().len(), 22);
    assert_eq!(token.bytes(), Ok(bytes));
    let t = EmailLoginToken::from_bytes(&[1, 2, 3]);
    assert_eq!(t.as_str(), "AQID");
    assert_eq!(EmailLoginToken::generate_new().as_str().len(), 22);
}
