//! Calls into the outside crates and into std that the model needs:
//! Base64 encoding, random UUIDs, SHA-256, regular expression checks and
//! the system clock. Each item here is trusted: its contract restates what
//! the called function's documentation or source shows.
use vstd::prelude::*;

use base64::Engine;
use sha2::Digest;

verus! {

#[verifier::external_type_specification]
#[verifier::external_body]
pub struct ExDecodeError(base64::DecodeError);

/// Whether `c` is in the URL safe Base64 alphabet: `A-Z`, `a-z`, `0-9`, `-` and `_`.
pub open spec fn is_base64_url_safe_char(c: char) -> bool {
    ('A' <= c <= 'Z') || ('a' <= c <= 'z') || ('0' <= c <= '9') || c == '-' || c == '_'
}

/// Whether `c` is in the standard Base64 alphabet or is the padding
/// character: `A-Z`, `a-z`, `0-9`, `+`, `/` and `=`.
pub open spec fn is_base64_standard_char(c: char) -> bool {
    ('A' <= c <= 'Z') || ('a' <= c <= 'z') || ('0' <= c <= '9') || c == '+' || c == '/' || c == '='
}

/// Length of the unpadded Base64 text of `n` bytes.
pub open spec fn base64_unpadded_len(n: nat) -> nat {
    4 * (n / 3) + if n % 3 == 0 { 0nat } else if n % 3 == 1 { 2nat } else { 3nat }
}

/// Length of the padded Base64 text of `n` bytes.
pub open spec fn base64_padded_len(n: nat) -> nat {
    4 * (n / 3) + if n % 3 == 0 { 0nat } else { 4nat }
}

/// Text that the URL safe, unpadded Base64 engine writes for `data`.
pub uninterp spec fn base64_url_safe_no_pad_encode(data: Seq<u8>) -> Seq<char>;

/// Bytes that the URL safe, unpadded Base64 engine reads from `text`,
/// or `None` when it refuses the text.
pub uninterp spec fn base64_url_safe_no_pad_decode(text: Seq<char>) -> Option<Seq<u8>>;

/// Text that the standard, padded Base64 engine writes for `data`.
pub uninterp spec fn base64_standard_encode(data: Seq<u8>) -> Seq<char>;

/// Bytes that the standard, padded Base64 engine reads from `text`, or
/// `None` when it refuses the text.
pub uninterp spec fn base64_standard_decode(text: Seq<char>) -> Option<Seq<u8>>;

/// Calls `base64::engine::general_purpose::URL_SAFE_NO_PAD.encode`. The
/// text is the one the engine writes for `data`; its length is the
/// unpadded Base64 length and its characters are URL safe Base64
/// characters. The engine panics when the output length overflows
/// `usize`, which the bound on `data` rules out.
#[verifier::external_body]
pub(crate) fn encode_url_safe_no_pad(data: &[u8]) -> (r: String)
    requires
        data@.len() <= usize::MAX / 4,
    ensures
        r@ == base64_url_safe_no_pad_encode(data@),
        r@.len() == base64_unpadded_len(data@.len()),
        forall|i: int| 0 <= i < r@.len() ==> is_base64_url_safe_char(#[trigger] r@[i]),
{
    base64::engine::general_purpose::URL_SAFE_NO_PAD.encode(data)
}

/// Calls `base64::engine::general_purpose::URL_SAFE_NO_PAD.decode`. The
/// result is the named decoding of `text`; text that the engine wrote for
/// some bytes decodes to those bytes. Which decode error comes out is not
/// stated.
#[verifier::external_body]
pub(crate) fn decode_url_safe_no_pad(text: &str) -> (r: Result<Vec<u8>, base64::DecodeError>)
    ensures
        match r {
            Ok(v) => base64_url_safe_no_pad_decode(text@) == Some(v@),
            Err(_) => base64_url_safe_no_pad_decode(text@) is None,
        },
        forall|d: Seq<u8>|
            #[trigger] base64_url_safe_no_pad_encode(d) == text@ ==> (r is Ok && r->Ok_0@ == d),
{
    base64::engine::general_purpose::URL_SAFE_NO_PAD.decode(text)
}

/// Calls `base64::engine::general_purpose::STANDARD.encode`. The text is
/// the one the engine writes for `data`; its length is the padded Base64
/// length and its characters are standard Base64 characters or padding.
/// The engine panics when the output length overflows `usize`, which the
/// bound on `data` rules out.
#[verifier::external_body]
pub(crate) fn encode_standard(data: &[u8]) -> (r: String)
    requires
        data@.len() <= usize::MAX / 4,
    ensures
        r@ == base64_standard_encode(data@),
        r@.len() == base64_padded_len(data@.len()),
        forall|i: int| 0 <= i < r@.len() ==> is_base64_standard_char(#[trigger] r@[i]),
{
    base64::engine::general_purpose::STANDARD.encode(data)
}

/// Calls `base64::engine::general_purpose::STANDARD.decode`. The result
/// is the named decoding of `text`; text that the engine wrote for some
/// bytes decodes to those bytes. Which decode error comes out is not
/// stated.
#[verifier::external_body]
pub(crate) fn decode_standard(text: &str) -> (r: Result<Vec<u8>, base64::DecodeError>)
    ensures
        match r {
            Ok(v) => base64_standard_decode(text@) == Some(v@),
            Err(_) => base64_standard_decode(text@) is None,
        },
        forall|d: Seq<u8>|
            #[trigger] base64_standard_encode(d) == text@ ==> (r is Ok && r->Ok_0@ == d),
{
    base64::engine::general_purpose::STANDARD.decode(text)
}

/// Calls `uuid::Uuid::new_v4` and gives its 16 bytes in big-endian order
/// (`into_bytes`). The bytes come from a random number generator; only the
/// version 4 and RFC 4122 variant bits that `new_v4` sets are stated.
#[verifier::external_body]
pub(crate) fn random_uuid_v4_bytes() -> (r: [u8; 16])
    ensures
        r[6] & 0xf0 == 0x40,
        r[8] & 0xc0 == 0x80,
{
    uuid::Uuid::new_v4().into_bytes()
}

/// Calls `uuid::Uuid::new_v4` and gives its 16 bytes with the first
/// three fields in little-endian order (`to_bytes_le`). The bytes come from
/// a random number generator; only the version 4 and RFC 4122 variant bits
/// that `new_v4` sets are stated, at their little-endian positions.
#[verifier::external_body]
pub(crate) fn random_uuid_v4_bytes_le() -> (r: [u8; 16])
    ensures
        r[7] & 0xf0 == 0x40,
        r[8] & 0xc0 == 0x80,
{
    uuid::Uuid::new_v4().to_bytes_le()
}

/// Calls `getrandom::fill` on 16 bytes: 128 bits from the operating
/// system's random number generator. Nothing is stated of the bytes. Where
/// the generator fails the call panics, as `uuid::Uuid::new_v4` does.
#[verifier::external_body]
pub(crate) fn random_128_bits() -> [u8; 16] {
    let mut bytes = [0u8; 16];
    getrandom::fill(&mut bytes).expect("random number generator failed");
    bytes
}

/// Lower case hexadecimal digit of `n`, a number below 16.
pub open spec fn hex_digit_lower(n: int) -> char {
    if n < 10 {
        (48 + n) as char
    } else {
        (87 + n) as char
    }
}

/// Digit `j` (from 0 to 31) of the lower case hexadecimal text of the 16
/// bytes `b`, most significant digit of each byte first.
pub open spec fn uuid_hex_digit(b: Seq<u8>, j: int) -> char {
    if j % 2 == 0 {
        hex_digit_lower((b[j / 2] / 16) as int)
    } else {
        hex_digit_lower((b[j / 2] % 16) as int)
    }
}

/// Hyphenated text of the UUID bytes `b`: 32 lower case hexadecimal digits
/// in groups of 8, 4, 4, 4 and 12 with a `-` between the groups.
pub open spec fn uuid_hyphenated_text(b: Seq<u8>) -> Seq<char> {
    Seq::new(
        36,
        |i: int|
            if i == 8 || i == 13 || i == 18 || i == 23 {
                '-'
            } else if i < 8 {
                uuid_hex_digit(b, i)
            } else if i < 13 {
                uuid_hex_digit(b, i - 1)
            } else if i < 18 {
                uuid_hex_digit(b, i - 2)
            } else if i < 23 {
                uuid_hex_digit(b, i - 3)
            } else {
                uuid_hex_digit(b, i - 4)
            },
    )
}

/// Calls `uuid::Uuid::from_bytes` and writes the UUID with `hyphenated`:
/// 32 lower case hexadecimal digits of the bytes in groups of 8, 4, 4, 4
/// and 12 separated by `-`.
#[verifier::external_body]
pub(crate) fn uuid_hyphenated(bytes: [u8; 16]) -> (r: String)
    ensures
        r@ == uuid_hyphenated_text(bytes@),
{
    uuid::Uuid::from_bytes(bytes).hyphenated().to_string()
}

/// SHA-256 digest of `data`.
pub uninterp spec fn sha256_digest(data: Seq<u8>) -> Seq<u8>;

/// Calls `sha2::Sha256::digest`: the 32-byte SHA-256 digest of `data`.
#[verifier::external_body]
pub(crate) fn sha256(data: &[u8]) -> (r: Vec<u8>)
    ensures
        r@ == sha256_digest(data@),
        r@.len() == 32,
{
    sha2::Sha256::digest(data).to_vec()
}

/// Whether the regex crate accepts `pattern` as a regular expression.
pub uninterp spec fn regex_accepts(pattern: Seq<char>) -> bool;

/// Calls `regex::Regex::new` and keeps only whether it succeeded; the
/// error is given as its display text, which is not stated.
#[verifier::external_body]
pub(crate) fn check_regex(pattern: &str) -> (r: Result<(), String>)
    ensures
        r is Ok <==> regex_accepts(pattern@),
{
    match regex::Regex::new(pattern) {
        Ok(_) => Ok(()),
        Err(e) => Err(e.to_string()),
    }
}

/// Calls `chrono::Utc::now` and gives its Unix timestamp in whole
/// seconds (`timestamp`). The value depends on the system clock, so nothing
/// is stated of it.
#[verifier::external_body]
pub(crate) fn utc_now_timestamp() -> i64 {
    chrono::Utc::now().timestamp()
}

} // verus!
