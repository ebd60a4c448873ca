//! Textual encodings of bytes and identifiers: lowercase hex, URL-safe
//! base64 without padding, and the hyphenated form of a UUID.
use base64::Engine;
use vstd::prelude::*;

verus! {

/// The lowercase hexadecimal digit for `v` (`0 <= v < 16`).
pub open spec fn hex_digit(v: int) -> char {
    if v < 10 {
        (48 + v) as char
    } else {
        (87 + v) as char
    }
}

/// Two lowercase hexadecimal digits per byte, most significant digit first.
pub open spec fn hex_lower(bytes: Seq<u8>) -> Seq<char>
    decreases bytes.len(),
{
    if bytes.len() == 0 {
        Seq::empty()
    } else {
        seq![hex_digit(bytes[0] as int / 16), hex_digit(bytes[0] as int % 16)] + hex_lower(bytes.drop_first())
    }
}

/// The character for the six-bit value `v` in the URL-safe base64 alphabet
/// (`A-Z`, `a-z`, `0-9`, `-`, `_`).
pub open spec fn base64_url_digit(v: int) -> char {
    if v < 26 {
        (65 + v) as char
    } else if v < 52 {
        (71 + v) as char
    } else if v < 62 {
        (v - 4) as char
    } else if v == 62 {
        '-'
    } else {
        '_'
    }
}

/// URL-safe base64 without padding: each group of three bytes becomes four
/// characters; a trailing group of one or two bytes becomes two or three.
pub open spec fn base64_url_no_pad(bytes: Seq<u8>) -> Seq<char>
    decreases bytes.len(),
{
    if bytes.len() == 0 {
        Seq::empty()
    } else if bytes.len() == 1 {
        seq![base64_url_digit((bytes[0] as int) / 4), base64_url_digit(((bytes[0] as int) % 4) * 16)]
    } else if bytes.len() == 2 {
        seq![
            base64_url_digit((bytes[0] as int) / 4),
            base64_url_digit(((bytes[0] as int) % 4) * 16 + (bytes[1] as int) / 16),
            base64_url_digit(((bytes[1] as int) % 16) * 4),
        ]
    } else {
        seq![
            base64_url_digit((bytes[0] as int) / 4),
            base64_url_digit(((bytes[0] as int) % 4) * 16 + (bytes[1] as int) / 16),
            base64_url_digit(((bytes[1] as int) % 16) * 4 + (bytes[2] as int) / 64),
            base64_url_digit((bytes[2] as int) % 64),
        ] + base64_url_no_pad(bytes.skip(3))
    }
}

/// The last `n` hexadecimal digits of `v`, most significant first.
pub open spec fn hex_digits(v: nat, n: nat) -> Seq<char>
    decreases n,
{
    if n == 0 {
        Seq::empty()
    } else {
        hex_digits(v / 16, (n - 1) as nat).push(hex_digit((v % 16) as int))
    }
}

/// The hyphenated lowercase form of a UUID given by its 128 bits:
/// 32 hex digits grouped 8-4-4-4-12.
pub open spec fn uuid_hyphenated(id: u128) -> Seq<char> {
    let d = hex_digits(id as nat, 32);
    d.subrange(0, 8) + seq!['-'] + d.subrange(8, 12) + seq!['-'] + d.subrange(12, 16) + seq!['-']
        + d.subrange(16, 20) + seq!['-'] + d.subrange(20, 32)
}

/// `hex::encode`: the bytes as lowercase hexadecimal text.
#[verifier::external_body]
pub(crate) fn hex_encode(bytes: &[u8]) -> (s: String)
    ensures
        s@ == hex_lower(bytes@),
{
    hex::encode(bytes)
}

/// `base64::engine::general_purpose::URL_SAFE_NO_PAD.encode`: the bytes in
/// URL-safe base64, without `=` padding.
#[verifier::external_body]
pub(crate) fn base64_url_encode(bytes: &[u8]) -> (s: String)
    ensures
        s@ == base64_url_no_pad(bytes@),
{
    base64::engine::general_purpose::URL_SAFE_NO_PAD.encode(bytes)
}

/// The `Display` form of `uuid::Uuid`, which is its hyphenated lowercase
/// form.
#[verifier::external_body]
pub(crate) fn uuid_to_string(id: u128) -> (s: String)
    ensures
        s@ == uuid_hyphenated(id),
{
    uuid::Uuid::from_u128(id).to_string()
}

/// `uuid::Uuid::new_v4`: a random UUID, as its 128 bits. Nothing is promised
/// of the value, which comes from the system's random source.
#[verifier::external_body]
pub(crate) fn new_random_uuid() -> (id: u128) {
    uuid::Uuid::new_v4().as_u128()
}

} // verus!
