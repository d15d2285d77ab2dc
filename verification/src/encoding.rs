//! Text encodings used by the chain: lowercase hexadecimal, and the compact
//! JSON form in which block headers and transaction fields are hashed.
use vstd::prelude::*;
use vstd::string::StringSliceAdditionalSpecFns;
use vstd::utf8::{encode_utf8, is_ascii_chars, is_ascii_chars_encode_utf8};

verus! {

// ---------------------------------------------------------------------------
// Hexadecimal
// ---------------------------------------------------------------------------

/// The lowercase hexadecimal digit for a value below 16.
pub open spec fn hex_digit(v: int) -> char {
    if v < 10 {
        (48 + v) as char
    } else {
        (87 + v) as char
    }
}

/// Lowercase hexadecimal text of a byte string: two digits per byte, high
/// nibble first.
pub open spec fn hex_lower(bytes: Seq<u8>) -> Seq<char> {
    Seq::new(
        2 * bytes.len(),
        |i: int|
            if i % 2 == 0 {
                hex_digit((bytes[i / 2] / 16) as int)
            } else {
                hex_digit((bytes[i / 2] % 16) as int)
            },
    )
}

/// An ASCII hexadecimal digit, in either case.
pub open spec fn is_hex_byte(b: u8) -> bool {
    (0x30 <= b <= 0x39) || (0x41 <= b <= 0x46) || (0x61 <= b <= 0x66)
}

/// The value of an ASCII hexadecimal digit.
pub open spec fn hex_value(b: u8) -> int {
    if b <= 0x39 {
        b - 0x30
    } else if b <= 0x46 {
        b - 0x37
    } else {
        b - 0x57
    }
}

/// Decoding of hexadecimal text given as bytes: defined when the text has an
/// even length and holds only hexadecimal digits (either case); each pair of
/// digits gives one byte, high nibble first.
pub open spec fn hex_decode(text: Seq<u8>) -> Option<Seq<u8>> {
    if text.len() % 2 == 0 && forall|i: int| 0 <= i < text.len() ==> is_hex_byte(#[trigger] text[i]) {
        Some(
            Seq::new(
                text.len() / 2,
                |i: int| (hex_value(text[2 * i]) * 16 + hex_value(text[2 * i + 1])) as u8,
            ),
        )
    } else {
        None
    }
}

/// `hex::encode`: the lowercase hexadecimal text of `bytes` (its source
/// writes each byte as two digits from the table `0123456789abcdef`).
#[verifier::external_body]
pub(crate) fn encode_hex(bytes: &[u8]) -> (text: String)
    ensures
        text@ == hex_lower(bytes@),
{
    hex::encode(bytes)
}

/// `hex::decode`: decodes the UTF-8 bytes of `text`; it fails exactly when
/// their number is odd or one of them is not a hexadecimal digit. On failure
/// the crate's own error message is handed back; its wording is not stated.
#[verifier::external_body]
pub(crate) fn decode_hex(text: &str) -> (res: Result<Vec<u8>, String>)
    ensures
        match res {
            Ok(bytes) => hex_decode(text.spec_bytes()) == Some(bytes@),
            Err(_) => hex_decode(text.spec_bytes()) is None,
        },
{
    match hex::decode(text) {
        Ok(bytes) => Ok(bytes),
        Err(e) => Err(e.to_string()),
    }
}

/// Hexadecimal text encodes to ASCII bytes that decode back to the original
/// bytes.
pub proof fn lemma_hex_round_trip(bytes: Seq<u8>)
    ensures
        is_ascii_chars(hex_lower(bytes)),
        hex_decode(encode_utf8(hex_lower(bytes))) == Some(bytes),
{
    let text = hex_lower(bytes);
    assert forall|i: int| 0 <= i < text.len() implies '\0' <= #[trigger] text[i] <= '\u{7f}' by {
        let v = if i % 2 == 0 { bytes[i / 2] / 16 } else { bytes[i / 2] % 16 };
        assert(0 <= v < 16);
    }
    is_ascii_chars_encode_utf8(text);
    let enc = encode_utf8(text);
    assert forall|i: int| 0 <= i < enc.len() implies is_hex_byte(#[trigger] enc[i]) by {
        assert(enc[i] == text[i] as u8);
        let v = if i % 2 == 0 { bytes[i / 2] / 16 } else { bytes[i / 2] % 16 };
        assert(0 <= v < 16);
    }
    assert(enc.len() % 2 == 0);
    let decoded = hex_decode(enc).unwrap();
    assert forall|k: int| 0 <= k < bytes.len() implies #[trigger] decoded[k] == bytes[k] by {
        assert(enc[2 * k] == text[2 * k] as u8);
        assert(enc[2 * k + 1] == text[2 * k + 1] as u8);
        assert((2 * k) % 2 == 0);
        assert((2 * k + 1) % 2 == 1);
        assert((2 * k) / 2 == k);
        assert((2 * k + 1) / 2 == k);
        let hi = bytes[k] / 16;
        let lo = bytes[k] % 16;
        assert(hex_value(hex_digit(hi as int) as u8) == hi);
        assert(hex_value(hex_digit(lo as int) as u8) == lo);
        assert(hi * 16 + lo == bytes[k]);
    }
    assert(decoded =~= bytes);
}

// ---------------------------------------------------------------------------
// JSON framing
// ---------------------------------------------------------------------------

/// The JSON escape of one byte of a string's UTF-8 encoding: the quote, the
/// backslash and the control bytes below 0x20 are escaped (with the short
/// forms `\b \t \n \f \r` where JSON has them, `\u00xx` otherwise); every
/// other byte stands for itself.
pub open spec fn json_escape_byte(b: u8) -> Seq<u8> {
    if b == 0x22 {
        seq![0x5cu8, 0x22u8]
    } else if b == 0x5c {
        seq![0x5cu8, 0x5cu8]
    } else if b == 0x08 {
        seq![0x5cu8, 0x62u8]
    } else if b == 0x09 {
        seq![0x5cu8, 0x74u8]
    } else if b == 0x0a {
        seq![0x5cu8, 0x6eu8]
    } else if b == 0x0c {
        seq![0x5cu8, 0x66u8]
    } else if b == 0x0d {
        seq![0x5cu8, 0x72u8]
    } else if b < 0x20 {
        seq![0x5cu8, 0x75u8, 0x30u8, 0x30u8, hex_digit((b / 16) as int) as u8, hex_digit((b % 16) as int) as u8]
    } else {
        seq![b]
    }
}

/// The JSON escape of a byte string, byte by byte.
pub open spec fn json_escape(bytes: Seq<u8>) -> Seq<u8>
    decreases bytes.len(),
{
    if bytes.len() == 0 {
        seq![]
    } else {
        json_escape(bytes.drop_last()) + json_escape_byte(bytes.last())
    }
}

/// A JSON string literal holding the text whose UTF-8 encoding is `bytes`.
pub open spec fn json_string(bytes: Seq<u8>) -> Seq<u8> {
    seq![0x22u8] + json_escape(bytes) + seq![0x22u8]
}

/// Decimal digits (ASCII) of a natural number, without leading zeros.
pub open spec fn decimal(n: nat) -> Seq<u8>
    decreases n,
{
    if n < 10 {
        seq![(0x30 + n) as u8]
    } else {
        decimal(n / 10) + seq![(0x30 + n % 10) as u8]
    }
}

/// Appends `bytes` to `out`.
pub fn push_bytes(out: &mut Vec<u8>, bytes: &[u8])
    ensures
        final(out)@ == old(out)@ + bytes@,
{
    let mut i: usize = 0;
    while i < bytes.len()
        invariant
            i <= bytes@.len(),
            out@ == old(out)@ + bytes@.subrange(0, i as int),
        decreases bytes@.len() - i,
    {
        out.push(bytes[i]);
        i = i + 1;
        assert(bytes@.subrange(0, i as int) =~= bytes@.subrange(0, i - 1) + seq![bytes@[i - 1]]);
    }
    assert(bytes@.subrange(0, i as int) =~= bytes@);
}

/// `serde_json::to_vec` on a string slice: the JSON string literal of
/// `text`, as serde_json writes it (its escape table escapes the quote, the
/// backslash and the bytes below 0x20, with the short forms for \b \t \n \f
/// \r and `\u00xx` with lowercase digits otherwise). Writing into a vector
/// cannot fail, so the error arm is never taken.
#[verifier::external_body]
pub(crate) fn json_string_bytes(text: &str) -> (json: Vec<u8>)
    ensures
        json@ == json_string(text.spec_bytes()),
{
    match serde_json::to_vec(text) {
        Ok(json) => json,
        Err(_) => Vec::new(),
    }
}

/// `serde_json::to_vec` on a `u64`: its decimal digits, without leading
/// zeros. Writing into a vector cannot fail, so the error arm is never
/// taken.
#[verifier::external_body]
pub(crate) fn json_u64_bytes(n: u64) -> (json: Vec<u8>)
    ensures
        json@ == decimal(n as nat),
{
    match serde_json::to_vec(&n) {
        Ok(json) => json,
        Err(_) => Vec::new(),
    }
}

/// Appends to `out` the JSON string literal for `text`.
pub fn push_json_string(out: &mut Vec<u8>, text: &str)
    ensures
        final(out)@ == old(out)@ + json_string(text.spec_bytes()),
{
    let json = json_string_bytes(text);
    push_bytes(out, json.as_slice());
}

/// Appends the decimal digits of `n` to `out`.
pub fn push_decimal(out: &mut Vec<u8>, n: u64)
    ensures
        final(out)@ == old(out)@ + decimal(n as nat),
{
    let json = json_u64_bytes(n);
    push_bytes(out, json.as_slice());
}

} // verus!
