//! Base64 (standard alphabet, with padding), through the `base64` crate.
use vstd::prelude::*;

use base64::Engine;

verus! {

/// Character of the standard base64 alphabet for a six-bit value.
pub open spec fn base64_digit(v: int) -> char {
    if v < 26 {
        (65 + v) as char
    } else if v < 52 {
        (97 + (v - 26)) as char
    } else if v < 62 {
        (48 + (v - 52)) as char
    } else if v == 62 {
        '+'
    } else {
        '/'
    }
}

/// Standard base64 encoding of `bytes` (RFC 4648): each group of three bytes
/// becomes four characters; a final group of one or two bytes is padded with
/// `=` to four characters.
pub open spec fn base64_encoding(bytes: Seq<u8>) -> Seq<char>
    decreases bytes.len(),
{
    if bytes.len() == 0 {
        seq![]
    } else if bytes.len() == 1 {
        let b0 = bytes[0] as int;
        seq![base64_digit(b0 / 4), base64_digit((b0 % 4) * 16), '=', '=']
    } else if bytes.len() == 2 {
        let b0 = bytes[0] as int;
        let b1 = bytes[1] as int;
        seq![
            base64_digit(b0 / 4),
            base64_digit((b0 % 4) * 16 + b1 / 16),
            base64_digit((b1 % 16) * 4),
            '=',
        ]
    } else {
        let b0 = bytes[0] as int;
        let b1 = bytes[1] as int;
        let b2 = bytes[2] as int;
        seq![
            base64_digit(b0 / 4),
            base64_digit((b0 % 4) * 16 + b1 / 16),
            base64_digit((b1 % 16) * 4 + b2 / 64),
            base64_digit(b2 % 64),
        ].add(base64_encoding(bytes.skip(3)))
    }
}

/// Text of the error that the standard base64 engine of the `base64` crate
/// reports when it refuses `text`.
pub uninterp spec fn base64_decode_error(text: Seq<char>) -> Seq<char>;

/// Calls `Engine::encode` of `base64::engine::general_purpose::STANDARD`.
/// Claims the standard padded encoding. The call panics when the length of
/// the encoding exceeds `usize::MAX` (its length computation) or
/// `isize::MAX` (allocating the output); `requires` leaves both out.
#[verifier::external_body]
pub(crate) fn encode_base64(bytes: &Vec<u8>) -> (r: String)
    requires
        (bytes.len() + 2) / 3 * 4 <= isize::MAX,
    ensures
        r@ == base64_encoding(bytes@),
{
    base64::engine::general_purpose::STANDARD.encode(bytes)
}

/// Calls `Engine::decode` of `base64::engine::general_purpose::STANDARD` on
/// the bytes of `text`, and renders its error with `to_string`. That engine
/// requires canonical padding and no trailing bits, so it accepts exactly
/// the standard encodings: claims that `text` decodes to `b` when and only
/// when `text` is the encoding of `b`, and names the error text otherwise.
#[verifier::external_body]
pub(crate) fn decode_base64(text: &str) -> (r: Result<Vec<u8>, String>)
    ensures
        r matches Ok(d) ==> text@ == base64_encoding(d@),
        r matches Ok(d) ==> forall|b: Seq<u8>| #[trigger] base64_encoding(b) == text@ ==> d@ == b,
        r is Err ==> forall|b: Seq<u8>| #[trigger] base64_encoding(b) != text@,
        r matches Err(e) ==> e@ == base64_decode_error(text@),
{
    base64::engine::general_purpose::STANDARD.decode(text).map_err(|e| e.to_string())
}

} // verus!
