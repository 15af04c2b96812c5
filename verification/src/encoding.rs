//! Base64 (the `base64` crate's standard engine).
use vstd::prelude::*;

verus! {

/// The base64 digit for a six-bit value.
pub open spec fn b64_digit(n: int) -> char {
    if n < 26 {
        ('A' as int + n) as char
    } else if n < 52 {
        ('a' as int + n - 26) as char
    } else if n < 62 {
        ('0' as int + n - 52) as char
    } else if n == 62 {
        '+'
    } else {
        '/'
    }
}

/// The standard base64 text of the bytes (RFC 4648, with `=` padding).
pub open spec fn base64(b: Seq<u8>) -> Seq<char>
    decreases b.len(),
{
    if b.len() == 0 {
        Seq::empty()
    } else {
        let b0 = b[0] as int;
        let b1 = if b.len() > 1 { b[1] as int } else { 0 };
        let b2 = if b.len() > 2 { b[2] as int } else { 0 };
        let c0 = b64_digit(b0 / 4);
        let c1 = b64_digit((b0 % 4) * 16 + b1 / 16);
        let c2 = b64_digit((b1 % 16) * 4 + b2 / 64);
        let c3 = b64_digit(b2 % 64);
        if b.len() == 1 {
            seq![c0, c1, '=', '=']
        } else if b.len() == 2 {
            seq![c0, c1, c2, '=']
        } else {
            seq![c0, c1, c2, c3] + base64(b.skip(3))
        }
    }
}

/// `base64::engine::general_purpose::STANDARD.encode(bytes)`.
///
/// Trusted: the standard alphabet with padding, as the crate documents it.
#[verifier::external_body]
pub fn base64_encode(bytes: &[u8]) -> (r: String)
    ensures
        r@ == base64(bytes@),
{
    base64::Engine::encode(&base64::engine::general_purpose::STANDARD, bytes)
}

/// The bytes `base64::engine::general_purpose::STANDARD.decode` reads from
/// the text, or its error's text.
pub uninterp spec fn base64_bytes(text: Seq<char>) -> Result<Seq<u8>, Seq<char>>;

/// `base64::engine::general_purpose::STANDARD.decode(text)`.
///
/// Trusted: the decoding is named (`base64_bytes`); the crate's canonical
/// encoding decodes back to the bytes it encodes.
#[verifier::external_body]
pub fn base64_decode(text: &str) -> (r: Result<Vec<u8>, String>)
    ensures
        match r {
            Ok(b) => base64_bytes(text@) == Ok::<Seq<u8>, Seq<char>>(b@) && forall|x: Seq<u8>|
                text@ == base64(x) ==> x == b@,
            Err(e) => base64_bytes(text@) == Err::<Seq<u8>, Seq<char>>(e@) && forall|x: Seq<u8>|
                text@ != base64(x),
        },
{
    base64::Engine::decode(&base64::engine::general_purpose::STANDARD, text).map_err(|e| e.to_string())
}

} // verus!
