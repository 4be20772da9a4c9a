//! Lexical classes of HTTP tokens, stated over the UTF-8 bytes of the text,
//! and trusted checks that delegate the actual parsing to the transport
//! library's own parsers.

use vstd::prelude::*;
use vstd::utf8::encode_utf8;

verus! {

/// RFC 9110 `tchar`: the characters allowed in an HTTP token
/// (`! # $ % & ' * + - . ^ _ \` | ~`, digits, and letters).
pub open spec fn is_tchar_byte(b: u8) -> bool {
    ||| b == 33
    ||| 35 <= b <= 39
    ||| b == 42
    ||| b == 43
    ||| b == 45
    ||| b == 46
    ||| 48 <= b <= 57
    ||| 65 <= b <= 90
    ||| 94 <= b <= 122
    ||| b == 124
    ||| b == 126
}

/// A valid HTTP method: a nonempty token.
pub open spec fn spec_method_ok(bytes: Seq<u8>) -> bool {
    bytes.len() > 0 && forall|i: int| 0 <= i < bytes.len() ==> is_tchar_byte(#[trigger] bytes[i])
}

/// A valid header name: a token of at most 65535 bytes (uppercase letters
/// are accepted and normalized to lowercase by the transport library).
pub open spec fn spec_header_name_ok(bytes: Seq<u8>) -> bool {
    1 <= bytes.len() <= 65535 && forall|i: int|
        0 <= i < bytes.len() ==> is_tchar_byte(#[trigger] bytes[i])
}

/// A byte allowed in a header value: anything from space upward except
/// DEL (127), plus horizontal tab.
pub open spec fn is_header_value_byte(b: u8) -> bool {
    (b >= 32 && b != 127) || b == 9
}

/// A valid header value: every byte allowed, the empty value included.
pub open spec fn spec_header_value_ok(bytes: Seq<u8>) -> bool {
    forall|i: int| 0 <= i < bytes.len() ==> is_header_value_byte(#[trigger] bytes[i])
}

/// Relies on `http::Method::from_bytes` (the parser behind
/// `reqwest::Method`): it accepts exactly the nonempty byte strings made of
/// RFC 9110 token characters.
#[verifier::external_body]
pub(crate) fn method_token_ok(s: &str) -> (r: bool)
    ensures
        r == spec_method_ok(encode_utf8(s@)),
{
    http::Method::from_bytes(s.as_bytes()).is_ok()
}

/// Relies on `http::header::HeaderName::from_bytes`: it accepts exactly the
/// token strings of 1 to 65535 bytes, folding uppercase to lowercase.
#[verifier::external_body]
pub(crate) fn header_name_ok(s: &str) -> (r: bool)
    ensures
        r == spec_header_name_ok(encode_utf8(s@)),
{
    http::header::HeaderName::from_bytes(s.as_bytes()).is_ok()
}

/// Relies on `http::header::HeaderValue::from_str`: it accepts exactly the
/// strings whose bytes are all at least 32 and not 127, or horizontal tab.
#[verifier::external_body]
pub(crate) fn header_value_ok(s: &str) -> (r: bool)
    ensures
        r == spec_header_value_ok(encode_utf8(s@)),
{
    http::header::HeaderValue::from_str(s).is_ok()
}

} // verus!
