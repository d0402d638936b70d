//! Screening of requests for NUL characters, which the database's text columns refuse: in
//! the percent-decoded path, as a raw byte of the body, and inside the strings of a JSON
//! body. The decisions are made here; reading the request and parsing its body are done by
//! the server around them.

use vstd::prelude::*;
use vstd::string::*;
use vstd::utf8::{decode_utf8, encode_utf8, valid_utf8};

use crate::json::{JsonValue, has_nul, json_contains_null_byte};

verus! {

/// Largest request body, in bytes, that is read.
pub const MAX_BODY_BYTES: usize = 1048576;

/// Why a request is refused.
#[derive(Debug, Clone, Copy, PartialEq, Eq, Structural)]
pub enum Rejection {
    /// The decoded path holds a NUL character.
    NullInPath,
    /// The body is larger than the limit.
    BodyTooLarge,
    /// The body holds a NUL byte, or a JSON string of it holds a NUL character.
    NullInBody,
}

impl Rejection {
    /// The HTTP status of the refusal: 413 for an oversized body, 400 otherwise.
    pub fn status(&self) -> (r: u16)
        ensures
            r == (if *self == Rejection::BodyTooLarge {
                413u16
            } else {
                400u16
            }),
    {
        match self {
            Rejection::BodyTooLarge => 413,
            _ => 400,
        }
    }

    /// The message of the refusal.
    pub fn message(&self) -> (r: String)
        ensures
            r@ == match *self {
                Rejection::NullInPath => "request path must not contain null bytes"@,
                Rejection::BodyTooLarge => "request body too large"@,
                Rejection::NullInBody => "request body must not contain null bytes"@,
            },
    {
        match self {
            Rejection::NullInPath => String::from_str("request path must not contain null bytes"),
            Rejection::BodyTooLarge => String::from_str("request body too large"),
            Rejection::NullInBody => String::from_str("request body must not contain null bytes"),
        }
    }
}

/// The value of a hexadecimal digit byte, in either case.
pub open spec fn hex_value(b: u8) -> Option<u8> {
    if 48 <= b <= 57 {
        Some((b - 48) as u8)
    } else if 97 <= b <= 102 {
        Some((b - 87) as u8)
    } else if 65 <= b <= 70 {
        Some((b - 55) as u8)
    } else {
        None
    }
}

/// Percent-decoding: each `%` followed by two hexadecimal digits becomes the byte they
/// spell; every other byte, a `%` without two digits after it included, stays as it is.
pub open spec fn percent_decoded(bytes: Seq<u8>) -> Seq<u8>
    decreases bytes.len(),
{
    if bytes.len() == 0 {
        Seq::empty()
    } else if bytes[0] == 37 && bytes.len() >= 3 && hex_value(bytes[1]) is Some && hex_value(
        bytes[2],
    ) is Some {
        seq![(hex_value(bytes[1])->0 * 16 + hex_value(bytes[2])->0) as u8] + percent_decoded(
            bytes.skip(3),
        )
    } else {
        seq![bytes[0]] + percent_decoded(bytes.skip(1))
    }
}

/// `percent_encoding::percent_decode_str` followed by `PercentDecode::decode_utf8`: the
/// path's bytes percent-decoded, read as UTF-8 when they are valid UTF-8. What is stated of
/// it is what the crate's source does: each `%` and two hexadecimal digits give one byte,
/// other bytes are kept, and the result is `None` exactly when the decoded bytes are not
/// valid UTF-8.
#[verifier::external_body]
fn percent_decode_utf8(path: &str) -> (r: Option<String>)
    ensures
        r is Some <==> valid_utf8(percent_decoded(encode_utf8(path@))),
        r matches Some(s) ==> s@ == decode_utf8(percent_decoded(encode_utf8(path@))),
{
    percent_encoding::percent_decode_str(path).decode_utf8().ok().map(|s| s.into_owned())
}

/// Whether the path, percent-decoded and read as UTF-8, holds a NUL character (a path that is
/// not valid UTF-8 once decoded is let through here).
pub open spec fn path_has_nul(path: Seq<char>) -> bool {
    let decoded = percent_decoded(encode_utf8(path));
    valid_utf8(decoded) && decode_utf8(decoded).contains('\0')
}

fn contains_nul_char(s: &str) -> (r: bool)
    ensures
        r == s@.contains('\0'),
{
    let cs = crate::text::chars_of(s);
    let n = cs.len();
    let mut i: usize = 0;
    while i < n
        invariant
            cs@ == s@,
            n == s@.len(),
            0 <= i <= n,
            forall|k: int| 0 <= k < i ==> s@[k] != '\0',
        decreases n - i,
    {
        if cs[i] == '\0' {
            assert(s@[i as int] == '\0');
            return true;
        }
        i = i + 1;
    }
    false
}

/// Screens the request path: refused when its percent-decoded text holds a NUL character.
pub fn screen_path(path: &str) -> (r: Option<Rejection>)
    ensures
        r is Some <==> path_has_nul(path@),
        r matches Some(x) ==> x == Rejection::NullInPath,
{
    match percent_decode_utf8(path) {
        Some(decoded) => {
            if contains_nul_char(decoded.as_str()) {
                Some(Rejection::NullInPath)
            } else {
                None
            }
        },
        None => None,
    }
}

/// What to do with the body after the first look.
#[derive(Debug, Clone, Copy, PartialEq, Eq, Structural)]
pub enum BodyCheck {
    /// Refuse the request.
    Reject(Rejection),
    /// Parse the body as JSON and screen the value with `screen_json_body`.
    ParseJson,
    /// Let the request through.
    Pass,
}

/// Whether a header value is text as HTTP reads it: visible ASCII characters and tabs only.
pub open spec fn is_header_text(bytes: Seq<u8>) -> bool {
    forall|k: int| 0 <= k < bytes.len() ==> (32 <= #[trigger] bytes[k] < 127 || bytes[k] == 9)
}

/// Whether the content type declares JSON: a text header value that begins with
/// `application/json`.
pub open spec fn declares_json(content_type: Option<Seq<u8>>) -> bool {
    match content_type {
        Some(v) => is_header_text(v) && encode_utf8("application/json"@).is_prefix_of(v),
        None => false,
    }
}

fn header_is_text(bytes: &[u8]) -> (r: bool)
    ensures
        r == is_header_text(bytes@),
{
    let mut i: usize = 0;
    while i < bytes.len()
        invariant
            0 <= i <= bytes@.len(),
            forall|k: int| 0 <= k < i ==> (32 <= #[trigger] bytes@[k] < 127 || bytes@[k] == 9),
        decreases bytes.len() - i,
    {
        let b = bytes[i];
        if !((32 <= b && b < 127) || b == 9) {
            return false;
        }
        i = i + 1;
    }
    true
}

fn bytes_start_with(bytes: &[u8], prefix: &[u8]) -> (r: bool)
    ensures
        r == prefix@.is_prefix_of(bytes@),
{
    if prefix.len() > bytes.len() {
        return false;
    }
    let mut i: usize = 0;
    while i < prefix.len()
        invariant
            prefix@.len() <= bytes@.len(),
            0 <= i <= prefix@.len(),
            forall|k: int| 0 <= k < i ==> prefix@[k] == bytes@[k],
        decreases prefix.len() - i,
    {
        if prefix[i] != bytes[i] {
            return false;
        }
        i = i + 1;
    }
    true
}

fn has_zero_byte(bytes: &[u8]) -> (r: bool)
    ensures
        r == bytes@.contains(0u8),
{
    let mut i: usize = 0;
    while i < bytes.len()
        invariant
            0 <= i <= bytes@.len(),
            forall|k: int| 0 <= k < i ==> bytes@[k] != 0,
        decreases bytes.len() - i,
    {
        if bytes[i] == 0 {
            assert(bytes@[i as int] == 0);
            return true;
        }
        i = i + 1;
    }
    false
}

/// The first look at a body: `None` when it was larger than the limit. A body over the limit
/// is refused as too large; a raw NUL byte is refused; a non-empty body whose content type
/// declares JSON is to be parsed; any other body passes.
pub open spec fn body_check_of(body: Option<Seq<u8>>, content_type: Option<Seq<u8>>) -> BodyCheck {
    match body {
        None => BodyCheck::Reject(Rejection::BodyTooLarge),
        Some(b) => if b.contains(0u8) {
            BodyCheck::Reject(Rejection::NullInBody)
        } else if declares_json(content_type) && b.len() > 0 {
            BodyCheck::ParseJson
        } else {
            BodyCheck::Pass
        },
    }
}

/// Takes the first look at a body (`None` when it could not be read within the limit) and
/// the raw `Content-Type` header value, if any.
pub fn screen_body(body: Option<&[u8]>, content_type: Option<&[u8]>) -> (r: BodyCheck)
    ensures
        r == body_check_of(
            match body {
                Some(b) => Some(b@),
                None => None,
            },
            match content_type {
                Some(v) => Some(v@),
                None => None,
            },
        ),
{
    let b = match body {
        None => {
            return BodyCheck::Reject(Rejection::BodyTooLarge);
        },
        Some(b) => b,
    };
    if has_zero_byte(b) {
        return BodyCheck::Reject(Rejection::NullInBody);
    }
    let is_json = match content_type {
        Some(v) => {
            let prefix = "application/json".as_bytes();
            header_is_text(v) && bytes_start_with(v, prefix)
        },
        None => false,
    };
    if is_json && b.len() > 0 {
        BodyCheck::ParseJson
    } else {
        BodyCheck::Pass
    }
}

/// Screens a JSON body once parsed (`None` when it was not valid JSON, which is let through):
/// refused when a string in it, at any depth, holds a NUL character.
pub fn screen_json_body(parsed: Option<&JsonValue>) -> (r: Option<Rejection>)
    ensures
        r is Some <==> (parsed matches Some(v) && has_nul(*v)),
        r matches Some(x) ==> x == Rejection::NullInBody,
{
    match parsed {
        Some(v) => {
            if json_contains_null_byte(v) {
                Some(Rejection::NullInBody)
            } else {
                None
            }
        },
        None => None,
    }
}

} // verus!
