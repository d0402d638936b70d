//! What a tool call carries in its HTTP headers: the strategy it acts for (`x-strategy-id`,
//! required) and the execution it belongs to (`x-execution-id`, optional, of the form
//! `{a2a_task_id}:{step_id}`). Header values arrive as raw bytes.

use vstd::prelude::*;
use vstd::string::*;
use vstd::utf8::{
    decode_first_codepoint, decode_utf8, pop_first_scalar,
    valid_first_scalar, valid_utf8,
};

use crate::error::{ErrorKind, ToolError, invalid_params};
use crate::screening::is_header_text;
use crate::text::{trim_str, trimmed};

verus! {

/// What `uuid::Uuid::parse_str` gives for a text, as the 128-bit value of the UUID.
pub uninterp spec fn uuid_value(text: Seq<char>) -> Option<u128>;

/// `uuid::Uuid::parse_str`, with the parsed UUID taken as its 128-bit value
/// (`Uuid::as_u128`). What is stated of it: the answer is a function of the text alone.
#[verifier::external_body]
fn parse_uuid(text: &str) -> (r: Option<u128>)
    ensures
        r == uuid_value(text@),
{
    uuid::Uuid::parse_str(text).ok().map(|u| u.as_u128())
}

/// `std::str::from_utf8`, copied into a `String`: the bytes read as UTF-8, when they are
/// valid UTF-8, as the standard library documents it.
#[verifier::external_body]
fn utf8_text(bytes: &[u8]) -> (r: Option<String>)
    ensures
        r is Some <==> valid_utf8(bytes@),
        r matches Some(s) ==> s@ == decode_utf8(bytes@),
{
    std::str::from_utf8(bytes).ok().map(|s| s.to_string())
}

/// The characters of ASCII bytes, one for each byte.
pub open spec fn ascii_chars(bytes: Seq<u8>) -> Seq<char> {
    Seq::new(bytes.len(), |k: int| bytes[k] as char)
}

/// Bytes that are all ASCII are valid UTF-8 and read as one character for each byte.
pub proof fn lemma_ascii_utf8(bytes: Seq<u8>)
    requires
        forall|k: int| 0 <= k < bytes.len() ==> #[trigger] bytes[k] < 128,
    ensures
        valid_utf8(bytes),
        decode_utf8(bytes) == ascii_chars(bytes),
    decreases bytes.len(),
{
    if bytes.len() > 0 {
        let b0 = bytes[0];
        assert(b0 < 128);
        assert((b0 & 0x7F) as u32 == b0 as u32) by (bit_vector)
            requires
                b0 < 128,
        ;
        assert(decode_first_codepoint(bytes) == b0 as u32);
        assert(valid_first_scalar(bytes));
        let rest = pop_first_scalar(bytes);
        assert(rest =~= bytes.subrange(1, bytes.len() as int));
        assert forall|k: int| 0 <= k < rest.len() implies #[trigger] rest[k] < 128 by {
            assert(rest[k] == bytes[k + 1]);
        }
        lemma_ascii_utf8(rest);
        assert(decode_utf8(bytes) =~= ascii_chars(bytes));
    }
}

/// The text of a header value as HTTP reads it: `None` unless every byte is a visible ASCII
/// character or a tab; then the characters of the bytes.
pub open spec fn header_text(bytes: Seq<u8>) -> Option<Seq<char>> {
    if is_header_text(bytes) {
        Some(ascii_chars(bytes))
    } else {
        None
    }
}

fn header_value_text(bytes: &[u8]) -> (r: Option<String>)
    ensures
        match r {
            Some(s) => header_text(bytes@) == Some(s@),
            None => header_text(bytes@) is None,
        },
{
    let mut i: usize = 0;
    while i < bytes.len()
        invariant
            0 <= i <= bytes@.len(),
            forall|k: int| 0 <= k < i ==> (32 <= #[trigger] bytes@[k] < 127 || bytes@[k] == 9),
        decreases bytes.len() - i,
    {
        let b = bytes[i];
        if !((32 <= b && b < 127) || b == 9) {
            return None;
        }
        i = i + 1;
    }
    proof {
        assert forall|k: int| 0 <= k < bytes@.len() implies #[trigger] bytes@[k] < 128 by {
            assert(32 <= bytes@[k] < 127 || bytes@[k] == 9);
        }
        lemma_ascii_utf8(bytes@);
    }
    utf8_text(bytes)
}

/// The strategy named by the `x-strategy-id` header value, or why it is refused: missing, not
/// header text, or not a UUID once trimmed (the message quotes the untrimmed value).
pub open spec fn strategy_id_of(header: Option<Seq<u8>>) -> Result<u128, Seq<char>> {
    match header {
        None => Err("missing x-strategy-id header on strategy mcp request"@),
        Some(bytes) => match header_text(bytes) {
            None => Err("x-strategy-id header is not valid ASCII"@),
            Some(raw) => match uuid_value(trimmed(raw)) {
                Some(id) => Ok(id),
                None => Err("x-strategy-id header is not a valid uuid: "@ + raw),
            },
        },
    }
}

/// Reads the strategy a call acts for from the raw `x-strategy-id` header value.
pub fn strategy_id_from_headers(header: Option<&[u8]>) -> (r: Result<u128, ToolError>)
    ensures
        ({
            let expected = strategy_id_of(
                match header {
                    Some(b) => Some(b@),
                    None => None,
                },
            );
            match r {
                Ok(id) => expected == Ok::<u128, Seq<char>>(id),
                Err(e) => e.kind == ErrorKind::InvalidParams && expected == Err::<u128, Seq<char>>(
                    e.message@,
                ),
            }
        }),
{
    let bytes = match header {
        None => {
            return Err(
                invalid_params(String::from_str("missing x-strategy-id header on strategy mcp request")),
            );
        },
        Some(b) => b,
    };
    let raw = match header_value_text(bytes) {
        None => {
            return Err(invalid_params(String::from_str("x-strategy-id header is not valid ASCII")));
        },
        Some(raw) => raw,
    };
    match parse_uuid(trim_str(raw.as_str())) {
        Some(id) => Ok(id),
        None => {
            let mut m = String::from_str("x-strategy-id header is not a valid uuid: ");
            m.append(raw.as_str());
            Err(invalid_params(m))
        },
    }
}

/// The execution id carried by the optional `x-execution-id` header value: its trimmed text,
/// or none when the header is missing, not header text, or blank.
pub open spec fn execution_id_of(header: Option<Seq<u8>>) -> Option<Seq<char>> {
    match header {
        None => None,
        Some(bytes) => match header_text(bytes) {
            None => None,
            Some(raw) => if trimmed(raw).len() == 0 {
                None
            } else {
                Some(trimmed(raw))
            },
        },
    }
}

/// Reads the execution id from the raw `x-execution-id` header value; it is optional, so any
/// unusable value is simply none.
pub fn execution_id_from_headers(header: Option<&[u8]>) -> (r: Option<String>)
    ensures
        ({
            let expected = execution_id_of(
                match header {
                    Some(b) => Some(b@),
                    None => None,
                },
            );
            match r {
                Some(s) => expected == Some(s@),
                None => expected is None,
            }
        }),
{
    let bytes = match header {
        None => {
            return None;
        },
        Some(b) => b,
    };
    let raw = match header_value_text(bytes) {
        None => {
            return None;
        },
        Some(raw) => raw,
    };
    let t = trim_str(raw.as_str());
    if t.unicode_len() == 0 {
        None
    } else {
        Some(String::from_str(t))
    }
}

/// The position of the last `:` in the text, if there is one.
pub open spec fn last_colon(s: Seq<char>) -> Option<int>
    decreases s.len(),
{
    if s.len() == 0 {
        None
    } else if s.last() == ':' {
        Some(s.len() - 1)
    } else {
        last_colon(s.drop_last())
    }
}

proof fn lemma_last_colon(s: Seq<char>, i: int)
    requires
        0 <= i <= s.len(),
        forall|k: int| i <= k < s.len() ==> s[k] != ':',
        i == 0 || s[i - 1] == ':',
    ensures
        last_colon(s) == (if i == 0 {
            None::<int>
        } else {
            Some(i - 1)
        }),
    decreases s.len(),
{
    if s.len() > 0 && s.len() > i {
        let t = s.drop_last();
        assert forall|k: int| i <= k < t.len() implies t[k] != ':' by {
            assert(t[k] == s[k]);
        }
        if i > 0 {
            assert(t[i - 1] == s[i - 1]);
        }
        lemma_last_colon(t, i);
    }
}

fn find_last_colon(s: &str) -> (r: Option<usize>)
    ensures
        match r {
            Some(i) => last_colon(s@) == Some(i as int) && i < s@.len(),
            None => last_colon(s@) is None,
        },
{
    let cs = crate::text::chars_of(s);
    let n = cs.len();
    let mut i: usize = n;
    while i > 0 && cs[i - 1] != ':'
        invariant
            cs@ == s@,
            n == s@.len(),
            0 <= i <= n,
            forall|k: int| i <= k < n ==> s@[k] != ':',
        decreases i,
    {
        i = i - 1;
    }
    proof {
        lemma_last_colon(s@, i as int);
    }
    if i == 0 {
        None
    } else {
        Some(i - 1)
    }
}

/// The step id of an execution id `{a2a_task_id}:{step_id}`: the text after its last `:`,
/// parsed as a UUID.
pub open spec fn execution_step_id_of(execution_id: Seq<char>) -> Option<u128> {
    match last_colon(execution_id) {
        None => None,
        Some(i) => uuid_value(execution_id.subrange(i + 1, execution_id.len() as int)),
    }
}

/// Reads the step id from an execution id; none without a `:` or when the rest is not a UUID.
pub fn execution_step_id_from_execution_id(execution_id: &str) -> (r: Option<u128>)
    ensures
        r == execution_step_id_of(execution_id@),
{
    match find_last_colon(execution_id) {
        None => None,
        Some(i) => {
            let n = execution_id.unicode_len();
            parse_uuid(execution_id.substring_char(i + 1, n))
        },
    }
}

/// The task part of an execution id `{a2a_task_id}:{step_id}`: the text before its last `:`,
/// when it is not empty.
pub open spec fn execution_task_id_of(execution_id: Seq<char>) -> Option<Seq<char>> {
    match last_colon(execution_id) {
        None => None,
        Some(i) => if i == 0 {
            None
        } else {
            Some(execution_id.subrange(0, i))
        },
    }
}

/// Reads the task part of an execution id; none without a `:` or when the part is empty.
pub fn execution_task_id_from_execution_id(execution_id: &str) -> (r: Option<&str>)
    ensures
        match r {
            Some(t) => execution_task_id_of(execution_id@) == Some(t@),
            None => execution_task_id_of(execution_id@) is None,
        },
{
    match find_last_colon(execution_id) {
        None => None,
        Some(i) => {
            if i == 0 {
                None
            } else {
                Some(execution_id.substring_char(0, i))
            }
        },
    }
}

proof fn lemma_last_colon_found(s: Seq<char>)
    ensures
        last_colon(s) matches Some(i) ==> 0 <= i < s.len() && s[i] == ':' && forall|k: int|
            i < k < s.len() ==> s[k] != ':',
    decreases s.len(),
{
    if s.len() > 0 && s.last() != ':' {
        let t = s.drop_last();
        lemma_last_colon_found(t);
        match last_colon(t) {
            Some(i) => {
                assert forall|k: int| i < k < s.len() implies s[k] != ':' by {
                    if k < t.len() {
                        assert(t[k] == s[k]);
                    }
                }
                assert(t[i] == s[i]);
            },
            None => {},
        }
    }
}

/// The step part of an execution id: the text after its last `:`, or the whole id without
/// one.
pub open spec fn execution_step_text(execution_id: Seq<char>) -> Seq<char> {
    match last_colon(execution_id) {
        Some(i) => execution_id.subrange(i + 1, execution_id.len() as int),
        None => execution_id,
    }
}

/// The two parts of an execution id put back together give the id: when the task part is
/// read, the id is that part, a `:`, and a step part that holds no `:`, which is the text the
/// step id is parsed from.
pub proof fn law_execution_id_parts(execution_id: Seq<char>)
    ensures
        execution_task_id_of(execution_id) matches Some(task) ==> {
            let step = execution_step_text(execution_id);
            &&& execution_id == task + seq![':'] + step
            &&& !step.contains(':')
            &&& execution_step_id_of(execution_id) == uuid_value(step)
        },
{
    lemma_last_colon_found(execution_id);
    if let Some(i) = last_colon(execution_id) {
        if i != 0 {
            let task = execution_id.subrange(0, i);
            let step = execution_id.subrange(i + 1, execution_id.len() as int);
            assert(execution_id =~= task + seq![':'] + step);
            assert(!step.contains(':')) by {
                if step.contains(':') {
                    let k = choose|k: int| 0 <= k < step.len() && step[k] == ':';
                    assert(step[k] == execution_id[k + i + 1]);
                }
            }
        }
    }
}

} // verus!
