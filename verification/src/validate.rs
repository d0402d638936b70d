//! Parameter checks shared by the tools: stock codes, code ranges and the limits on work
//! handed to the execution pods.

use vstd::prelude::*;
use vstd::string::*;

use crate::error::{ErrorKind, ToolError, invalid_params};
use crate::text::{all_ascii_digits, decimal_text, is_all_ascii_digits, u64_text};

verus! {

/// Largest timeout, in seconds, that a tool may ask of an execution pod.
pub const EXEC_MAX_TIMEOUT_SECS: u32 = 60;
/// Largest output, in bytes, that a tool may ask of an execution pod.
pub const EXEC_MAX_OUTPUT_BYTES: u32 = 1048576;
/// Largest standard input, in bytes, that a tool may hand to an execution pod.
pub const EXEC_MAX_STDIN_BYTES: usize = 262144;

/// The text that `{:?}` gives for a string slice: the slice between double quotes, with
/// quotes, backslashes and characters that are not printable escaped.
pub uninterp spec fn debug_str_text(s: Seq<char>) -> Seq<char>;

/// Whether every character is printable ASCII (space to `~`) other than `"` and `\`.
pub open spec fn plain_debug_text(s: Seq<char>) -> bool {
    forall|k: int|
        0 <= k < s.len() ==> (' ' <= #[trigger] s[k] <= '~' && s[k] != '"' && s[k] != '\\')
}

/// `format!("{s:?}")`: the standard `Debug` rendering of a string slice. What is stated of it:
/// it is a function of the slice alone, and a slice of printable ASCII characters other
/// than `"` and `\` comes out unchanged between two double quotes (`Debug` escapes only
/// quotes, backslashes and characters that are not printable).
#[verifier::external_body]
pub(crate) fn debug_str(s: &str) -> (r: String)
    ensures
        r@ == debug_str_text(s@),
        plain_debug_text(s@) ==> r@ == seq!['"'] + s@ + seq!['"'],
{
    format!("{s:?}")
}

/// Whether a symbol is a 4-digit stock code.
pub open spec fn is_stock_code(symbol: Seq<char>) -> bool {
    symbol.len() == 4 && all_ascii_digits(symbol)
}

/// The message with which a symbol that is not a 4-digit stock code is refused.
pub open spec fn bad_symbol_message(symbol: Seq<char>) -> Seq<char> {
    "symbol must be a 4-digit stock code, got "@ + debug_str_text(symbol)
}

/// Checks that the symbol is a 4-digit stock code (four ASCII digits).
pub fn validate_symbol(symbol: &str) -> (r: Result<(), ToolError>)
    ensures
        r is Ok <==> is_stock_code(symbol@),
        r matches Err(e) ==> e.kind == ErrorKind::InvalidParams && e.message@ == bad_symbol_message(
            symbol@,
        ),
{
    if symbol.unicode_len() == 4 && is_all_ascii_digits(symbol) {
        Ok(())
    } else {
        let mut message = String::from_str("symbol must be a 4-digit stock code, got ");
        let quoted = debug_str(symbol);
        message.append(quoted.as_str());
        proof {
            reveal_strlit("symbol must be a 4-digit stock code, got ");
        }
        Err(invalid_params(message))
    }
}

/// The inclusive range of 5-digit codes that begin with a 4-digit symbol.
pub open spec fn code_range_of(symbol: Seq<char>) -> (Seq<char>, Seq<char>) {
    (symbol.push('0'), symbol.push('9'))
}

/// The range `(symbol + "0", symbol + "9")` of stored 5-digit codes for a 4-digit symbol, so
/// that a prefix match can be written as a range condition.
pub fn code_range(symbol: &str) -> (r: (String, String))
    ensures
        (r.0@, r.1@) == code_range_of(symbol@),
{
    let mut lower = String::from_str(symbol);
    lower.append("0");
    let mut upper = String::from_str(symbol);
    upper.append("9");
    proof {
        reveal_strlit("0");
        reveal_strlit("9");
    }
    (lower, upper)
}

/// The outcome of an upper-bound check on an optional limit: `None` when it passes, else the
/// message of the refusal.
pub open spec fn exec_bound_error(name: Seq<char>, value: Option<u32>, max: u32) -> Option<
    Seq<char>,
> {
    match value {
        None => None,
        Some(v) => if v == 0 {
            Some(name + " must be > 0"@)
        } else if v > max {
            Some(name + " exceeds maximum of "@ + decimal_text(max as nat))
        } else {
            None
        },
    }
}

/// Checks an optional limit handed to an execution pod: absent passes; zero and values over
/// `max` are refused.
pub fn check_exec_upper_bound(name: &str, value: Option<u32>, max: u32) -> (r: Result<
    (),
    ToolError,
>)
    ensures
        r is Ok <==> exec_bound_error(name@, value, max) is None,
        r matches Err(e) ==> e.kind == ErrorKind::InvalidParams && Some(e.message@)
            == exec_bound_error(name@, value, max),
{
    match value {
        None => Ok(()),
        Some(v) => {
            if v == 0 {
                let mut message = String::from_str(name);
                message.append(" must be > 0");
                Err(invalid_params(message))
            } else if v > max {
                let mut message = String::from_str(name);
                message.append(" exceeds maximum of ");
                let digits = u64_text(max as u64);
                message.append(digits.as_str());
                Err(invalid_params(message))
            } else {
                Ok(())
            }
        },
    }
}

/// Lexicographic order of texts, character by character, a prefix before its extensions.
pub open spec fn lex_le(a: Seq<char>, b: Seq<char>) -> bool
    decreases a.len(),
{
    if a.len() == 0 {
        true
    } else if b.len() == 0 {
        false
    } else if a[0] != b[0] {
        a[0] < b[0]
    } else {
        lex_le(a.drop_first(), b.drop_first())
    }
}

/// The code range of a symbol selects exactly the codes that extend it by one digit: a code
/// of one digit more than the symbol, all digits, lies between the two ends of the range if
/// and only if it begins with the symbol.
pub proof fn law_code_range_selects_symbol_codes(symbol: Seq<char>, code: Seq<char>)
    requires
        all_ascii_digits(symbol),
        all_ascii_digits(code),
        code.len() == symbol.len() + 1,
    ensures
        lex_le(code_range_of(symbol).0, code) && lex_le(code, code_range_of(symbol).1)
            <==> symbol.is_prefix_of(code),
    decreases symbol.len(),
{
    let (lower, upper) = code_range_of(symbol);
    if symbol.len() == 0 {
        assert('0' <= code[0] <= '9');
        assert(lower.drop_first() =~= Seq::<char>::empty());
        assert(code.drop_first() =~= Seq::<char>::empty());
        assert(upper.drop_first() =~= Seq::<char>::empty());
        assert(lower[0] == '0');
        assert(upper[0] == '9');
        assert(lex_le(lower.drop_first(), code.drop_first()));
        assert(lex_le(code.drop_first(), upper.drop_first()));
        assert(lex_le(lower, code));
        assert(lex_le(code, upper));
        assert(symbol.is_prefix_of(code));
    } else {
        let s = symbol.drop_first();
        let c = code.drop_first();
        assert(lower.drop_first() =~= s.push('0'));
        assert(upper.drop_first() =~= s.push('9'));
        assert(lower[0] == symbol[0]);
        assert(upper[0] == symbol[0]);
        assert forall|k: int| 0 <= k < s.len() implies '0' <= #[trigger] s[k] <= '9' by {
            assert(s[k] == symbol[k + 1]);
        }
        assert forall|k: int| 0 <= k < c.len() implies '0' <= #[trigger] c[k] <= '9' by {
            assert(c[k] == code[k + 1]);
        }
        law_code_range_selects_symbol_codes(s, c);
        assert(lex_le(lower, code) == (if lower[0] != code[0] { lower[0] < code[0] } else { lex_le(s.push('0'), c) }));
        assert(lex_le(code, upper) == (if code[0] != upper[0] { code[0] < upper[0] } else { lex_le(c, s.push('9')) }));
        if symbol[0] == code[0] {
            assert(symbol.is_prefix_of(code) <==> s.is_prefix_of(c)) by {
                if s.is_prefix_of(c) {
                    assert forall|k: int| 0 <= k < symbol.len() implies symbol[k] == code[k] by {
                        if k > 0 {
                            assert(symbol[k] == s[k - 1]);
                            assert(code[k] == c[k - 1]);
                        }
                    }
                }
                if symbol.is_prefix_of(code) {
                    assert forall|k: int| 0 <= k < s.len() implies s[k] == c[k] by {
                        assert(s[k] == symbol[k + 1]);
                        assert(c[k] == code[k + 1]);
                    }
                }
            }
        } else {
            assert(!symbol.is_prefix_of(code)) by {
                assert(symbol[0] != code[0]);
            }
        }
    }
}

} // verus!
