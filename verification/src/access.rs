//! Which strategy may touch which record: a note or an annotation belongs to one strategy;
//! a hypothesis belongs to one strategy or to the whole account. Records are identified by
//! UUIDs held as their 128-bit values.

use vstd::prelude::*;
use vstd::string::*;

use crate::error::{ErrorKind, ToolError, internal_error, invalid_params, not_found};

verus! {

/// The lower-case hexadecimal digits, by value.
pub open spec fn hex_digits() -> Seq<char> {
    seq!['0', '1', '2', '3', '4', '5', '6', '7', '8', '9', 'a', 'b', 'c', 'd', 'e', 'f']
}

/// The last `n` hexadecimal digits of `x`, most significant first, with leading zeros.
pub open spec fn hex_text(x: nat, n: nat) -> Seq<char>
    decreases n,
{
    if n == 0 {
        Seq::empty()
    } else {
        hex_text(x / 16, (n - 1) as nat).push(hex_digits()[(x % 16) as int])
    }
}

/// The text of a UUID as `uuid::Uuid`'s `Display` gives it: its 32 hexadecimal digits in
/// lower case, most significant first, in groups of 8, 4, 4, 4 and 12 joined by `-`.
pub open spec fn uuid_text_of(id: u128) -> Seq<char> {
    let h = hex_text(id as nat, 32);
    h.subrange(0, 8) + seq!['-'] + h.subrange(8, 12) + seq!['-'] + h.subrange(12, 16) + seq!['-']
        + h.subrange(16, 20) + seq!['-'] + h.subrange(20, 32)
}

proof fn lemma_hex_text_len(x: nat, n: nat)
    ensures
        hex_text(x, n).len() == n,
    decreases n,
{
    if n > 0 {
        lemma_hex_text_len(x / 16, (n - 1) as nat);
    }
}

fn hex_digit_str(d: u128) -> (r: &'static str)
    requires
        d < 16,
    ensures
        r@ == seq![hex_digits()[d as int]],
{
    let digits = "0123456789abcdef";
    proof {
        reveal_strlit("0123456789abcdef");
        assert(digits@ =~= hex_digits());
    }
    digits.substring_char(d as usize, (d + 1) as usize)
}

fn hex_string(x: u128, n: u32) -> (r: String)
    ensures
        r@ == hex_text(x as nat, n as nat),
    decreases n,
{
    if n == 0 {
        String::new()
    } else {
        let mut r = hex_string(x / 16, n - 1);
        r.append(hex_digit_str(x % 16));
        r
    }
}

/// Writes a UUID in its hyphenated lower-case form.
pub(crate) fn uuid_text(id: u128) -> (r: String)
    ensures
        r@ == uuid_text_of(id),
{
    let h = hex_string(id, 32);
    proof {
        lemma_hex_text_len(id as nat, 32);
    }
    let hs = h.as_str();
    let mut r = String::from_str(hs.substring_char(0, 8));
    r.append("-");
    r.append(hs.substring_char(8, 12));
    r.append("-");
    r.append(hs.substring_char(12, 16));
    r.append("-");
    r.append(hs.substring_char(16, 20));
    r.append("-");
    r.append(hs.substring_char(20, 32));
    proof {
        reveal_strlit("-");
        assert(r@ =~= uuid_text_of(id));
    }
    r
}

/// A kind of record that belongs to one strategy.
#[derive(Debug, Clone, Copy, PartialEq, Eq, Structural)]
pub enum RecordKind {
    Note,
    Annotation,
}

/// The name of a record kind in messages.
pub open spec fn kind_name(kind: RecordKind) -> Seq<char> {
    match kind {
        RecordKind::Note => "note"@,
        RecordKind::Annotation => "annotation"@,
    }
}

fn kind_str(kind: RecordKind) -> (r: &'static str)
    ensures
        r@ == kind_name(kind),
{
    match kind {
        RecordKind::Note => "note",
        RecordKind::Annotation => "annotation",
    }
}

/// The refusal of access to a record, if any: a missing record is not found; one that does
/// not belong to the expected strategy is forbidden.
pub open spec fn ownership_error(kind: RecordKind, id: u128, found: Option<Option<u128>>, expected: u128) -> Option<
    (ErrorKind, Seq<char>),
> {
    match found {
        None => Some((ErrorKind::ResourceNotFound, kind_name(kind) + " not found"@)),
        Some(owner) => if owner == Some(expected) {
            None
        } else {
            Some(
                (
                    ErrorKind::InvalidParams,
                    "forbidden: "@ + kind_name(kind) + " "@ + uuid_text_of(id)
                        + " belongs to another strategy"@,
                ),
            )
        },
    }
}

/// Checks that a record may be touched by a strategy: `found` is `None` when no record has
/// the id, else the strategy the record belongs to.
pub fn check_owned(kind: RecordKind, id: u128, found: Option<Option<u128>>, expected: u128) -> (r: Result<
    (),
    ToolError,
>)
    ensures
        r is Ok <==> ownership_error(kind, id, found, expected) is None,
        r matches Err(e) ==> ownership_error(kind, id, found, expected) == Some((e.kind, e.message@)),
{
    match found {
        None => {
            let mut m = String::from_str(kind_str(kind));
            m.append(" not found");
            Err(not_found(m))
        },
        Some(owner) => {
            let belongs = match owner {
                Some(o) => o == expected,
                None => false,
            };
            if belongs {
                Ok(())
            } else {
                let mut m = String::from_str("forbidden: ");
                m.append(kind_str(kind));
                m.append(" ");
                let t = uuid_text(id);
                m.append(t.as_str());
                m.append(" belongs to another strategy");
                Err(invalid_params(m))
            }
        },
    }
}

/// The refusal of access to a hypothesis, if any: a missing one is not found; one that belongs
/// to another strategy is forbidden; one of the whole account is visible to every strategy.
pub open spec fn hypothesis_access_error(id: u128, found: Option<Option<u128>>, session: u128) -> Option<
    (ErrorKind, Seq<char>),
> {
    match found {
        None => Some((ErrorKind::ResourceNotFound, "hypothesis not found"@)),
        Some(Some(owner)) => if owner != session {
            Some(
                (
                    ErrorKind::InvalidParams,
                    "forbidden: hypothesis "@ + uuid_text_of(id) + " belongs to another strategy"@,
                ),
            )
        } else {
            None
        },
        Some(None) => None,
    }
}

/// Checks that a hypothesis is visible to a strategy: `found` is `None` when no hypothesis has
/// the id, else its owning strategy (`None` for one of the whole account).
pub fn check_hypothesis_visible(id: u128, found: Option<Option<u128>>, session: u128) -> (r: Result<
    (),
    ToolError,
>)
    ensures
        r is Ok <==> hypothesis_access_error(id, found, session) is None,
        r matches Err(e) ==> hypothesis_access_error(id, found, session) == Some((e.kind, e.message@)),
{
    match found {
        None => Err(not_found(String::from_str("hypothesis not found"))),
        Some(Some(owner)) => {
            if owner != session {
                let mut m = String::from_str("forbidden: hypothesis ");
                let t = uuid_text(id);
                m.append(t.as_str());
                m.append(" belongs to another strategy");
                Err(invalid_params(m))
            } else {
                Ok(())
            }
        },
        Some(None) => Ok(()),
    }
}

/// Checks that the strategy a write is made for exists.
pub fn check_strategy_exists(id: u128, exists: bool) -> (r: Result<(), ToolError>)
    ensures
        r is Ok <==> exists,
        r matches Err(e) ==> e.kind == ErrorKind::InvalidParams && e.message@ == "strategy "@
            + uuid_text_of(id) + " not found"@,
{
    if exists {
        Ok(())
    } else {
        let mut m = String::from_str("strategy ");
        let t = uuid_text(id);
        m.append(t.as_str());
        m.append(" not found");
        Err(invalid_params(m))
    }
}

/// Checks that a stock named by a write exists.
pub fn check_stock_exists(id: &str, exists: bool) -> (r: Result<(), ToolError>)
    ensures
        r is Ok <==> exists,
        r matches Err(e) ==> e.kind == ErrorKind::InvalidParams && e.message@ == "stock "@ + id@
            + " not found"@,
{
    if exists {
        Ok(())
    } else {
        let mut m = String::from_str("stock ");
        m.append(id);
        m.append(" not found");
        Err(invalid_params(m))
    }
}

/// The strategy of a record read under a strategy's scope, which must be recorded: a record
/// without one is an internal error rather than an answer that names no strategy.
pub fn scoped_strategy_id(kind: RecordKind, id: u128, strategy_id: Option<u128>) -> (r: Result<
    u128,
    ToolError,
>)
    ensures
        strategy_id matches Some(s) ==> r == Ok::<u128, ToolError>(s),
        strategy_id is None ==> (r matches Err(e) && e.kind == ErrorKind::InternalError && e.message@
            == kind_name(kind) + " "@ + uuid_text_of(id) + " has no strategy_id despite session scoping"@),
{
    match strategy_id {
        Some(s) => Ok(s),
        None => {
            let mut m = String::from_str(kind_str(kind));
            m.append(" ");
            let t = uuid_text(id);
            m.append(t.as_str());
            m.append(" has no strategy_id despite session scoping");
            Err(internal_error(m))
        },
    }
}

} // verus!
