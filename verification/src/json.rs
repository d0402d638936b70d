//! JSON values as the library reads them: numbers kept as their text, objects as their
//! members in key order.

use vstd::prelude::*;
use vstd::string::*;

verus! {

/// A JSON value. A number is held as its text as `serde_json` displays it (an integer in
/// decimal digits, a float in its shortest form with a `.` or an exponent, such as `1.5`,
/// `0.0` or `-0.0`); an object as its members in key order.
#[derive(Debug)]
pub enum JsonValue {
    Null,
    Bool(bool),
    Number(String),
    String(String),
    Array(Vec<JsonValue>),
    Object(Vec<(String, JsonValue)>),
}

/// Whether some string in the value (at any depth; object keys are not inspected) contains
/// the NUL character.
pub open spec fn has_nul(v: JsonValue) -> bool
    decreases v,
{
    match v {
        JsonValue::String(s) => s@.contains('\0'),
        JsonValue::Array(items) => exists|i: int|
            0 <= i < items@.len() && has_nul(#[trigger] items@[i]),
        JsonValue::Object(members) => exists|i: int|
            0 <= i < members@.len() && has_nul(#[trigger] members@[i].1),
        _ => false,
    }
}


fn str_has_nul(s: &str) -> (r: bool)
    ensures
        r == s@.contains('\0'),
{
    let cs = crate::text::chars_of(s);
    let mut i: usize = 0;
    while i < cs.len()
        invariant
            cs@ == s@,
            0 <= i <= cs@.len(),
            forall|k: int| 0 <= k < i ==> s@[k] != '\0',
        decreases cs.len() - i,
    {
        if cs[i] == '\0' {
            assert(s@[i as int] == '\0');
            return true;
        }
        i = i + 1;
    }
    false
}

/// Whether some string in the value (at any depth) contains the NUL character.
pub fn json_contains_null_byte(value: &JsonValue) -> (r: bool)
    ensures
        r == has_nul(*value),
    decreases value,
{
    match value {
        JsonValue::String(s) => str_has_nul(s.as_str()),
        JsonValue::Array(items) => {
            let mut i: usize = 0;
            while i < items.len()
                invariant
                    0 <= i <= items@.len(),
                    forall|k: int| 0 <= k < i ==> !has_nul(#[trigger] items@[k]),
                    *value == JsonValue::Array(*items),
                decreases items.len() - i,
            {
                proof {
                    assert(decreases_to!(*value => (*value)->Array_0));
                    assert(decreases_to!(*items => items@));
                    assert(decreases_to!(items@ => items@[i as int]));
                }
                if json_contains_null_byte(&items[i]) {
                    assert(has_nul(items@[i as int]));
                    assert(has_nul(JsonValue::Array(*items))) by {
                        let whole = JsonValue::Array(*items);
                        assert(whole->Array_0@ == items@);
                        assert(decreases_to!(whole => whole->Array_0@[i as int]));
                    }
                    return true;
                }
                i = i + 1;
            }
            false
        },
        JsonValue::Object(members) => {
            let mut i: usize = 0;
            while i < members.len()
                invariant
                    0 <= i <= members@.len(),
                    forall|k: int| 0 <= k < i ==> !has_nul(#[trigger] members@[k].1),
                    *value == JsonValue::Object(*members),
                decreases members.len() - i,
            {
                proof {
                    assert(decreases_to!(*value => (*value)->Object_0));
                    assert(decreases_to!(*members => members@));
                    assert(decreases_to!(members@ => members@[i as int]));
                    assert(decreases_to!(members@[i as int] => members@[i as int].1));
                }
                if json_contains_null_byte(&members[i].1) {
                    assert(has_nul(members@[i as int].1));
                    assert(has_nul(JsonValue::Object(*members))) by {
                        let whole = JsonValue::Object(*members);
                        assert(decreases_to!(whole => whole->Object_0));
                        assert(decreases_to!(whole->Object_0 => whole->Object_0@));
                        assert(decreases_to!(whole->Object_0@ => whole->Object_0@[i as int]));
                        assert(decreases_to!(whole->Object_0@[i as int] => whole->Object_0@[i as int].1));
                    }
                    return true;
                }
                i = i + 1;
            }
            false
        },
        _ => false,
    }
}

/// The two texts of a floating-point zero.
pub open spec fn is_float_zero_text(t: Seq<char>) -> bool {
    t == "0.0"@ || t == "-0.0"@
}

/// Two number texts stand for equal numbers: the same text, or the two zeros of a float,
/// which compare equal as floating-point values. (Integers and floats never compare equal,
/// and two floats with different shortest texts are different values.)
pub open spec fn number_same(a: Seq<char>, b: Seq<char>) -> bool {
    a == b || (is_float_zero_text(a) && is_float_zero_text(b))
}

fn is_float_zero(t: &str) -> (r: bool)
    ensures
        r == is_float_zero_text(t@),
{
    crate::text::str_equal(t, "0.0") || crate::text::str_equal(t, "-0.0")
}

fn numbers_equal(a: &str, b: &str) -> (r: bool)
    ensures
        r == number_same(a@, b@),
{
    crate::text::str_equal(a, b) || (is_float_zero(a) && is_float_zero(b))
}

/// Equality of JSON values: same variant, equal numbers, same text, same items in order,
/// same members in order.
pub open spec fn json_same(a: JsonValue, b: JsonValue) -> bool
    decreases a,
{
    match (a, b) {
        (JsonValue::Null, JsonValue::Null) => true,
        (JsonValue::Bool(x), JsonValue::Bool(y)) => x == y,
        (JsonValue::Number(x), JsonValue::Number(y)) => number_same(x@, y@),
        (JsonValue::String(x), JsonValue::String(y)) => x@ == y@,
        (JsonValue::Array(x), JsonValue::Array(y)) => x@.len() == y@.len() && forall|i: int|
            0 <= i < x@.len() ==> json_same(#[trigger] x@[i], y@[i]),
        (JsonValue::Object(x), JsonValue::Object(y)) => x@.len() == y@.len() && forall|i: int|
            0 <= i < x@.len() ==> (#[trigger] x@[i]).0@ == y@[i].0@ && json_same(x@[i].1, y@[i].1),
        _ => false,
    }
}

/// Whether two JSON values are equal.
pub fn json_equal(a: &JsonValue, b: &JsonValue) -> (r: bool)
    ensures
        r == json_same(*a, *b),
    decreases a,
{
    match (a, b) {
        (JsonValue::Null, JsonValue::Null) => true,
        (JsonValue::Bool(x), JsonValue::Bool(y)) => *x == *y,
        (JsonValue::Number(x), JsonValue::Number(y)) => numbers_equal(x.as_str(), y.as_str()),
        (JsonValue::String(x), JsonValue::String(y)) => *x == *y,
        (JsonValue::Array(x), JsonValue::Array(y)) => {
            if x.len() != y.len() {
                return false;
            }
            let mut i: usize = 0;
            while i < x.len()
                invariant
                    0 <= i <= x@.len(),
                    x@.len() == y@.len(),
                    forall|k: int| 0 <= k < i ==> json_same(#[trigger] x@[k], y@[k]),
                    *a == JsonValue::Array(*x),
                    *b == JsonValue::Array(*y),
                decreases x.len() - i,
            {
                proof {
                    assert(decreases_to!(*a => (*a)->Array_0));
                    assert(decreases_to!(*x => x@));
                    assert(decreases_to!(x@ => x@[i as int]));
                }
                if !json_equal(&x[i], &y[i]) {
                    return false;
                }
                i = i + 1;
            }
            true
        },
        (JsonValue::Object(x), JsonValue::Object(y)) => {
            if x.len() != y.len() {
                return false;
            }
            let mut i: usize = 0;
            while i < x.len()
                invariant
                    0 <= i <= x@.len(),
                    x@.len() == y@.len(),
                    forall|k: int|
                        0 <= k < i ==> (#[trigger] x@[k]).0@ == y@[k].0@ && json_same(
                            x@[k].1,
                            y@[k].1,
                        ),
                    *a == JsonValue::Object(*x),
                    *b == JsonValue::Object(*y),
                decreases x.len() - i,
            {
                proof {
                    assert(decreases_to!(*a => (*a)->Object_0));
                    assert(decreases_to!(*x => x@));
                    assert(decreases_to!(x@ => x@[i as int]));
                    assert(decreases_to!(x@[i as int] => x@[i as int].1));
                }
                if !(x[i].0 == y[i].0) {
                    return false;
                }
                if !json_equal(&x[i].1, &y[i].1) {
                    return false;
                }
                i = i + 1;
            }
            true
        },
        _ => false,
    }
}

/// Every JSON value is structurally equal to itself.
pub proof fn lemma_json_same_reflexive(v: JsonValue)
    ensures
        json_same(v, v),
    decreases v,
{
    match v {
        JsonValue::Array(items) => {
            assert forall|i: int| 0 <= i < items@.len() implies json_same(
                #[trigger] items@[i],
                items@[i],
            ) by {
                assert(decreases_to!(v => v->Array_0));
                assert(decreases_to!(v->Array_0 => v->Array_0@));
                assert(decreases_to!(v->Array_0@ => v->Array_0@[i]));
                lemma_json_same_reflexive(items@[i]);
            }
        },
        JsonValue::Object(members) => {
            assert forall|i: int| 0 <= i < members@.len() implies (#[trigger] members@[i]).0@
                == members@[i].0@ && json_same(members@[i].1, members@[i].1) by {
                assert(decreases_to!(v => v->Object_0));
                assert(decreases_to!(v->Object_0 => v->Object_0@));
                assert(decreases_to!(v->Object_0@ => v->Object_0@[i]));
                assert(decreases_to!(v->Object_0@[i] => v->Object_0@[i].1));
                lemma_json_same_reflexive(members@[i].1);
            }
        },
        _ => {},
    }
}

/// A NUL in any string value of an object is found, whichever member holds it: the check
/// does not depend on the member's position.
pub proof fn law_nul_in_any_member_found(members: Vec<(String, JsonValue)>, i: int)
    requires
        0 <= i < members@.len(),
        has_nul(members@[i].1),
    ensures
        has_nul(JsonValue::Object(members)),
{
    let whole = JsonValue::Object(members);
    assert(decreases_to!(whole => whole->Object_0));
    assert(decreases_to!(whole->Object_0 => whole->Object_0@));
    assert(decreases_to!(whole->Object_0@ => whole->Object_0@[i]));
    assert(decreases_to!(whole->Object_0@[i] => whole->Object_0@[i].1));
    assert(has_nul(members@[i].1));
}

/// A NUL in any item of an array is found, whichever item holds it.
pub proof fn law_nul_in_any_item_found(items: Vec<JsonValue>, i: int)
    requires
        0 <= i < items@.len(),
        has_nul(items@[i]),
    ensures
        has_nul(JsonValue::Array(items)),
{
    let whole = JsonValue::Array(items);
    assert(decreases_to!(whole => whole->Array_0));
    assert(decreases_to!(whole->Array_0 => whole->Array_0@));
    assert(decreases_to!(whole->Array_0@ => whole->Array_0@[i]));
    assert(has_nul(items@[i]));
}

/// A string value is flagged exactly when it contains the NUL character.
pub proof fn law_nul_in_string_found(s: String)
    ensures
        has_nul(JsonValue::String(s)) <==> s@.contains('\0'),
{
}

/// Only string values can carry a NUL: a value with none among its members or items (and
/// that is not itself a string) is never flagged; keys are not inspected.
pub proof fn law_no_nul_without_one_inside(members: Vec<(String, JsonValue)>, items: Vec<JsonValue>, b: bool, n: String)
    ensures
        (forall|i: int| 0 <= i < members@.len() ==> !has_nul(#[trigger] members@[i].1)) ==> !has_nul(
            JsonValue::Object(members),
        ),
        (forall|i: int| 0 <= i < items@.len() ==> !has_nul(#[trigger] items@[i])) ==> !has_nul(
            JsonValue::Array(items),
        ),
        !has_nul(JsonValue::Null),
        !has_nul(JsonValue::Bool(b)),
        !has_nul(JsonValue::Number(n)),
{
}

} // verus!
