//! Checks of JSON texts against JSON Schemas stored with the custom indicators, and of
//! JSON text. Values reach the checker as their compact JSON text.

use vstd::prelude::*;
use vstd::string::*;

use crate::text::{join_strings, joined};

verus! {

/// What checking the instance text against the schema text gives: `None` when one of the two
/// texts is not JSON; otherwise the schema's compile error, or the list of violations, each
/// as the violation's text and the path of the offending part of the instance.
pub uninterp spec fn schema_verdict(schema_text: Seq<char>, instance_text: Seq<char>) -> Option<
    Result<Seq<(Seq<char>, Seq<char>)>, Seq<char>>,
>;

/// The views of a checker's answer.
pub open spec fn verdict_view(r: Option<Result<Vec<(String, String)>, String>>) -> Option<
    Result<Seq<(Seq<char>, Seq<char>)>, Seq<char>>,
> {
    match r {
        None => None,
        Some(Ok(v)) => Some(Ok(v@.map_values(|p: (String, String)| (p.0@, p.1@)))),
        Some(Err(e)) => Some(Err(e@)),
    }
}

/// Parses both texts with `serde_json::from_str`, compiles the schema with
/// `jsonschema::validator_for`, and collects `Validator::iter_errors` on the instance, each
/// error as its `Display` text and the `Display` text of its `instance_path`. What is stated
/// of it: the answer is a function of the two texts alone (remote references are not
/// fetched: the crate is built without its resolvers).
#[verifier::external_body]
fn check_against_schema(schema_text: &str, instance_text: &str) -> (r: Option<
    Result<Vec<(String, String)>, String>,
>)
    ensures
        verdict_view(r) == schema_verdict(schema_text@, instance_text@),
{
    let schema: serde_json::Value = serde_json::from_str(schema_text).ok()?;
    let instance: serde_json::Value = serde_json::from_str(instance_text).ok()?;
    Some(
        match jsonschema::validator_for(&schema) {
            Ok(validator) => Ok(
                validator.iter_errors(&instance).map(|e| (e.to_string(), e.instance_path().to_string())).collect(),
            ),
            Err(e) => Err(e.to_string()),
        },
    )
}

/// What `serde_json::from_str` reports of a text: `None` when it is one JSON value, else the
/// text of the parse error.
pub uninterp spec fn json_syntax_verdict(text: Seq<char>) -> Option<Seq<char>>;

/// `serde_json::from_str::<serde_json::Value>`, keeping only the error's text. What is stated
/// of it: the answer is a function of the text alone.
#[verifier::external_body]
pub(crate) fn json_syntax_error(text: &str) -> (r: Option<String>)
    ensures
        match r {
            Some(e) => json_syntax_verdict(text@) == Some(e@),
            None => json_syntax_verdict(text@) is None,
        },
{
    serde_json::from_str::<serde_json::Value>(text).err().map(|e| e.to_string())
}

/// Why an instance was refused by a schema.
#[derive(Debug, Clone)]
pub enum SchemaCheckError {
    /// The stored schema is not a valid JSON Schema; the text is the compile error.
    BrokenSchema(String),
    /// The instance violates the schema; the text lists the violations.
    Mismatch(String),
    /// The schema or the instance could not be read as JSON.
    Unreadable,
}

/// How one violation is reported: its text, " at ", and the path in the instance.
pub open spec fn violation_text(v: (Seq<char>, Seq<char>)) -> Seq<char> {
    v.0 + " at "@ + v.1
}

/// The violations as reported, in the order the checker gave them.
pub open spec fn violation_texts(errors: Seq<(Seq<char>, Seq<char>)>) -> Seq<Seq<char>> {
    errors.map_values(|v: (Seq<char>, Seq<char>)| violation_text(v))
}

/// The outcome of a check from the checker's answer: no violation passes; violations are
/// reported joined with "; "; a schema that does not compile is reported as broken.
pub open spec fn schema_outcome_of(verdict: Option<Result<Seq<(Seq<char>, Seq<char>)>, Seq<char>>>) -> Result<
    (),
    (u8, Seq<char>),
> {
    match verdict {
        None => Err((2, Seq::empty())),
        Some(Err(e)) => Err((0, e)),
        Some(Ok(errors)) => if errors.len() == 0 {
            Ok(())
        } else {
            Err((1, joined(violation_texts(errors), "; "@)))
        },
    }
}

/// The outcome as a code and text: 0 for a broken schema, 1 for a mismatch, 2 for unreadable
/// input.
pub open spec fn schema_error_view(e: SchemaCheckError) -> (u8, Seq<char>) {
    match e {
        SchemaCheckError::BrokenSchema(m) => (0, m@),
        SchemaCheckError::Mismatch(m) => (1, m@),
        SchemaCheckError::Unreadable => (2, Seq::empty()),
    }
}

/// Writes each violation as its text, " at ", and its path.
fn violation_messages(errors: &Vec<(String, String)>) -> (r: Vec<String>)
    ensures
        r@.map_values(|s: String| s@) == violation_texts(
            errors@.map_values(|p: (String, String)| (p.0@, p.1@)),
        ),
{
    let ghost views = errors@.map_values(|p: (String, String)| (p.0@, p.1@));
    let mut out: Vec<String> = Vec::new();
    let mut i: usize = 0;
    while i < errors.len()
        invariant
            0 <= i <= errors@.len(),
            views == errors@.map_values(|p: (String, String)| (p.0@, p.1@)),
            out@.len() == i,
            forall|k: int| 0 <= k < i ==> (#[trigger] out@[k])@ == violation_text(views[k]),
        decreases errors.len() - i,
    {
        let mut m = String::from_str(errors[i].0.as_str());
        m.append(" at ");
        m.append(errors[i].1.as_str());
        proof {
            reveal_strlit(" at ");
        }
        out.push(m);
        i = i + 1;
    }
    proof {
        assert(out@.map_values(|s: String| s@) =~= violation_texts(views));
    }
    out
}

/// Turns the checker's answer into the outcome of the check.
pub fn schema_outcome(verdict: Option<Result<Vec<(String, String)>, String>>) -> (r: Result<(), SchemaCheckError>)
    ensures
        match r {
            Ok(()) => schema_outcome_of(verdict_view(verdict)) is Ok,
            Err(e) => schema_outcome_of(verdict_view(verdict)) == Err::<(), (u8, Seq<char>)>(
                schema_error_view(e),
            ),
        },
{
    match verdict {
        None => Err(SchemaCheckError::Unreadable),
        Some(Err(e)) => Err(SchemaCheckError::BrokenSchema(e)),
        Some(Ok(errors)) => {
            if errors.len() == 0 {
                Ok(())
            } else {
                let messages = violation_messages(&errors);
                let text = join_strings(messages.as_slice(), "; ");
                Err(SchemaCheckError::Mismatch(text))
            }
        },
    }
}

/// Checks a JSON text against a schema, also given as its JSON text.
pub fn validate_with_schema(schema_text: &str, instance_text: &str) -> (r: Result<(), SchemaCheckError>)
    ensures
        match r {
            Ok(()) => schema_outcome_of(schema_verdict(schema_text@, instance_text@)) is Ok,
            Err(e) => schema_outcome_of(schema_verdict(schema_text@, instance_text@))
                == Err::<(), (u8, Seq<char>)>(schema_error_view(e)),
        },
{
    schema_outcome(check_against_schema(schema_text, instance_text))
}

} // verus!
