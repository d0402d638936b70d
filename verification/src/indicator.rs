//! Custom indicators run on the execution pods: the checks on a call, the arguments checked
//! against the indicator's input schema and handed to it on standard input, and the output
//! read from the last line it prints and checked against its output schema.

use vstd::prelude::*;
use vstd::string::*;

use crate::error::{ErrorKind, ToolError, internal_error, invalid_params, not_found};
use crate::exec::byte_len;
use crate::schema::{
    SchemaCheckError, json_syntax_error, json_syntax_verdict, schema_outcome_of,
    schema_verdict, validate_with_schema,
};
use crate::text::{find_last_nonblank_line, last_nonblank_line, trim_str, trimmed};
use crate::validate::{
    EXEC_MAX_OUTPUT_BYTES, EXEC_MAX_STDIN_BYTES, EXEC_MAX_TIMEOUT_SECS, check_exec_upper_bound,
    exec_bound_error,
};

verus! {

/// Parameters of an indicator call.
#[derive(Debug)]
pub struct EvalIndicatorParams {
    /// The indicator's name; one of the strategy's own is preferred to a global one.
    pub name: String,
    /// The arguments as compact JSON text, checked against the indicator's input schema.
    pub args: String,
    pub timeout_secs: Option<u32>,
    pub max_output_bytes: Option<u32>,
}

/// A stored indicator, as far as a call reads it.
#[derive(Debug)]
pub struct IndicatorDef {
    pub indicator_id: String,
    pub name: String,
    pub scope: String,
    pub code: String,
    /// The input schema as JSON text.
    pub input_schema: String,
    /// The output schema as JSON text.
    pub output_schema: String,
}

/// Why a call is refused before the indicator is looked up, if it is.
pub open spec fn eval_indicator_error(params: EvalIndicatorParams) -> Option<Seq<char>> {
    if trimmed(params.name@).len() == 0 {
        Some("name must not be empty"@)
    } else if exec_bound_error("timeout_secs"@, params.timeout_secs, EXEC_MAX_TIMEOUT_SECS) is Some {
        exec_bound_error("timeout_secs"@, params.timeout_secs, EXEC_MAX_TIMEOUT_SECS)
    } else {
        exec_bound_error("max_output_bytes"@, params.max_output_bytes, EXEC_MAX_OUTPUT_BYTES)
    }
}

/// Checks an indicator call and gives the trimmed name to look up: the name must not be
/// blank, and the timeout and output limit must be positive and within bounds.
pub fn check_eval_indicator(params: &EvalIndicatorParams) -> (r: Result<String, ToolError>)
    ensures
        r is Ok <==> eval_indicator_error(*params) is None,
        r matches Ok(name) ==> name@ == trimmed(params.name@),
        r matches Err(e) ==> e.kind == ErrorKind::InvalidParams && Some(e.message@)
            == eval_indicator_error(*params),
{
    let name = trim_str(params.name.as_str());
    if name.unicode_len() == 0 {
        return Err(invalid_params(String::from_str("name must not be empty")));
    }
    match check_exec_upper_bound("timeout_secs", params.timeout_secs, EXEC_MAX_TIMEOUT_SECS) {
        Err(e) => {
            return Err(e);
        },
        Ok(()) => {},
    }
    match check_exec_upper_bound("max_output_bytes", params.max_output_bytes, EXEC_MAX_OUTPUT_BYTES) {
        Err(e) => Err(e),
        Ok(()) => Ok(String::from_str(name)),
    }
}

/// `'name'`: a name between single quotes.
pub open spec fn in_quotes(name: Seq<char>) -> Seq<char> {
    seq!['\''] + name + seq!['\'']
}

/// The error when the lookup of an indicator fails (`Err` with the failure's text) or finds
/// none (`Ok(None)`); `None` when it was found.
pub open spec fn lookup_error(name: Seq<char>, lookup: Result<Option<()>, Seq<char>>) -> Option<
    (ErrorKind, Seq<char>),
> {
    match lookup {
        Err(e) => Some((ErrorKind::InternalError, "failed to resolve indicator: "@ + e)),
        Ok(None) => Some((ErrorKind::ResourceNotFound, "indicator "@ + in_quotes(name) + " not found"@)),
        Ok(Some(())) => None,
    }
}

/// The outcome of looking an indicator up by name: the indicator, or the error for a failed
/// or empty lookup.
pub fn resolve_outcome(name: &str, lookup: Result<Option<IndicatorDef>, String>) -> (r: Result<
    IndicatorDef,
    ToolError,
>)
    ensures
        ({
            let shape = match lookup {
                Err(e) => Err(e@),
                Ok(None) => Ok(None),
                Ok(Some(_)) => Ok(Some(())),
            };
            match r {
                Ok(d) => lookup == Ok::<Option<IndicatorDef>, String>(Some(d)),
                Err(e) => lookup_error(name@, shape) == Some((e.kind, e.message@)),
            }
        }),
{
    match lookup {
        Err(e) => {
            let mut m = String::from_str("failed to resolve indicator: ");
            m.append(e.as_str());
            Err(internal_error(m))
        },
        Ok(None) => {
            let mut m = String::from_str("indicator '");
            m.append(name);
            m.append("' not found");
            proof {
                reveal_strlit("indicator '");
                reveal_strlit("' not found");
                reveal_strlit("indicator ");
                reveal_strlit(" not found");
            }
            Err(not_found(m))
        },
        Ok(Some(d)) => Ok(d),
    }
}

/// The error for arguments that an indicator's input schema refuses: a violation is the
/// caller's to fix; a broken stored schema, or an unreadable one, is internal.
pub open spec fn args_error(name: Seq<char>, outcome: (u8, Seq<char>)) -> (ErrorKind, Seq<char>) {
    if outcome.0 == 1 {
        (
            ErrorKind::InvalidParams,
            "args do not match input_schema of indicator "@ + in_quotes(name) + ": "@ + outcome.1,
        )
    } else if outcome.0 == 0 {
        (
            ErrorKind::InternalError,
            "indicator "@ + in_quotes(name) + " has invalid input_schema in storage: "@ + outcome.1,
        )
    } else {
        (ErrorKind::InternalError, "indicator "@ + in_quotes(name) + " has unreadable input"@)
    }
}

fn quoted_name(before: &str, name: &str, after: &str) -> (r: String)
    ensures
        r@ == before@ + in_quotes(name@) + after@,
{
    let mut m = String::from_str(before);
    m.append("'");
    m.append(name);
    m.append("'");
    m.append(after);
    proof {
        reveal_strlit("'");
        assert(m@ =~= before@ + in_quotes(name@) + after@);
    }
    m
}

/// Checks the arguments of a call against the indicator's input schema; `name` is the name
/// the caller asked for.
pub fn check_indicator_args(name: &str, indicator: &IndicatorDef, args: &str) -> (r: Result<
    (),
    ToolError,
>)
    ensures
        ({
            let outcome = schema_outcome_of(
                schema_verdict(indicator.input_schema@, args@),
            );
            &&& (r is Ok <==> outcome is Ok)
            &&& (r matches Err(e) ==> (outcome matches Err(o) && args_error(name@, o) == (
                e.kind,
                e.message@,
            )))
        }),
{
    match validate_with_schema(indicator.input_schema.as_str(), args) {
        Ok(()) => Ok(()),
        Err(SchemaCheckError::Mismatch(msg)) => {
            let mut m = quoted_name("args do not match input_schema of indicator ", name, ": ");
            m.append(msg.as_str());
            Err(invalid_params(m))
        },
        Err(SchemaCheckError::BrokenSchema(msg)) => {
            let mut m = quoted_name("indicator ", name, " has invalid input_schema in storage: ");
            m.append(msg.as_str());
            Err(internal_error(m))
        },
        Err(SchemaCheckError::Unreadable) => {
            Err(internal_error(quoted_name("indicator ", name, " has unreadable input")))
        },
    }
}

/// The standard input handed to an indicator: the JSON object `{"args": <args>}`, written
/// around the compact JSON text of the arguments.
pub open spec fn indicator_stdin_text(args: Seq<char>) -> Seq<char> {
    "{\"args\":"@ + args + seq!['}']
}

/// Builds the standard input of a call, refused when it is over 256 KiB.
pub fn indicator_stdin(args: &str) -> (r: Result<String, ToolError>)
    ensures
        r is Ok <==> byte_len(indicator_stdin_text(args@)) <= EXEC_MAX_STDIN_BYTES,
        r matches Ok(s) ==> s@ == indicator_stdin_text(args@),
        r matches Err(e) ==> e.kind == ErrorKind::InvalidParams && e.message@
            == "args exceed 262144 bytes when serialized as JSON"@,
{
    let mut s = String::from_str("{\"args\":");
    s.append(args);
    s.append("}");
    proof {
        reveal_strlit("}");
        assert(s@ =~= indicator_stdin_text(args@));
    }
    if s.as_str().as_bytes().len() > EXEC_MAX_STDIN_BYTES {
        return Err(invalid_params(String::from_str("args exceed 262144 bytes when serialized as JSON")));
    }
    Ok(s)
}

/// Why an indicator's printed output is refused, if it is: nothing but blank lines, a last
/// line that is not JSON, or a value its output schema refuses.
pub open spec fn output_error(name: Seq<char>, stdout: Seq<char>, output_schema: Seq<char>) -> Option<
    (ErrorKind, Seq<char>),
> {
    match last_nonblank_line(stdout) {
        None => Some(
            (
                ErrorKind::InvalidParams,
                "indicator "@ + in_quotes(name)
                    + " produced empty stdout; expected a JSON value on the last line"@,
            ),
        ),
        Some(line) => match json_syntax_verdict(line) {
            Some(e) => Some(
                (
                    ErrorKind::InvalidParams,
                    "indicator "@ + in_quotes(name) + " last stdout line is not valid JSON: "@ + e,
                ),
            ),
            None => match schema_outcome_of(schema_verdict(output_schema, line)) {
                Ok(()) => None,
                Err(o) => Some(
                    if o.0 == 1 {
                        (
                            ErrorKind::InvalidParams,
                            "output does not match output_schema of indicator "@ + in_quotes(name)
                                + ": "@ + o.1,
                        )
                    } else if o.0 == 0 {
                        (
                            ErrorKind::InternalError,
                            "indicator "@ + in_quotes(name) + " has invalid output_schema in storage: "@
                                + o.1,
                        )
                    } else {
                        (
                            ErrorKind::InternalError,
                            "indicator "@ + in_quotes(name) + " has unreadable output_schema"@,
                        )
                    },
                ),
            },
        },
    }
}

/// Reads an indicator's result from what it printed: the last line that is not blank,
/// trimmed, must be one JSON value that the output schema accepts. Gives that line.
pub fn parse_and_validate_output(stdout: &str, indicator: &IndicatorDef) -> (r: Result<
    String,
    ToolError,
>)
    ensures
        r is Ok <==> output_error(indicator.name@, stdout@, indicator.output_schema@) is None,
        r matches Ok(line) ==> last_nonblank_line(stdout@) == Some(line@),
        r matches Err(e) ==> output_error(indicator.name@, stdout@, indicator.output_schema@)
            == Some((e.kind, e.message@)),
{
    let name = indicator.name.as_str();
    let raw = match find_last_nonblank_line(stdout) {
        None => {
            return Err(
                invalid_params(
                    quoted_name(
                        "indicator ",
                        name,
                        " produced empty stdout; expected a JSON value on the last line",
                    ),
                ),
            );
        },
        Some(line) => line,
    };
    match json_syntax_error(raw) {
        Some(e) => {
            let mut m = quoted_name("indicator ", name, " last stdout line is not valid JSON: ");
            m.append(e.as_str());
            return Err(invalid_params(m));
        },
        None => {},
    }
    match validate_with_schema(indicator.output_schema.as_str(), raw) {
        Ok(()) => Ok(String::from_str(raw)),
        Err(SchemaCheckError::Mismatch(msg)) => {
            let mut m = quoted_name("output does not match output_schema of indicator ", name, ": ");
            m.append(msg.as_str());
            Err(invalid_params(m))
        },
        Err(SchemaCheckError::BrokenSchema(msg)) => {
            let mut m = quoted_name("indicator ", name, " has invalid output_schema in storage: ");
            m.append(msg.as_str());
            Err(internal_error(m))
        },
        Err(SchemaCheckError::Unreadable) => {
            Err(internal_error(quoted_name("indicator ", name, " has unreadable output_schema")))
        },
    }
}

/// The output of a run: read and checked only when the run exited with code 0; a run that
/// failed has none.
pub fn indicator_output(exit_code: i32, stdout: &str, indicator: &IndicatorDef) -> (r: Result<
    Option<String>,
    ToolError,
>)
    ensures
        exit_code != 0 ==> (r matches Ok(o) && o is None),
        exit_code == 0 ==> (r is Ok <==> output_error(indicator.name@, stdout@, indicator.output_schema@)
            is None),
        exit_code == 0 ==> (r matches Ok(o) ==> (o matches Some(line) && last_nonblank_line(
            stdout@,
        ) == Some(line@))),
        r matches Err(e) ==> output_error(indicator.name@, stdout@, indicator.output_schema@) == Some(
            (e.kind, e.message@),
        ),
{
    if exit_code == 0 {
        match parse_and_validate_output(stdout, indicator) {
            Ok(line) => Ok(Some(line)),
            Err(e) => Err(e),
        }
    } else {
        Ok(None)
    }
}

} // verus!
