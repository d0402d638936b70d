//! Work handed to the execution pods and to the language-model gateway: the checks on a
//! Python run, and how the failures of the executor and of the gateway become tool errors.

use vstd::prelude::*;
use vstd::string::*;
use vstd::utf8::encode_utf8;

use crate::error::{ErrorKind, ToolError, internal_error, invalid_params};
use crate::text::{decimal_text, u64_text};
use crate::validate::{
    EXEC_MAX_OUTPUT_BYTES, EXEC_MAX_STDIN_BYTES, EXEC_MAX_TIMEOUT_SECS, check_exec_upper_bound,
    exec_bound_error,
};

verus! {

/// Largest Python source, in bytes, that a run accepts.
pub const MAX_CODE_BYTES: usize = 65536;

/// Parameters of a Python run.
#[derive(Debug, Clone)]
pub struct EvalPythonParams {
    /// The Python source to run.
    pub code: String,
    /// Text handed to the program on standard input.
    pub stdin: Option<String>,
    /// Timeout in seconds.
    pub timeout_secs: Option<u32>,
    /// Largest output in bytes.
    pub max_output_bytes: Option<u32>,
}

/// What a run gave back.
#[derive(Debug, Clone, PartialEq, Eq)]
pub struct EvalPythonResult {
    pub stdout: String,
    pub stderr: String,
    pub exit_code: i32,
}

/// The number of bytes of the UTF-8 encoding of a text.
pub open spec fn byte_len(s: Seq<char>) -> nat {
    encode_utf8(s).len()
}

/// Why a Python run is refused before it starts, if it is: the checks in the order they are
/// made.
pub open spec fn eval_python_error(params: EvalPythonParams) -> Option<Seq<char>> {
    if params.code@.len() == 0 {
        Some("code must not be empty"@)
    } else if byte_len(params.code@) > MAX_CODE_BYTES {
        Some("code exceeds 65536 bytes"@)
    } else if (match params.stdin {
        Some(s) => byte_len(s@) > EXEC_MAX_STDIN_BYTES,
        None => false,
    }) {
        Some("stdin exceeds 262144 bytes"@)
    } else if exec_bound_error("timeout_secs"@, params.timeout_secs, EXEC_MAX_TIMEOUT_SECS) is Some {
        exec_bound_error("timeout_secs"@, params.timeout_secs, EXEC_MAX_TIMEOUT_SECS)
    } else {
        exec_bound_error("max_output_bytes"@, params.max_output_bytes, EXEC_MAX_OUTPUT_BYTES)
    }
}

/// Checks a Python run before any pod is started: non-empty source of at most 64 KiB, input
/// of at most 256 KiB, and a timeout and output limit that are positive and within bounds.
pub fn check_eval_python(params: &EvalPythonParams) -> (r: Result<(), ToolError>)
    ensures
        r is Ok <==> eval_python_error(*params) is None,
        r matches Err(e) ==> e.kind == ErrorKind::InvalidParams && Some(e.message@)
            == eval_python_error(*params),
{
    if params.code.as_str().is_empty() {
        return Err(invalid_params(String::from_str("code must not be empty")));
    }
    if params.code.as_str().as_bytes().len() > MAX_CODE_BYTES {
        return Err(invalid_params(String::from_str("code exceeds 65536 bytes")));
    }
    match &params.stdin {
        Some(s) => {
            if s.as_str().as_bytes().len() > EXEC_MAX_STDIN_BYTES {
                return Err(invalid_params(String::from_str("stdin exceeds 262144 bytes")));
            }
        },
        None => {},
    }
    match check_exec_upper_bound("timeout_secs", params.timeout_secs, EXEC_MAX_TIMEOUT_SECS) {
        Err(e) => {
            return Err(e);
        },
        Ok(()) => {},
    }
    check_exec_upper_bound("max_output_bytes", params.max_output_bytes, EXEC_MAX_OUTPUT_BYTES)
}

/// The text that `{:?}` gives for a duration of `secs` seconds and `nanos` nanoseconds,
/// such as "5s" or "1.5ms".
pub uninterp spec fn duration_debug_text(secs: u64, nanos: u32) -> Seq<char>;

/// `format!("{:?}", Duration::new(secs, nanos))`: the standard `Debug` rendering of a
/// duration. What is stated of it: it is a function of the two counts alone.
#[verifier::external_body]
fn duration_debug(secs: u64, nanos: u32) -> (r: String)
    requires
        nanos < 1000000000,
    ensures
        r@ == duration_debug_text(secs, nanos),
{
    format!("{:?}", std::time::Duration::new(secs, nanos))
}

/// Why a run on an execution pod failed.
#[derive(Debug, Clone)]
pub enum ExecFailure {
    /// The run took longer than allowed: a duration of `secs` seconds and `nanos` (below one
    /// second) nanoseconds.
    Timeout { secs: u64, nanos: u32 },
    /// The output passed the limit of that many bytes.
    OutputTooLarge { limit: u64 },
    /// The pod failed; the text describes how.
    PodFailed(String),
    /// The cluster's API answered with an error status.
    Api { status: u16, message: String },
    /// The cluster's API could not be reached.
    Network(String),
    /// The cluster's API answered with something that could not be read.
    Parse(String),
    /// The executor could not be set up.
    Init(String),
}

/// The tool error for a failed run: a timeout or an oversized output is the caller's to fix;
/// the rest are internal.
pub open spec fn exec_failure_error(f: ExecFailure) -> (ErrorKind, Seq<char>) {
    match f {
        ExecFailure::Timeout { secs, nanos } => (
            ErrorKind::InvalidParams,
            "execution timed out after "@ + duration_debug_text(secs, nanos),
        ),
        ExecFailure::OutputTooLarge { limit } => (
            ErrorKind::InvalidParams,
            "output exceeded "@ + decimal_text(limit as nat) + " bytes"@,
        ),
        ExecFailure::PodFailed(m) => (ErrorKind::InternalError, "exec pod failed: "@ + m@),
        ExecFailure::Api { status, message } => (
            ErrorKind::InternalError,
            "kube api error (status "@ + decimal_text(status as nat) + "): "@ + message@,
        ),
        ExecFailure::Network(m) => (ErrorKind::InternalError, "kube api network error: "@ + m@),
        ExecFailure::Parse(m) => (ErrorKind::InternalError, "kube api parse error: "@ + m@),
        ExecFailure::Init(m) => (ErrorKind::InternalError, "kata executor init error: "@ + m@),
    }
}

fn prefixed(prefix: &str, text: &str) -> (r: String)
    ensures
        r@ == prefix@ + text@,
{
    let mut r = String::from_str(prefix);
    r.append(text);
    r
}

/// Maps a failed run to the tool error the caller sees.
pub fn exec_failure_to_error(failure: &ExecFailure) -> (e: ToolError)
    requires
        failure matches ExecFailure::Timeout { nanos, .. } ==> nanos < 1000000000,
    ensures
        (e.kind, e.message@) == exec_failure_error(*failure),
{
    match failure {
        ExecFailure::Timeout { secs, nanos } => {
            let d = duration_debug(*secs, *nanos);
            invalid_params(prefixed("execution timed out after ", d.as_str()))
        },
        ExecFailure::OutputTooLarge { limit } => {
            let mut m = String::from_str("output exceeded ");
            let digits = u64_text(*limit);
            m.append(digits.as_str());
            m.append(" bytes");
            invalid_params(m)
        },
        ExecFailure::PodFailed(m) => internal_error(prefixed("exec pod failed: ", m.as_str())),
        ExecFailure::Api { status, message } => {
            let mut m = String::from_str("kube api error (status ");
            let digits = u64_text(*status as u64);
            m.append(digits.as_str());
            m.append("): ");
            m.append(message.as_str());
            internal_error(m)
        },
        ExecFailure::Network(m) => internal_error(prefixed("kube api network error: ", m.as_str())),
        ExecFailure::Parse(m) => internal_error(prefixed("kube api parse error: ", m.as_str())),
        ExecFailure::Init(m) => internal_error(prefixed("kata executor init error: ", m.as_str())),
    }
}

/// Why a call to the language-model gateway failed.
#[derive(Debug, Clone)]
pub enum LlmFailure {
    /// The gateway could not be reached.
    Network(String),
    /// The gateway answered with an error status.
    Api { status: u16, message: String },
    /// The gateway's answer could not be read.
    Parse(String),
    /// The client could not be set up.
    Init(String),
}

/// The tool error for a failed gateway call; all are internal.
pub open spec fn llm_failure_message(f: LlmFailure) -> Seq<char> {
    match f {
        LlmFailure::Network(m) => "litellm network error: "@ + m@,
        LlmFailure::Api { status, message } => "litellm api error (status "@ + decimal_text(
            status as nat,
        ) + "): "@ + message@,
        LlmFailure::Parse(m) => "failed to parse litellm response: "@ + m@,
        LlmFailure::Init(m) => "litellm client init error: "@ + m@,
    }
}

/// Maps a failed gateway call to the tool error the caller sees.
pub fn llm_failure_to_error(failure: &LlmFailure) -> (e: ToolError)
    ensures
        e.kind == ErrorKind::InternalError,
        e.message@ == llm_failure_message(*failure),
{
    match failure {
        LlmFailure::Network(m) => internal_error(prefixed("litellm network error: ", m.as_str())),
        LlmFailure::Api { status, message } => {
            let mut m = String::from_str("litellm api error (status ");
            let digits = u64_text(*status as u64);
            m.append(digits.as_str());
            m.append("): ");
            m.append(message.as_str());
            internal_error(m)
        },
        LlmFailure::Parse(m) => internal_error(prefixed("failed to parse litellm response: ", m.as_str())),
        LlmFailure::Init(m) => internal_error(prefixed("litellm client init error: ", m.as_str())),
    }
}

} // verus!
