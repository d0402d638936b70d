use vstd::prelude::*;
use vstd::string::*;

verus! {

/// The class of a tool error, mirroring the JSON-RPC error codes the server answers with.
#[derive(Debug, Clone, Copy, PartialEq, Eq, Structural)]
pub enum ErrorKind {
    InvalidParams,
    InternalError,
    ResourceNotFound,
}

/// An error returned by a tool: its class and its human-readable message.
#[derive(Debug, Clone)]
pub struct ToolError {
    pub kind: ErrorKind,
    pub message: String,
}

/// Builds an `InvalidParams` error with the given message.
pub fn invalid_params(message: String) -> (e: ToolError)
    ensures
        e.kind == ErrorKind::InvalidParams,
        e.message@ == message@,
{
    ToolError { kind: ErrorKind::InvalidParams, message }
}

/// Builds an `InternalError` error with the given message.
pub fn internal_error(message: String) -> (e: ToolError)
    ensures
        e.kind == ErrorKind::InternalError,
        e.message@ == message@,
{
    ToolError { kind: ErrorKind::InternalError, message }
}

/// Builds a `ResourceNotFound` error with the given message.
pub fn not_found(message: String) -> (e: ToolError)
    ensures
        e.kind == ErrorKind::ResourceNotFound,
        e.message@ == message@,
{
    ToolError { kind: ErrorKind::ResourceNotFound, message }
}

/// The internal error for a failed database operation, with the operation's error text.
pub fn database_error(detail: &str) -> (e: ToolError)
    ensures
        e.kind == ErrorKind::InternalError,
        e.message@ == "database error: "@ + detail@,
{
    let mut m = String::from_str("database error: ");
    m.append(detail);
    internal_error(m)
}

/// The internal error for a service the server was started without, such as
/// "kata executor" or "litellm client".
pub fn not_configured(service: &str) -> (e: ToolError)
    ensures
        e.kind == ErrorKind::InternalError,
        e.message@ == service@ + " is not configured"@,
{
    let mut m = String::from_str(service);
    m.append(" is not configured");
    internal_error(m)
}

} // verus!
