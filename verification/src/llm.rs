//! Tools answered by a language model through the gateway: questions about a media file and
//! web searches. The checks on a request, the choice of model, and the per-task call limit of
//! web searches.

use vstd::prelude::*;
use vstd::string::*;

use crate::error::{ErrorKind, ToolError, internal_error, invalid_params};
use crate::text::{trim_str, trimmed};

verus! {

/// Parameters of a question about a media file.
#[derive(Debug, Clone)]
pub struct QueryMediaParams {
    /// The address of the video or audio, such as a public video page.
    pub media_url: String,
    /// What to ask about it.
    pub prompt: String,
}

/// The model's answer about a media file.
#[derive(Debug, Clone, PartialEq, Eq)]
pub struct QueryMediaResult {
    pub text: String,
}

/// Parameters of a web search.
#[derive(Debug, Clone)]
pub struct SearchWebParams {
    pub query: String,
}

/// The model's answer to a web search, with the addresses it cites.
#[derive(Debug, Clone, PartialEq, Eq)]
pub struct SearchWebResult {
    pub text: String,
    pub citations: Vec<String>,
}

/// Why a media question is refused, if it is.
pub open spec fn query_media_error(params: QueryMediaParams) -> Option<Seq<char>> {
    if trimmed(params.media_url@).len() == 0 {
        Some("media_url must not be empty"@)
    } else if trimmed(params.prompt@).len() == 0 {
        Some("prompt must not be empty"@)
    } else {
        None
    }
}

/// Checks a media question and gives its trimmed address and prompt.
pub fn check_query_media(params: &QueryMediaParams) -> (r: Result<(String, String), ToolError>)
    ensures
        r is Ok <==> query_media_error(*params) is None,
        r matches Ok((url, prompt)) ==> url@ == trimmed(params.media_url@) && prompt@ == trimmed(
            params.prompt@,
        ),
        r matches Err(e) ==> e.kind == ErrorKind::InvalidParams && Some(e.message@)
            == query_media_error(*params),
{
    let url = trim_str(params.media_url.as_str());
    if url.unicode_len() == 0 {
        return Err(invalid_params(String::from_str("media_url must not be empty")));
    }
    let prompt = trim_str(params.prompt.as_str());
    if prompt.unicode_len() == 0 {
        return Err(invalid_params(String::from_str("prompt must not be empty")));
    }
    Ok((String::from_str(url), String::from_str(prompt)))
}

/// The model for media questions, read through `get` from the setting `GEMINI_MEDIA_MODEL`:
/// an unset or empty setting is an internal error.
pub fn gemini_media_model_with<F: Fn(&str) -> Option<String>>(get: F) -> (r: Result<
    String,
    ToolError,
>)
    requires
        call_requires(get, ("GEMINI_MEDIA_MODEL",)),
    ensures
        exists|v: Option<String>|
            #![trigger call_ensures(get, ("GEMINI_MEDIA_MODEL",), v)]
            call_ensures(get, ("GEMINI_MEDIA_MODEL",), v) && match v {
                Some(m) => if m@.len() == 0 {
                    r matches Err(e) && e.kind == ErrorKind::InternalError && e.message@
                        == "GEMINI_MEDIA_MODEL is not set"@
                } else {
                    r matches Ok(x) && x@ == m@
                },
                None => r matches Err(e) && e.kind == ErrorKind::InternalError && e.message@
                    == "GEMINI_MEDIA_MODEL is not set"@,
            },
{
    let value = get("GEMINI_MEDIA_MODEL");
    match value {
        Some(m) => {
            if m.as_str().is_empty() {
                Err(internal_error(String::from_str("GEMINI_MEDIA_MODEL is not set")))
            } else {
                Ok(m)
            }
        },
        None => Err(internal_error(String::from_str("GEMINI_MEDIA_MODEL is not set"))),
    }
}

/// The model for web searches: the configured one, or by default `chatgpt/gpt-5.6-luna`.
pub fn web_search_model_from(configured: Option<String>) -> (r: String)
    ensures
        r@ == match configured {
            Some(m) => m@,
            None => "chatgpt/gpt-5.6-luna"@,
        },
{
    match configured {
        Some(m) => m,
        None => String::from_str("chatgpt/gpt-5.6-luna"),
    }
}

/// Largest number of web searches one task execution may make.
pub const SEARCH_WEB_MAX_CALLS_PER_TASK: u32 = 20;

/// Checks a web search and gives its trimmed query; a blank query is refused.
pub fn check_search_web(params: &SearchWebParams) -> (r: Result<String, ToolError>)
    ensures
        r is Ok <==> trimmed(params.query@).len() != 0,
        r matches Ok(q) ==> q@ == trimmed(params.query@),
        r matches Err(e) ==> e.kind == ErrorKind::InvalidParams && e.message@
            == "query must not be empty"@,
{
    let q = trim_str(params.query.as_str());
    if q.unicode_len() == 0 {
        return Err(invalid_params(String::from_str("query must not be empty")));
    }
    Ok(String::from_str(q))
}

/// Checks the count of web searches of a task execution, counted with the current one:
/// more than 20 are refused.
pub fn check_search_web_count(call_count: i32) -> (r: Result<(), ToolError>)
    ensures
        r is Ok <==> call_count <= SEARCH_WEB_MAX_CALLS_PER_TASK,
        r matches Err(e) ==> e.kind == ErrorKind::InvalidParams && e.message@
            == "search_web call limit (20) exceeded for this "@ + "task execution"@,
{
    if call_count > SEARCH_WEB_MAX_CALLS_PER_TASK as i32 {
        let mut message = String::from_str("search_web call limit (20) exceeded for this ");
        message.append("task execution");
        return Err(invalid_params(message));
    }
    Ok(())
}

/// The completed search calls of each task execution, by the execution's id; an id without
/// an entry has none.
pub open spec fn calls_of(counts: Map<Seq<char>, int>, task: Seq<char>) -> int {
    if counts.dom().contains(task) {
        counts[task]
    } else {
        0
    }
}

/// The counts after one call: a call under a task execution is counted for it, counting the
/// call itself; a call without one is not counted.
pub open spec fn counts_after_call(counts: Map<Seq<char>, int>, task: Option<Seq<char>>) -> Map<
    Seq<char>,
    int,
> {
    match task {
        Some(t) => counts.insert(t, calls_of(counts, t) + 1),
        None => counts,
    }
}

/// Whether a call is refused: one under a task execution is refused when its count, with
/// the call itself, is over the limit (the test `check_search_web_count` makes); one without
/// a task execution is not counted and never refused.
pub open spec fn search_web_refused(counts: Map<Seq<char>, int>, task: Option<Seq<char>>) -> bool {
    match task {
        Some(t) => !(calls_of(counts, t) + 1 <= SEARCH_WEB_MAX_CALLS_PER_TASK),
        None => false,
    }
}

/// The counts after `n` calls under task execution `task`.
pub open spec fn counts_after_calls(counts: Map<Seq<char>, int>, task: Seq<char>, n: nat) -> Map<
    Seq<char>,
    int,
>
    decreases n,
{
    if n == 0 {
        counts
    } else {
        counts_after_call(counts_after_calls(counts, task, (n - 1) as nat), Some(task))
    }
}

/// Calls without a task execution are never refused and leave the counts as they are.
pub proof fn law_untracked_searches_never_refused(counts: Map<Seq<char>, int>)
    ensures
        !search_web_refused(counts, None),
        counts_after_call(counts, None) == counts,
{
}

/// The limit holds per task execution: after `n` calls under a task execution that had none,
/// the next one is refused exactly when `n` is 20 or more, and calls under one task
/// execution leave every other's count as it was.
pub proof fn law_search_limit_per_task(counts: Map<Seq<char>, int>, task: Seq<char>, other: Seq<char>, n: nat)
    requires
        calls_of(counts, task) == 0,
        other != task,
    ensures
        calls_of(counts_after_calls(counts, task, n), task) == n,
        search_web_refused(counts_after_calls(counts, task, n), Some(task)) <==> n >= 20,
        calls_of(counts_after_calls(counts, task, n), other) == calls_of(counts, other),
    decreases n,
{
    if n > 0 {
        law_search_limit_per_task(counts, task, other, (n - 1) as nat);
    }
}

} // verus!
