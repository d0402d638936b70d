//! Records a strategy writes besides its notes: annotations on charts, replies to comments,
//! proposals to change a hypothesis, and predictions. The checks made on each request before
//! anything is stored.

use vstd::prelude::*;
use vstd::string::*;

use crate::error::{ErrorKind, ToolError, internal_error, invalid_params};
use crate::text::{str_equal, trim_str, trimmed};

verus! {

/// Parameters of the tool that lists annotations.
#[derive(Debug, Clone)]
pub struct ReadAnnotationsParams {
    pub target_symbol: Option<String>,
    pub limit: Option<u32>,
}

/// Why a new annotation is refused, if it is.
pub open spec fn annotation_error(target_symbol: Seq<char>, target_kind: Seq<char>, text: Seq<char>) -> Option<
    Seq<char>,
> {
    if trimmed(target_symbol).len() == 0 {
        Some("target_symbol must not be empty"@)
    } else if trimmed(target_kind).len() == 0 {
        Some("target_kind must not be empty"@)
    } else if trimmed(text).len() == 0 {
        Some("text must not be empty"@)
    } else {
        None
    }
}

/// Checks a new annotation and gives its trimmed symbol and kind; the text is stored as given.
pub fn check_new_annotation(target_symbol: &str, target_kind: &str, text: &str) -> (r: Result<
    (String, String),
    ToolError,
>)
    ensures
        r is Ok <==> annotation_error(target_symbol@, target_kind@, text@) is None,
        r matches Ok((s, k)) ==> s@ == trimmed(target_symbol@) && k@ == trimmed(target_kind@),
        r matches Err(e) ==> e.kind == ErrorKind::InvalidParams && Some(e.message@)
            == annotation_error(target_symbol@, target_kind@, text@),
{
    let symbol = trim_str(target_symbol);
    if symbol.unicode_len() == 0 {
        return Err(invalid_params(String::from_str("target_symbol must not be empty")));
    }
    let kind = trim_str(target_kind);
    if kind.unicode_len() == 0 {
        return Err(invalid_params(String::from_str("target_kind must not be empty")));
    }
    if trim_str(text).unicode_len() == 0 {
        return Err(invalid_params(String::from_str("text must not be empty")));
    }
    Ok((String::from_str(symbol), String::from_str(kind)))
}

/// The view of an optional text.
pub open spec fn opt_str(s: Option<&str>) -> Option<Seq<char>> {
    match s {
        Some(x) => Some(x@),
        None => None,
    }
}

/// The step and attempt whose earlier unreviewed annotations a new one replaces (see
/// `replaced_annotations`): both must be named.
pub open spec fn replacement_of(step: Option<u128>, task: Option<Seq<char>>) -> Option<(u128, Seq<char>)> {
    match (step, task) {
        (Some(s), Some(t)) => Some((s, t)),
        _ => None,
    }
}

/// The unreviewed annotations that a new one replaces: when the call names both its step and
/// its attempt, those the same step made in other attempts (a resumed task starting the step
/// again). `None` when nothing is replaced.
pub fn replaced_annotations(execution_step_id: Option<u128>, execution_task_id: Option<&str>) -> (r: Option<
    (u128, String),
>)
    ensures
        match r {
            Some((s, t)) => replacement_of(execution_step_id, opt_str(execution_task_id)) == Some(
                (s, t@),
            ),
            None => replacement_of(execution_step_id, opt_str(execution_task_id)) is None,
        },
{
    match (execution_step_id, execution_task_id) {
        (Some(step), Some(task)) => Some((step, String::from_str(task))),
        _ => None,
    }
}

/// What a comment is attached to.
#[derive(Debug, Clone, Copy, PartialEq, Eq, Structural)]
pub enum CommentTarget {
    Note,
    Annotation,
}

/// The comment target named by a kind, if it names one.
pub open spec fn comment_target_of(kind: Seq<char>) -> Option<CommentTarget> {
    if kind == "note"@ {
        Some(CommentTarget::Note)
    } else if kind == "annotation"@ {
        Some(CommentTarget::Annotation)
    } else {
        None
    }
}

fn parse_comment_target(kind: &str) -> (r: Option<CommentTarget>)
    ensures
        r == comment_target_of(kind@),
{
    if str_equal(kind, "note") {
        Some(CommentTarget::Note)
    } else if str_equal(kind, "annotation") {
        Some(CommentTarget::Annotation)
    } else {
        None
    }
}

/// Reads the target kind a caller gives when listing comments; an unknown kind is refused.
pub fn comment_target_from_param(kind: &str) -> (r: Result<CommentTarget, ToolError>)
    ensures
        match comment_target_of(kind@) {
            Some(t) => r == Ok::<CommentTarget, ToolError>(t),
            None => r matches Err(e) && e.kind == ErrorKind::InvalidParams && e.message@
                == "invalid target_kind: "@ + kind@ + " (expected one of [\"note\", \"annotation\"])"@,
        },
{
    match parse_comment_target(kind) {
        Some(t) => Ok(t),
        None => {
            let mut m = String::from_str("invalid target_kind: ");
            m.append(kind);
            m.append(" (expected one of [\"note\", \"annotation\"])");
            Err(invalid_params(m))
        },
    }
}

/// Reads the target kind of a stored comment; an unknown kind is an internal error.
pub fn comment_target_from_stored(kind: &str) -> (r: Result<CommentTarget, ToolError>)
    ensures
        match comment_target_of(kind@) {
            Some(t) => r == Ok::<CommentTarget, ToolError>(t),
            None => r matches Err(e) && e.kind == ErrorKind::InternalError && e.message@
                == "comment has unexpected target_kind: "@ + kind@,
        },
{
    match parse_comment_target(kind) {
        Some(t) => Ok(t),
        None => {
            let mut m = String::from_str("comment has unexpected target_kind: ");
            m.append(kind);
            Err(internal_error(m))
        },
    }
}

/// Checks the body of a reply to a comment: it must not be blank.
pub fn check_reply_body(body: &str) -> (r: Result<(), ToolError>)
    ensures
        r is Ok <==> trimmed(body@).len() != 0,
        r matches Err(e) ==> e.kind == ErrorKind::InvalidParams && e.message@
            == "body must not be empty"@,
{
    if trim_str(body).unicode_len() == 0 {
        return Err(invalid_params(String::from_str("body must not be empty")));
    }
    Ok(())
}

/// Parameters of the tool that lists the hypotheses visible to a strategy.
#[derive(Debug, Clone)]
pub struct ListHypothesesParams {
    pub limit: Option<u32>,
}

/// Why a proposal to change a hypothesis is refused, if it is, in the order of the checks.
pub open spec fn proposal_error(
    rationale: Seq<char>,
    title: Option<Seq<char>>,
    body: Option<Seq<char>>,
    status_given: bool,
) -> Option<Seq<char>> {
    if trimmed(rationale).len() == 0 {
        Some("rationale must not be empty"@)
    } else if title is None && body is None && !status_given {
        Some("at least one of proposed_title, proposed_body, proposed_status must be provided"@)
    } else if title matches Some(t) && trimmed(t).len() == 0 {
        Some("proposed_title must not be empty"@)
    } else if body matches Some(b) && trimmed(b).len() == 0 {
        Some("proposed_body must not be empty"@)
    } else {
        None
    }
}

/// Checks a proposal to change a hypothesis: a rationale, at least one proposed field, and no
/// blank proposed title or body.
pub fn check_hypothesis_proposal(
    rationale: &str,
    proposed_title: Option<&str>,
    proposed_body: Option<&str>,
    status_given: bool,
) -> (r: Result<(), ToolError>)
    ensures
        ({
            let err = proposal_error(
                rationale@,
                match proposed_title {
                    Some(t) => Some(t@),
                    None => None,
                },
                match proposed_body {
                    Some(b) => Some(b@),
                    None => None,
                },
                status_given,
            );
            &&& (r is Ok <==> err is None)
            &&& (r matches Err(e) ==> e.kind == ErrorKind::InvalidParams && err == Some(e.message@))
        }),
{
    if trim_str(rationale).unicode_len() == 0 {
        return Err(invalid_params(String::from_str("rationale must not be empty")));
    }
    if proposed_title.is_none() && proposed_body.is_none() && !status_given {
        return Err(
            invalid_params(
                String::from_str(
                    "at least one of proposed_title, proposed_body, proposed_status must be provided",
                ),
            ),
        );
    }
    match proposed_title {
        Some(t) => {
            if trim_str(t).unicode_len() == 0 {
                return Err(invalid_params(String::from_str("proposed_title must not be empty")));
            }
        },
        None => {},
    }
    match proposed_body {
        Some(b) => {
            if trim_str(b).unicode_len() == 0 {
                return Err(invalid_params(String::from_str("proposed_body must not be empty")));
            }
        },
        None => {},
    }
    Ok(())
}

/// Why a prediction is refused before anything is looked up, if it is: blank or equal stock
/// ids, or a due date that is not after the base date. Dates are day numbers.
pub open spec fn prediction_error(target: Seq<char>, benchmark: Seq<char>, base_date: i32, due_date: i32) -> Option<
    Seq<char>,
> {
    if trimmed(target).len() == 0 {
        Some("target_stock_id must not be empty"@)
    } else if trimmed(benchmark).len() == 0 {
        Some("benchmark_stock_id must not be empty"@)
    } else if trimmed(target) == trimmed(benchmark) {
        Some("target_stock_id and benchmark_stock_id must differ"@)
    } else if due_date <= base_date {
        Some("due_date must be after base_date"@)
    } else {
        None
    }
}

/// Checks the stocks and dates of a prediction and gives the trimmed stock ids.
pub fn check_prediction(
    target_stock_id: &str,
    benchmark_stock_id: &str,
    base_date: i32,
    due_date: i32,
) -> (r: Result<(String, String), ToolError>)
    ensures
        r is Ok <==> prediction_error(target_stock_id@, benchmark_stock_id@, base_date, due_date) is None,
        r matches Ok((t, b)) ==> t@ == trimmed(target_stock_id@) && b@ == trimmed(
            benchmark_stock_id@,
        ),
        r matches Err(e) ==> e.kind == ErrorKind::InvalidParams && Some(e.message@)
            == prediction_error(target_stock_id@, benchmark_stock_id@, base_date, due_date),
{
    let target = trim_str(target_stock_id);
    let benchmark = trim_str(benchmark_stock_id);
    if target.unicode_len() == 0 {
        return Err(invalid_params(String::from_str("target_stock_id must not be empty")));
    }
    if benchmark.unicode_len() == 0 {
        return Err(invalid_params(String::from_str("benchmark_stock_id must not be empty")));
    }
    if str_equal(target, benchmark) {
        return Err(
            invalid_params(String::from_str("target_stock_id and benchmark_stock_id must differ")),
        );
    }
    if due_date <= base_date {
        return Err(invalid_params(String::from_str("due_date must be after base_date")));
    }
    Ok((String::from_str(target), String::from_str(benchmark)))
}

/// A stored annotation as the replacement reads it: its strategy, its execution step and
/// attempt (if any), and its status.
pub type AnnotationKey = (u128, Option<u128>, Option<Seq<char>>, Seq<char>);

/// Whether a new annotation of `strategy` for `step` in attempt `task` replaces `a`: one of
/// the same strategy and step, still `unread`, made in another (named) attempt.
pub open spec fn is_replaced(a: AnnotationKey, strategy: u128, step: u128, task: Seq<char>) -> bool {
    &&& a.0 == strategy
    &&& a.1 == Some(step)
    &&& a.3 == "unread"@
    &&& a.2 is Some
    &&& a.2 != Some(task)
}

/// The annotations that stay when those that a new one replaces are deleted, in order.
pub open spec fn kept_annotations(
    rows: Seq<AnnotationKey>,
    strategy: u128,
    step: u128,
    task: Seq<char>,
) -> Seq<AnnotationKey>
    decreases rows.len(),
{
    if rows.len() == 0 {
        Seq::empty()
    } else {
        let kept = kept_annotations(rows.drop_last(), strategy, step, task);
        if is_replaced(rows.last(), strategy, step, task) {
            kept
        } else {
            kept.push(rows.last())
        }
    }
}

/// The annotations after a new one `added` is created by `strategy` under the given step and
/// attempt: those it replaces are deleted, and it is added.
pub open spec fn annotations_after_create(
    rows: Seq<AnnotationKey>,
    strategy: u128,
    step: Option<u128>,
    task: Option<Seq<char>>,
    added: AnnotationKey,
) -> Seq<AnnotationKey> {
    match replacement_of(step, task) {
        Some((s, t)) => kept_annotations(rows, strategy, s, t).push(added),
        None => rows.push(added),
    }
}

proof fn lemma_kept_annotations(
    rows: Seq<AnnotationKey>,
    strategy: u128,
    step: u128,
    task: Seq<char>,
    a: AnnotationKey,
)
    ensures
        kept_annotations(rows, strategy, step, task).contains(a) <==> rows.contains(a) && !is_replaced(
            a,
            strategy,
            step,
            task,
        ),
    decreases rows.len(),
{
    broadcast use vstd::seq_lib::group_seq_properties;

    if rows.len() > 0 {
        lemma_kept_annotations(rows.drop_last(), strategy, step, task, a);
        assert(rows =~= rows.drop_last().push(rows.last()));
    }
}

/// Creating an annotation under a step and an attempt replaces the step's unreviewed
/// annotations from earlier attempts: afterwards the strategy holds the new annotation,
/// and of the earlier ones exactly those that are not `unread` for that step from another
/// attempt. Annotations of other steps, of other strategies, already reviewed, or of the same
/// attempt stay.
pub proof fn law_unread_annotations_of_earlier_attempts_replaced(
    rows: Seq<AnnotationKey>,
    strategy: u128,
    step: u128,
    task: Seq<char>,
    added: AnnotationKey,
)
    ensures
        ({
            let after = annotations_after_create(rows, strategy, Some(step), Some(task), added);
            &&& after.last() == added
            &&& forall|a: AnnotationKey|
                #[trigger] after.drop_last().contains(a) <==> rows.contains(a) && !is_replaced(
                    a,
                    strategy,
                    step,
                    task,
                )
        }),
{
    let after = annotations_after_create(rows, strategy, Some(step), Some(task), added);
    let kept = kept_annotations(rows, strategy, step, task);
    assert(after.drop_last() =~= kept);
    assert forall|a: AnnotationKey| #[trigger] after.drop_last().contains(a) <==> rows.contains(a)
        && !is_replaced(a, strategy, step, task) by {
        lemma_kept_annotations(rows, strategy, step, task, a);
    }
}

} // verus!
