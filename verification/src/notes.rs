//! Notes written by a strategy: what a partial update changes, what a new note starts with,
//! and which listings are accepted. The front matter and graph definitions are carried as
//! opaque values `F` and `G`; the graphs arrive already serialised, or with the text of the
//! serialisation error.

use vstd::prelude::*;
use vstd::string::*;

use crate::error::{ErrorKind, ToolError, internal_error, invalid_params};
use crate::access::{uuid_text, uuid_text_of};
use crate::json::JsonValue;
use crate::text::{trim_str, trimmed};

verus! {

/// The actor kind recorded for writes made by the strategy agent.
pub open spec fn strategy_agent_actor() -> Seq<char> {
    "llm"@
}

/// The content of one version of a note.
#[derive(Debug, Clone)]
pub struct NoteContent<F, G> {
    pub title: String,
    pub body_md: String,
    pub frontmatter: F,
    pub graphs: G,
}

/// The fields a caller asks to change; an absent field is left as it is. `type_tag` is
/// `Some(None)` to clear the tag.
#[derive(Debug)]
pub struct NoteChanges<F, G> {
    pub title: Option<String>,
    pub body_md: Option<String>,
    pub type_tag: Option<Option<String>>,
    pub frontmatter: Option<F>,
    pub graphs: Option<Result<G, String>>,
}

/// What an accepted update writes: the tag to set, if one was given, and the content of the
/// new version, if any versioned field was given. When no new version is written, the note's
/// modification time is set by hand.
#[derive(Debug)]
pub struct NoteUpdate<F, G> {
    pub type_tag: Option<Option<String>>,
    pub new_version: Option<NoteContent<F, G>>,
}

/// The message with which an update that names no field is refused.
pub open spec fn nothing_to_update_message() -> Seq<char> {
    "at least one of title / body_md / type_tag / frontmatter_json / graphs must be provided"@
}

/// Why an update is refused, if it is, in the order the checks are made: a title that is
/// blank once trimmed, graphs that could not be serialised, no field at all.
pub open spec fn update_error<F, G>(changes: NoteChanges<F, G>) -> Option<(ErrorKind, Seq<char>)> {
    if changes.title matches Some(t) && trimmed(t@).len() == 0 {
        Some((ErrorKind::InvalidParams, "title must not be empty"@))
    } else {
        match changes.graphs {
            Some(Err(e)) => Some((ErrorKind::InternalError, "failed to serialize graphs: "@ + e@)),
            _ => if changes.title is None && changes.body_md is None && changes.type_tag is None
                && changes.frontmatter is None && changes.graphs is None {
                Some((ErrorKind::InvalidParams, nothing_to_update_message()))
            } else {
                None
            },
        }
    }
}

/// Whether a field that lives in the note's versions is among the changes.
pub open spec fn changes_version<F, G>(changes: NoteChanges<F, G>) -> bool {
    changes.title is Some || changes.body_md is Some || changes.frontmatter is Some
        || changes.graphs is Some
}

/// The views of an optional optional string.
pub open spec fn tag_view(t: Option<Option<String>>) -> Option<Option<Seq<char>>> {
    match t {
        Some(Some(s)) => Some(Some(s@)),
        Some(None) => Some(None),
        None => None,
    }
}

/// Whether `next` is the current version with each given field replaced: the title trimmed,
/// the other fields as given.
pub open spec fn next_version<F, G>(
    current: NoteContent<F, G>,
    changes: NoteChanges<F, G>,
    next: NoteContent<F, G>,
) -> bool {
    &&& next.title@ == match changes.title {
        Some(t) => trimmed(t@),
        None => current.title@,
    }
    &&& next.body_md@ == match changes.body_md {
        Some(b) => b@,
        None => current.body_md@,
    }
    &&& next.frontmatter == match changes.frontmatter {
        Some(f) => f,
        None => current.frontmatter,
    }
    &&& next.graphs == match changes.graphs {
        Some(Ok(g)) => g,
        _ => current.graphs,
    }
}

/// A partial update writes each given field into the new version (the title trimmed) and
/// keeps each absent one as the current version has it.
pub proof fn law_given_fields_are_written<F, G>(
    current: NoteContent<F, G>,
    changes: NoteChanges<F, G>,
    next: NoteContent<F, G>,
)
    requires
        next_version(current, changes, next),
    ensures
        changes.title matches Some(t) ==> next.title@ == trimmed(t@),
        changes.title is None ==> next.title@ == current.title@,
        changes.body_md matches Some(b) ==> next.body_md@ == b@,
        changes.body_md is None ==> next.body_md@ == current.body_md@,
        changes.frontmatter matches Some(f) ==> next.frontmatter == f,
        changes.frontmatter is None ==> next.frontmatter == current.frontmatter,
        changes.graphs matches Some(Ok(g)) ==> next.graphs == g,
        changes.graphs is None ==> next.graphs == current.graphs,
{
}

/// Applies a partial update to a note whose current version is `current`. Refused when the
/// given title is blank, when the graphs could not be serialised, or when nothing is given.
/// Otherwise the tag is set if given, and a new version is written exactly when a versioned
/// field (title, body, front matter, graphs) is given.
pub fn plan_note_update<F, G>(current: NoteContent<F, G>, changes: NoteChanges<F, G>) -> (r: Result<
    NoteUpdate<F, G>,
    ToolError,
>)
    ensures
        r is Ok <==> update_error(changes) is None,
        r matches Err(e) ==> update_error(changes) == Some((e.kind, e.message@)),
        r matches Ok(u) ==> {
            &&& tag_view(u.type_tag) == tag_view(changes.type_tag)
            &&& (u.new_version is Some <==> changes_version(changes))
            &&& (u.new_version matches Some(next) ==> next_version(current, changes, next))
        },
{
    let ghost given = changes;
    let NoteChanges { title, body_md, type_tag, frontmatter, graphs } = changes;
    let mut touched = false;
    let mut version_changed = false;
    let mut next_title = current.title;
    let mut next_body = current.body_md;
    let mut next_frontmatter = current.frontmatter;
    let mut next_graphs = current.graphs;
    match title {
        Some(t) => {
            let trimmed_title = trim_str(t.as_str());
            if trimmed_title.unicode_len() == 0 {
                return Err(invalid_params(String::from_str("title must not be empty")));
            }
            next_title = String::from_str(trimmed_title);
            touched = true;
            version_changed = true;
        },
        None => {},
    }
    match body_md {
        Some(b) => {
            next_body = b;
            touched = true;
            version_changed = true;
        },
        None => {},
    }
    if type_tag.is_some() {
        touched = true;
    }
    match frontmatter {
        Some(f) => {
            next_frontmatter = f;
            touched = true;
            version_changed = true;
        },
        None => {},
    }
    match graphs {
        Some(Ok(g)) => {
            next_graphs = g;
            touched = true;
            version_changed = true;
        },
        Some(Err(e)) => {
            let mut message = String::from_str("failed to serialize graphs: ");
            message.append(e.as_str());
            return Err(internal_error(message));
        },
        None => {},
    }
    if !touched {
        return Err(
            invalid_params(
                String::from_str(
                    "at least one of title / body_md / type_tag / frontmatter_json / graphs must be provided",
                ),
            ),
        );
    }
    let new_version = if version_changed {
        Some(
            NoteContent {
                title: next_title,
                body_md: next_body,
                frontmatter: next_frontmatter,
                graphs: next_graphs,
            },
        )
    } else {
        None
    };
    Ok(NoteUpdate { type_tag, new_version })
}

/// What a new note is created with: its tag and the content of its first version.
#[derive(Debug)]
pub struct NewNote<F, G> {
    pub type_tag: Option<String>,
    pub content: NoteContent<F, G>,
}

/// Why a new note is refused, if it is: a missing or blank title, or graphs that could not be
/// serialised.
pub open spec fn new_note_error<F, G>(changes: NoteChanges<F, G>) -> Option<(ErrorKind, Seq<char>)> {
    if changes.title is None || trimmed(changes.title->0@).len() == 0 {
        Some((ErrorKind::InvalidParams, "title is required when creating a new note"@))
    } else {
        match changes.graphs {
            Some(Err(e)) => Some((ErrorKind::InternalError, "failed to serialize graphs: "@ + e@)),
            _ => None,
        }
    }
}

/// Builds a new note from the request: the trimmed title is required; the body defaults to
/// empty, the front matter and graphs to the given empty values, and a cleared or absent tag
/// to none.
pub fn plan_new_note<F, G>(changes: NoteChanges<F, G>, empty_frontmatter: F, empty_graphs: G) -> (r: Result<
    NewNote<F, G>,
    ToolError,
>)
    ensures
        r is Ok <==> new_note_error(changes) is None,
        r matches Err(e) ==> new_note_error(changes) == Some((e.kind, e.message@)),
        r matches Ok(n) ==> {
            &&& n.content.title@ == trimmed(changes.title->0@)
            &&& n.content.body_md@ == match changes.body_md {
                Some(b) => b@,
                None => Seq::empty(),
            }
            &&& n.content.frontmatter == match changes.frontmatter {
                Some(f) => f,
                None => empty_frontmatter,
            }
            &&& n.content.graphs == match changes.graphs {
                Some(Ok(g)) => g,
                _ => empty_graphs,
            }
            &&& match changes.type_tag {
                Some(Some(t)) => n.type_tag matches Some(x) && x@ == t@,
                _ => n.type_tag is None,
            }
        },
{
    let NoteChanges { title, body_md, type_tag, frontmatter, graphs } = changes;
    let title = match title {
        None => {
            return Err(invalid_params(String::from_str("title is required when creating a new note")));
        },
        Some(t) => {
            let trimmed_title = trim_str(t.as_str());
            if trimmed_title.unicode_len() == 0 {
                return Err(
                    invalid_params(String::from_str("title is required when creating a new note")),
                );
            }
            String::from_str(trimmed_title)
        },
    };
    let body_md = match body_md {
        Some(b) => b,
        None => String::new(),
    };
    let frontmatter = match frontmatter {
        Some(f) => f,
        None => empty_frontmatter,
    };
    let graphs = match graphs {
        Some(Ok(g)) => g,
        Some(Err(e)) => {
            let mut message = String::from_str("failed to serialize graphs: ");
            message.append(e.as_str());
            return Err(internal_error(message));
        },
        None => empty_graphs,
    };
    let type_tag = match type_tag {
        Some(Some(t)) => Some(t),
        _ => None,
    };
    Ok(NewNote { type_tag, content: NoteContent { title, body_md, frontmatter, graphs } })
}

/// The note statuses a listing may filter on.
pub open spec fn is_note_status(s: Seq<char>) -> bool {
    s == "approved"@ || s == "unread"@ || s == "rejected"@
}

/// The message with which an unknown status filter is refused.
pub open spec fn bad_status_message(s: Seq<char>) -> Seq<char> {
    "invalid status: "@ + s + " (expected one of [\"approved\", \"unread\", \"rejected\"])"@
}

/// Checks the status filter of a note listing and says whether bodies are included
/// (by default they are).
pub fn check_list_notes(status: Option<&str>, include_body: Option<bool>) -> (r: Result<
    bool,
    ToolError,
>)
    ensures
        r is Ok <==> (status matches Some(s) ==> is_note_status(s@)),
        r matches Ok(b) ==> b == match include_body {
            Some(x) => x,
            None => true,
        },
        r matches Err(e) ==> (e.kind == ErrorKind::InvalidParams && (status matches Some(s)
            && e.message@ == bad_status_message(s@))),
{
    match status {
        Some(s) => {
            let v = String::from_str(s);
            if !(v == String::from_str("approved") || v == String::from_str("unread") || v
                == String::from_str("rejected")) {
                let mut message = String::from_str("invalid status: ");
                message.append(s);
                message.append(" (expected one of [\"approved\", \"unread\", \"rejected\"])");
                return Err(invalid_params(message));
            }
        },
        None => {},
    }
    match include_body {
        Some(x) => Ok(x),
        None => Ok(true),
    }
}

/// The next step of writing a note.
#[derive(Debug, Clone, PartialEq, Eq)]
pub enum NoteWriteStep {
    /// Apply the request as an update of this note.
    Update(u128),
    /// Look for the strategy's note written under this execution id.
    FindByExecutionId(String),
    /// Check that the strategy exists, then create a note; with an execution id, the creation
    /// may lose a race to a concurrent call with the same id.
    Create(Option<String>),
}

/// The views of a write step.
pub open spec fn step_view(s: NoteWriteStep) -> (u8, u128, Option<Seq<char>>) {
    match s {
        NoteWriteStep::Update(id) => (0, id, None),
        NoteWriteStep::FindByExecutionId(e) => (1, 0, Some(e@)),
        NoteWriteStep::Create(e) => (2, 0, match e {
            Some(x) => Some(x@),
            None => None,
        }),
    }
}

/// The view of an optional text.
pub open spec fn opt_text(s: Option<&str>) -> Option<Seq<char>> {
    match s {
        Some(x) => Some(x@),
        None => None,
    }
}

/// The view of the first step of a write (see `first_note_write_step`).
pub open spec fn first_step_view(note_id: Option<u128>, execution_id: Option<Seq<char>>) -> (
    u8,
    u128,
    Option<Seq<char>>,
) {
    match (note_id, execution_id) {
        (Some(id), _) => (0u8, id, None::<Seq<char>>),
        (None, Some(e)) => (1u8, 0u128, Some(e)),
        (None, None) => (2u8, 0u128, None::<Seq<char>>),
    }
}

/// The view of the step after looking a note up by execution id (see
/// `note_write_step_after_lookup`).
pub open spec fn step_after_lookup_view(found: Option<u128>, execution_id: Seq<char>) -> (
    u8,
    u128,
    Option<Seq<char>>,
) {
    match found {
        Some(id) => (0u8, id, None::<Seq<char>>),
        None => (2u8, 0u128, Some(execution_id)),
    }
}

/// The first step of a write: a given note id is updated; otherwise a note already written
/// under the call's execution id is looked for; without one, a note is created.
pub fn first_note_write_step(note_id: Option<u128>, execution_id: Option<&str>) -> (r: NoteWriteStep)
    ensures
        step_view(r) == first_step_view(note_id, opt_text(execution_id)),
{
    match note_id {
        Some(id) => NoteWriteStep::Update(id),
        None => match execution_id {
            Some(e) => NoteWriteStep::FindByExecutionId(String::from_str(e)),
            None => NoteWriteStep::Create(None),
        },
    }
}

/// The step after looking a note up by execution id: the note found is updated; without
/// one, a note is created under that execution id.
pub fn note_write_step_after_lookup(found: Option<u128>, execution_id: String) -> (r: NoteWriteStep)
    ensures
        step_view(r) == step_after_lookup_view(found, execution_id@),
{
    match found {
        Some(id) => NoteWriteStep::Update(id),
        None => NoteWriteStep::Create(Some(execution_id)),
    }
}

/// The outcome of a creation that lost the race to a concurrent one with the same execution
/// id: the winner's note is updated; if it cannot be found again, the database is
/// inconsistent.
pub fn note_after_lost_race(found: Option<u128>) -> (r: Result<u128, ToolError>)
    ensures
        found matches Some(id) ==> r == Ok::<u128, ToolError>(id),
        found is None ==> (r matches Err(e) && e.kind == ErrorKind::InternalError && e.message@
            == "database error: "@ + "Custom Error: note disappeared between ON CONFLICT and SELECT"@),
{
    match found {
        Some(id) => Ok(id),
        None => Err(
            crate::error::database_error("Custom Error: note disappeared between ON CONFLICT and SELECT"),
        ),
    }
}

/// The error when a note's version cannot be found: a requested version that is not the
/// note's is the caller's mistake; a note without a current version is internal.
pub open spec fn missing_version_message(note_id: u128, version_id: Option<u128>) -> (ErrorKind, Seq<char>) {
    match version_id {
        Some(v) => (
            ErrorKind::InvalidParams,
            "version_id "@ + uuid_text_of(v) + " does not belong to note "@ + uuid_text_of(note_id),
        ),
        None => (ErrorKind::InternalError, "note "@ + uuid_text_of(note_id) + " has no current version"@),
    }
}

/// Builds the error for a version of a note that cannot be found.
pub fn missing_version_error(note_id: u128, version_id: Option<u128>) -> (e: ToolError)
    ensures
        (e.kind, e.message@) == missing_version_message(note_id, version_id),
{
    let note = uuid_text(note_id);
    match version_id {
        Some(v) => {
            let mut m = String::from_str("version_id ");
            let version = uuid_text(v);
            m.append(version.as_str());
            m.append(" does not belong to note ");
            m.append(note.as_str());
            invalid_params(m)
        },
        None => {
            let mut m = String::from_str("note ");
            m.append(note.as_str());
            m.append(" has no current version");
            internal_error(m)
        },
    }
}

/// Builds the internal error for a note whose first version cannot be found.
pub fn missing_initial_version_error(note_id: u128) -> (e: ToolError)
    ensures
        e.kind == ErrorKind::InternalError,
        e.message@ == "note "@ + uuid_text_of(note_id) + " has no initial version"@,
{
    let mut m = String::from_str("note ");
    let note = uuid_text(note_id);
    m.append(note.as_str());
    m.append(" has no initial version");
    internal_error(m)
}

/// The front matter of a stored version, which must be a JSON object: its members, or an
/// internal error.
pub fn frontmatter_members(frontmatter: JsonValue) -> (r: Result<Vec<(String, JsonValue)>, ToolError>)
    ensures
        match frontmatter {
            JsonValue::Object(members) => r matches Ok(m) && m@ == members@,
            _ => r matches Err(e) && e.kind == ErrorKind::InternalError && e.message@
                == "note_version.frontmatter_json is not a JSON object"@,
        },
{
    match frontmatter {
        JsonValue::Object(members) => Ok(members),
        _ => Err(internal_error(String::from_str("note_version.frontmatter_json is not a JSON object"))),
    }
}

/// The body a note listing returns: the body when bodies are included, else none.
pub fn included_body(body_md: String, include_body: bool) -> (r: Option<String>)
    ensures
        include_body ==> (r matches Some(b) && b@ == body_md@),
        !include_body ==> r is None,
{
    if include_body {
        Some(body_md)
    } else {
        None
    }
}

/// The note that the lookup by execution id finds, with a strategy's notes given as far as
/// writes are routed: each note's id and the execution id it was written under, in the order
/// they were created.
pub open spec fn note_under(notes: Seq<(u128, Option<Seq<char>>)>, execution_id: Seq<char>) -> Option<
    u128,
>
    decreases notes.len(),
{
    if notes.len() == 0 {
        None
    } else {
        match note_under(notes.drop_last(), execution_id) {
            Some(id) => Some(id),
            None => if notes.last().1 == Some(execution_id) {
                Some(notes.last().0)
            } else {
                None
            },
        }
    }
}

/// Where a write ends, by the two routing steps: `(0, id, _)` updates note `id`; `(2, _, e)`
/// creates a note under execution id `e` (if any). The lookup by execution id finds
/// `note_under(notes, e)`.
pub open spec fn write_outcome(
    notes: Seq<(u128, Option<Seq<char>>)>,
    note_id: Option<u128>,
    execution_id: Option<Seq<char>>,
) -> (u8, u128, Option<Seq<char>>) {
    let first = first_step_view(note_id, execution_id);
    if first.0 == 1 {
        step_after_lookup_view(note_under(notes, first.2.unwrap()), first.2.unwrap())
    } else {
        first
    }
}

/// The notes after a write: an update leaves the list of notes as it is; a creation adds the
/// new note `new_id` under the execution id of the call.
pub open spec fn notes_after_write(
    notes: Seq<(u128, Option<Seq<char>>)>,
    note_id: Option<u128>,
    execution_id: Option<Seq<char>>,
    new_id: u128,
) -> Seq<(u128, Option<Seq<char>>)> {
    let o = write_outcome(notes, note_id, execution_id);
    if o.0 == 0 {
        notes
    } else {
        notes.push((new_id, o.2))
    }
}

proof fn lemma_note_under_push(
    notes: Seq<(u128, Option<Seq<char>>)>,
    execution_id: Seq<char>,
    new_id: u128,
)
    requires
        note_under(notes, execution_id) is None,
    ensures
        note_under(notes.push((new_id, Some(execution_id))), execution_id) == Some(new_id),
{
    assert(notes.push((new_id, Some(execution_id))).drop_last() =~= notes);
}

/// Repeated writes under one execution id, without a note id, collapse onto one note: the
/// second write updates the note that the first one created or updated, and adds no note.
pub proof fn law_execution_writes_collapse(
    notes: Seq<(u128, Option<Seq<char>>)>,
    execution_id: Seq<char>,
    first_new_id: u128,
    second_new_id: u128,
)
    ensures
        ({
            let first = write_outcome(notes, None, Some(execution_id));
            let written = if first.0 == 0 {
                first.1
            } else {
                first_new_id
            };
            let after = notes_after_write(notes, None, Some(execution_id), first_new_id);
            &&& write_outcome(after, None, Some(execution_id)) == (0u8, written, None::<Seq<char>>)
            &&& notes_after_write(after, None, Some(execution_id), second_new_id) == after
        }),
{
    if note_under(notes, execution_id) is None {
        lemma_note_under_push(notes, execution_id, first_new_id);
    }
}

/// A given note id wins over the lookup by execution id: the write updates that note, and
/// the note written under the execution id, like every other, is left as it is.
pub proof fn law_explicit_note_id_wins(
    notes: Seq<(u128, Option<Seq<char>>)>,
    note_id: u128,
    execution_id: Option<Seq<char>>,
    new_id: u128,
)
    ensures
        write_outcome(notes, Some(note_id), execution_id) == (0u8, note_id, None::<Seq<char>>),
        notes_after_write(notes, Some(note_id), execution_id, new_id) == notes,
{
}

} // verus!
