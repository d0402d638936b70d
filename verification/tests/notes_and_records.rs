use backend::access::{check_hypothesis_visible, check_owned, check_strategy_exists, scoped_strategy_id, RecordKind};
use backend::error::ErrorKind;
use backend::json::JsonValue;
use backend::notes::{
    check_list_notes, first_note_write_step, frontmatter_members, missing_version_error,
    note_after_lost_race, note_write_step_after_lookup, plan_new_note, plan_note_update, NoteChanges,
    NoteContent, NoteWriteStep,
};
use backend::records::{
    check_hypothesis_proposal, check_new_annotation, check_prediction, check_reply_body,
    comment_target_from_param, comment_target_from_stored, replaced_annotations, CommentTarget,
};
use backend::text::nonblank_trimmed;
use uuid::Uuid;

fn current() -> NoteContent<u32, u32> {
    NoteContent { title: "old".into(), body_md: "body".into(), frontmatter: 1, graphs: 2 }
}

fn changes() -> NoteChanges<u32, u32> {
    NoteChanges { title: None, body_md: None, type_tag: None, frontmatter: None, graphs: None }
}

#[test]
fn update_needs_a_field() {
    let err = plan_note_update(current(), changes()).expect_err("nothing");
    assert_eq!(err.kind, ErrorKind::InvalidParams);
    assert_eq!(err.message, "at least one of title / body_md / type_tag / frontmatter_json / graphs must be provided");
}

#[test]
fn update_refuses_blank_title() {
    let mut c = changes();
    c.title = Some("   ".into());
    c.body_md = Some("x".into());
    assert_eq!(plan_note_update(current(), c).expect_err("blank").message, "title must not be empty");
}

#[test]
fn update_reports_graph_serialisation_failure() {
    let mut c = changes();
    c.graphs = Some(Err("bad".into()));
    let err = plan_note_update(current(), c).expect_err("graphs");
    assert_eq!((err.kind, err.message.as_str()), (ErrorKind::InternalError, "failed to serialize graphs: bad"));
}

#[test]
fn update_of_tag_only_writes_no_version() {
    let mut c = changes();
    c.type_tag = Some(None);
    let u = plan_note_update(current(), c).expect("ok");
    assert_eq!(u.type_tag, Some(None));
    assert!(u.new_version.is_none());
}

#[test]
fn update_replaces_only_given_fields() {
    let mut c = changes();
    c.title = Some("  new title ".into());
    c.graphs = Some(Ok(9));
    let u = plan_note_update(current(), c).expect("ok");
    let v = u.new_version.expect("version");
    assert_eq!((v.title.as_str(), v.body_md.as_str(), v.frontmatter, v.graphs), ("new title", "body", 1, 9));
    assert_eq!(u.type_tag, None);
}

#[test]
fn new_note_needs_title_and_takes_defaults() {
    let err = plan_new_note(changes(), 0, 0).expect_err("title");
    assert_eq!(err.message, "title is required when creating a new note");
    let mut c = changes();
    c.title = Some(" t ".into());
    c.type_tag = Some(Some("observation".into()));
    let n = plan_new_note(c, 7, 8).expect("ok");
    assert_eq!((n.content.title.as_str(), n.content.body_md.as_str(), n.content.frontmatter, n.content.graphs), ("t", "", 7, 8));
    assert_eq!(n.type_tag, Some("observation".to_string()));
}

#[test]
fn list_notes_status_filter() {
    assert_eq!(check_list_notes(Some("unread"), None).expect("ok"), true);
    assert_eq!(check_list_notes(None, Some(false)).expect("ok"), false);
    let err = check_list_notes(Some("draft"), None).expect_err("bad");
    assert_eq!(err.message, "invalid status: draft (expected one of [\"approved\", \"unread\", \"rejected\"])");
}

#[test]
fn note_write_routing() {
    assert_eq!(first_note_write_step(Some(5), Some("e")), NoteWriteStep::Update(5));
    assert_eq!(first_note_write_step(None, Some("e")), NoteWriteStep::FindByExecutionId("e".into()));
    assert_eq!(first_note_write_step(None, None), NoteWriteStep::Create(None));
    assert_eq!(note_write_step_after_lookup(Some(3), "e".into()), NoteWriteStep::Update(3));
    assert_eq!(note_write_step_after_lookup(None, "e".into()), NoteWriteStep::Create(Some("e".into())));
    assert_eq!(note_after_lost_race(Some(4)).expect("ok"), 4);
    let err = note_after_lost_race(None).expect_err("gone");
    assert_eq!(err.message, "database error: Custom Error: note disappeared between ON CONFLICT and SELECT");
}

#[test]
fn missing_version_messages() {
    let note = Uuid::parse_str("550e8400-e29b-41d4-a716-446655440000").expect("uuid");
    let version = Uuid::parse_str("6ba7b810-9dad-11d1-80b4-00c04fd430c8").expect("uuid");
    let e = missing_version_error(note.as_u128(), Some(version.as_u128()));
    assert_eq!(e.kind, ErrorKind::InvalidParams);
    assert_eq!(e.message, format!("version_id {version} does not belong to note {note}"));
    let e = missing_version_error(note.as_u128(), None);
    assert_eq!((e.kind, e.message), (ErrorKind::InternalError, format!("note {note} has no current version")));
}

#[test]
fn frontmatter_must_be_an_object() {
    let m = frontmatter_members(JsonValue::Object(vec![("k".into(), JsonValue::Null)])).expect("object");
    assert_eq!(m.len(), 1);
    let err = frontmatter_members(JsonValue::Array(vec![])).expect_err("array");
    assert_eq!(err.message, "note_version.frontmatter_json is not a JSON object");
}

#[test]
fn ownership_checks() {
    let id = Uuid::parse_str("550e8400-e29b-41d4-a716-446655440000").expect("uuid");
    assert!(check_owned(RecordKind::Note, id.as_u128(), Some(Some(1)), 1).is_ok());
    let err = check_owned(RecordKind::Note, id.as_u128(), None, 1).expect_err("missing");
    assert_eq!((err.kind, err.message.as_str()), (ErrorKind::ResourceNotFound, "note not found"));
    let err = check_owned(RecordKind::Annotation, id.as_u128(), Some(Some(2)), 1).expect_err("other");
    assert_eq!(err.kind, ErrorKind::InvalidParams);
    assert_eq!(err.message, format!("forbidden: annotation {id} belongs to another strategy"));
    assert!(check_owned(RecordKind::Note, id.as_u128(), Some(None), 1).is_err());
}

#[test]
fn hypotheses_of_the_account_are_visible_to_every_strategy() {
    let id = Uuid::new_v4();
    assert!(check_hypothesis_visible(id.as_u128(), Some(None), 1).is_ok());
    assert!(check_hypothesis_visible(id.as_u128(), Some(Some(1)), 1).is_ok());
    let err = check_hypothesis_visible(id.as_u128(), Some(Some(2)), 1).expect_err("other");
    assert_eq!(err.message, format!("forbidden: hypothesis {id} belongs to another strategy"));
    assert_eq!(check_hypothesis_visible(id.as_u128(), None, 1).expect_err("missing").kind, ErrorKind::ResourceNotFound);
}

#[test]
fn strategy_and_scope_checks() {
    let id = Uuid::new_v4();
    assert!(check_strategy_exists(id.as_u128(), true).is_ok());
    assert_eq!(check_strategy_exists(id.as_u128(), false).expect_err("missing").message, format!("strategy {id} not found"));
    assert_eq!(scoped_strategy_id(RecordKind::Annotation, id.as_u128(), Some(9)).expect("ok"), 9);
    let err = scoped_strategy_id(RecordKind::Annotation, id.as_u128(), None).expect_err("none");
    assert_eq!((err.kind, err.message), (ErrorKind::InternalError, format!("annotation {id} has no strategy_id despite session scoping")));
}

#[test]
fn annotation_checks() {
    assert_eq!(check_new_annotation(" 7203 ", " chart ", "text").expect("ok"), ("7203".to_string(), "chart".to_string()));
    assert_eq!(check_new_annotation(" ", "k", "t").expect_err("s").message, "target_symbol must not be empty");
    assert_eq!(check_new_annotation("s", "", "t").expect_err("k").message, "target_kind must not be empty");
    assert_eq!(check_new_annotation("s", "k", "\n").expect_err("t").message, "text must not be empty");
    assert_eq!(replaced_annotations(Some(3), Some("task-2")), Some((3, "task-2".to_string())));
    assert_eq!(replaced_annotations(Some(3), None), None);
    assert_eq!(nonblank_trimmed(Some(" 7203 ")), Some("7203".to_string()));
    assert_eq!(nonblank_trimmed(Some("  ")), None);
}

#[test]
fn comment_checks() {
    assert_eq!(comment_target_from_param("note").expect("ok"), CommentTarget::Note);
    assert_eq!(comment_target_from_param("annotation").expect("ok"), CommentTarget::Annotation);
    let err = comment_target_from_param("hypothesis").expect_err("bad");
    assert_eq!(err.message, "invalid target_kind: hypothesis (expected one of [\"note\", \"annotation\"])");
    let err = comment_target_from_stored("x").expect_err("bad");
    assert_eq!((err.kind, err.message.as_str()), (ErrorKind::InternalError, "comment has unexpected target_kind: x"));
    assert_eq!(check_reply_body("  ").expect_err("blank").message, "body must not be empty");
}

#[test]
fn hypothesis_proposal_checks() {
    assert_eq!(check_hypothesis_proposal(" ", Some("t"), None, false).expect_err("r").message, "rationale must not be empty");
    assert_eq!(
        check_hypothesis_proposal("why", None, None, false).expect_err("none").message,
        "at least one of proposed_title, proposed_body, proposed_status must be provided"
    );
    assert_eq!(check_hypothesis_proposal("why", Some(" "), None, false).expect_err("t").message, "proposed_title must not be empty");
    assert_eq!(check_hypothesis_proposal("why", None, Some(""), false).expect_err("b").message, "proposed_body must not be empty");
    assert!(check_hypothesis_proposal("why", None, None, true).is_ok());
}

#[test]
fn prediction_checks() {
    assert_eq!(check_prediction(" 7203 ", "1306", 1, 2).expect("ok"), ("7203".to_string(), "1306".to_string()));
    assert_eq!(check_prediction(" ", "1306", 1, 2).expect_err("t").message, "target_stock_id must not be empty");
    assert_eq!(check_prediction("7203", "", 1, 2).expect_err("b").message, "benchmark_stock_id must not be empty");
    assert_eq!(check_prediction("7203", " 7203", 1, 2).expect_err("same").message, "target_stock_id and benchmark_stock_id must differ");
    assert_eq!(check_prediction("7203", "1306", 2, 2).expect_err("dates").message, "due_date must be after base_date");
}
