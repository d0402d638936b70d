use backend::request::{
    execution_id_from_headers, execution_step_id_from_execution_id,
    execution_task_id_from_execution_id, strategy_id_from_headers,
};
use backend::error::ErrorKind;
use uuid::Uuid;

#[test]
fn strategy_id_from_headers_parses_uuid() {
    let id = Uuid::new_v4();
    let text = id.to_string();
    let parsed = strategy_id_from_headers(Some(text.as_bytes())).expect("parsed strategy id");
    assert_eq!(parsed, id.as_u128());
}

#[test]
fn strategy_id_from_headers_trims_surrounding_spaces() {
    let id = Uuid::new_v4();
    let text = format!("  {id}\t");
    let parsed = strategy_id_from_headers(Some(text.as_bytes())).expect("parsed strategy id");
    assert_eq!(parsed, id.as_u128());
}

#[test]
fn strategy_id_from_headers_rejects_missing() {
    let err = strategy_id_from_headers(None).expect_err("missing header");
    assert_eq!(err.kind, ErrorKind::InvalidParams);
    assert_eq!(err.message, "missing x-strategy-id header on strategy mcp request");
}

#[test]
fn strategy_id_from_headers_rejects_not_uuid() {
    let err = strategy_id_from_headers(Some(b"not-a-uuid".as_slice())).expect_err("not a uuid");
    assert_eq!(err.kind, ErrorKind::InvalidParams);
    assert_eq!(err.message, "x-strategy-id header is not a valid uuid: not-a-uuid");
}

#[test]
fn strategy_id_from_headers_rejects_non_ascii() {
    let err = strategy_id_from_headers(Some([0xff, 0xfe].as_slice())).expect_err("not ascii");
    assert_eq!(err.message, "x-strategy-id header is not valid ASCII");
}

#[test]
fn execution_id_from_headers_missing() {
    assert_eq!(execution_id_from_headers(None), None);
}

#[test]
fn execution_id_from_headers_empty() {
    assert_eq!(execution_id_from_headers(Some(b"".as_slice())), None);
}

#[test]
fn execution_id_from_headers_whitespace_only() {
    assert_eq!(execution_id_from_headers(Some(b"   ".as_slice())), None);
}

#[test]
fn execution_id_from_headers_non_ascii() {
    assert_eq!(execution_id_from_headers(Some([0xff, 0xfe].as_slice())), None);
}

#[test]
fn execution_id_from_headers_valid() {
    assert_eq!(execution_id_from_headers(Some(b"exec-1".as_slice())), Some("exec-1".to_string()));
}

#[test]
fn execution_step_id_from_execution_id_valid() {
    let expected = Uuid::parse_str("550e8400-e29b-41d4-a716-446655440000").expect("uuid").as_u128();
    assert_eq!(
        execution_step_id_from_execution_id("a2a-task-1:550e8400-e29b-41d4-a716-446655440000"),
        Some(expected)
    );
}

#[test]
fn execution_step_id_from_execution_id_no_colon() {
    assert_eq!(execution_step_id_from_execution_id("no-colon-here"), None);
}

#[test]
fn execution_step_id_from_execution_id_not_uuid_after_colon() {
    assert_eq!(execution_step_id_from_execution_id("task:not-a-uuid"), None);
}

#[test]
fn execution_step_id_uses_the_last_colon() {
    let expected = Uuid::parse_str("550e8400-e29b-41d4-a716-446655440000").expect("uuid").as_u128();
    assert_eq!(
        execution_step_id_from_execution_id("a:b:550e8400-e29b-41d4-a716-446655440000"),
        Some(expected)
    );
}

#[test]
fn execution_task_id_from_execution_id_valid() {
    assert_eq!(
        execution_task_id_from_execution_id("a2a-task-1:550e8400-e29b-41d4-a716-446655440000"),
        Some("a2a-task-1")
    );
}

#[test]
fn execution_task_id_from_execution_id_no_colon() {
    assert_eq!(execution_task_id_from_execution_id("no-colon-here"), None);
}

#[test]
fn execution_task_id_from_execution_id_empty_task_id_part() {
    assert_eq!(execution_task_id_from_execution_id(":550e8400-e29b-41d4-a716-446655440000"), None);
}
