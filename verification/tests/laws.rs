use backend::access::check_owned;
use backend::notes::{first_note_write_step, note_write_step_after_lookup, NoteWriteStep};
use backend::records::replaced_annotations;
use backend::risk::{combine_constraints, ConstraintResult};
use backend::validate::validate_symbol;

fn limited(q: i64) -> ConstraintResult {
    ConstraintResult::Limited { max_additional_qty: q }
}

#[test]
fn combined_limit_does_not_depend_on_order() {
    let a = limited(300);
    let b = ConstraintResult::Unlimited;
    let c = limited(200);
    let first = combine_constraints([("position_ratio", &a), ("sector_ratio", &b), ("cash", &c)]);
    let second = combine_constraints([("cash", &c), ("position_ratio", &a), ("sector_ratio", &b)]);
    assert_eq!(first.0, limited(200));
    assert_eq!(second.0, limited(200));
    assert_eq!(first.1, Some("cash".to_string()));
    let u = ConstraintResult::Unavailable { reason: "no price".into() };
    let third = combine_constraints([("cash", &c), ("sector_ratio", &u), ("position_ratio", &a)]);
    assert_eq!(third.0, ConstraintResult::Unavailable { reason: "sector_ratio: no price".into() });
}

#[test]
fn second_write_under_an_execution_id_updates_the_first_note() {
    assert_eq!(first_note_write_step(None, Some("exec-1")), NoteWriteStep::FindByExecutionId("exec-1".into()));
    assert_eq!(note_write_step_after_lookup(None, "exec-1".into()), NoteWriteStep::Create(Some("exec-1".into())));
    assert_eq!(note_write_step_after_lookup(Some(7), "exec-1".into()), NoteWriteStep::Update(7));
}

#[test]
fn explicit_note_id_wins_over_execution_id() {
    assert_eq!(first_note_write_step(Some(9), Some("exec-1")), NoteWriteStep::Update(9));
}

#[test]
fn annotations_of_other_attempts_are_replaced_only_with_step_and_attempt() {
    assert_eq!(replaced_annotations(Some(5), Some("attempt-2")), Some((5, "attempt-2".to_string())));
    assert_eq!(replaced_annotations(Some(5), None), None);
    assert_eq!(replaced_annotations(None, Some("attempt-2")), None);
}

#[test]
fn symbol_with_sign_is_quoted_unchanged() {
    let err = validate_symbol("+720").expect_err("not a code");
    assert_eq!(err.message, "symbol must be a 4-digit stock code, got \"+720\"");
}

#[test]
fn small_uuid_is_written_with_leading_zeros() {
    let err = check_owned(backend::access::RecordKind::Note, 1, Some(Some(2)), 3).expect_err("other");
    assert_eq!(err.message, "forbidden: note 00000000-0000-0000-0000-000000000001 belongs to another strategy");
}
