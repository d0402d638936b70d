use backend::bars::{evidence_window, group_bars, validate_query_data};
use backend::error::ErrorKind;

fn ids(v: &[&str]) -> Vec<String> {
    v.iter().map(|s| s.to_string()).collect()
}

#[test]
fn query_data_rejects_empty_list() {
    let err = validate_query_data(&vec![], 1, 2).expect_err("empty");
    assert_eq!((err.kind, err.message.as_str()), (ErrorKind::InvalidParams, "instrument_ids must not be empty"));
}

#[test]
fn query_data_rejects_too_many_instruments() {
    let many: Vec<String> = (0..101).map(|i| format!("{i}")).collect();
    let err = validate_query_data(&many, 1, 2).expect_err("too many");
    assert_eq!(err.message, "instrument_ids must not exceed 100 entries");
    let hundred: Vec<String> = (0..100).map(|i| format!("{i}")).collect();
    assert!(validate_query_data(&hundred, 1, 2).is_ok());
}

#[test]
fn query_data_rejects_reversed_dates() {
    let err = validate_query_data(&ids(&["7203"]), 3, 2).expect_err("reversed");
    assert_eq!(err.message, "from must be on or before to");
}

#[test]
fn query_data_rejects_blank_ids() {
    let err = validate_query_data(&ids(&["7203", "  "]), 1, 2).expect_err("blank");
    assert_eq!(err.message, "instrument_ids must not contain empty values");
}

#[test]
fn query_data_rejects_duplicates_after_trimming() {
    let err = validate_query_data(&ids(&["7203", " 7203 "]), 1, 2).expect_err("dup");
    assert_eq!(err.message, "instrument_ids must not contain duplicates");
}

#[test]
fn query_data_trims_ids() {
    assert_eq!(validate_query_data(&ids(&[" 7203", "6758 "]), 1, 1).expect("ok"), ids(&["7203", "6758"]));
}

#[test]
fn bars_are_grouped_per_requested_instrument_in_row_order() {
    let rows = vec![
        ("6758".to_string(), 1),
        ("7203".to_string(), 2),
        ("9999".to_string(), 3),
        ("6758".to_string(), 4),
    ];
    let groups = group_bars(&ids(&["7203", "6758", "1301"]), rows);
    assert_eq!(groups.len(), 3);
    assert_eq!((groups[0].instrument_id.as_str(), groups[0].bars.clone()), ("7203", vec![2]));
    assert_eq!((groups[1].instrument_id.as_str(), groups[1].bars.clone()), ("6758", vec![1, 4]));
    assert_eq!((groups[2].instrument_id.as_str(), groups[2].bars.clone()), ("1301", vec![]));
}

#[test]
fn evidence_keeps_the_last_bars() {
    assert_eq!(evidence_window(10), (0, false));
    assert_eq!(evidence_window(5000), (0, false));
    assert_eq!(evidence_window(5003), (3, true));
}
