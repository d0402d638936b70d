use backend::error::ErrorKind;
use backend::refs::{
    check_ref_target, check_search_refs, dedup_watch_targets, substring_pattern, terms_to_apply,
    terms_with_effect, SearchRefsParams,
};

fn strings(v: &[&str]) -> Vec<String> {
    v.iter().map(|s| s.to_string()).collect()
}

#[test]
fn ref_target_is_trimmed() {
    assert_eq!(check_ref_target(" stock ", " 7203 ").expect("ok"), ("stock".to_string(), "7203".to_string()));
    assert!(check_ref_target("theme", "ai").is_ok());
    assert!(check_ref_target("sector", "x").is_ok());
    assert!(check_ref_target("indicator", "VIX").is_ok());
}

#[test]
fn unknown_ref_kind_is_refused() {
    let err = check_ref_target("bogus", "x").expect_err("kind");
    assert_eq!(err.kind, ErrorKind::InvalidParams);
    assert_eq!(err.message, "invalid ref_kind: bogus (expected one of stock, indicator, sector, theme)");
}

#[test]
fn blank_ref_id_is_refused() {
    let err = check_ref_target("stock", "  ").expect_err("id");
    assert_eq!((err.kind, err.message.as_str()), (ErrorKind::InvalidParams, "ref_id must not be empty"));
}

#[test]
fn blank_terms_are_ignored() {
    assert_eq!(terms_to_apply(&strings(&[" トヨタ ", "", "  ", "TOYOTA"])), strings(&["トヨタ", "TOYOTA"]));
}

#[test]
fn only_terms_with_effect_are_reported() {
    assert_eq!(terms_with_effect(strings(&["a", "b", "c"]), &vec![1, 0, 2]), strings(&["a", "c"]));
}

#[test]
fn search_refs_checks() {
    let (q, limit) = check_search_refs(&SearchRefsParams { query: " toyota ".into(), limit: Some(500) }).expect("ok");
    assert_eq!((q.as_str(), limit), ("toyota", 200));
    let err = check_search_refs(&SearchRefsParams { query: "  ".into(), limit: None }).expect_err("blank");
    assert_eq!(err.message, "query must not be empty");
    assert_eq!(substring_pattern("toyota"), "%toyota%");
}

#[test]
fn watch_targets_keep_the_first_of_each_id() {
    let ids = strings(&["7203", "6758", "7203", "9984", "6758"]);
    assert_eq!(dedup_watch_targets(&ids, 50), vec![0, 1, 3]);
    assert_eq!(dedup_watch_targets(&ids, 2), vec![0, 1]);
    assert_eq!(dedup_watch_targets(&vec![], 2), Vec::<usize>::new());
}
