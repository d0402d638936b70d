use backend::error::ErrorKind;
use backend::indicator::{
    check_eval_indicator, check_indicator_args, indicator_output, indicator_stdin,
    parse_and_validate_output, resolve_outcome, EvalIndicatorParams, IndicatorDef,
};
use backend::schema::{schema_outcome, validate_with_schema, SchemaCheckError};

fn text(v: serde_json::Value) -> String {
    serde_json::to_string(&v).expect("serialisable")
}

fn number_schema() -> String {
    r#"{"type":"number"}"#.to_string()
}

fn args_schema() -> String {
    r#"{"properties":{"window":{"type":"integer"}},"required":["window"],"type":"object"}"#.to_string()
}

fn indicator() -> IndicatorDef {
    IndicatorDef {
        indicator_id: "id-1".into(),
        name: "sma".into(),
        scope: "strategy".into(),
        code: "print(1)".into(),
        input_schema: args_schema(),
        output_schema: number_schema(),
    }
}

fn params(name: &str) -> EvalIndicatorParams {
    EvalIndicatorParams { name: name.into(), args: "{}".to_string(), timeout_secs: None, max_output_bytes: None }
}

#[test]
fn indicator_call_checks() {
    assert_eq!(check_eval_indicator(&params(" sma ")).expect("ok"), "sma");
    assert_eq!(check_eval_indicator(&params("  ")).expect_err("blank").message, "name must not be empty");
    let mut p = params("sma");
    p.timeout_secs = Some(61);
    assert_eq!(check_eval_indicator(&p).expect_err("timeout").message, "timeout_secs exceeds maximum of 60");
}

#[test]
fn indicator_lookup_outcomes() {
    let err = resolve_outcome("sma", Ok(None)).expect_err("missing");
    assert_eq!((err.kind, err.message.as_str()), (ErrorKind::ResourceNotFound, "indicator 'sma' not found"));
    let err = resolve_outcome("sma", Err("db down".into())).expect_err("failed");
    assert_eq!((err.kind, err.message.as_str()), (ErrorKind::InternalError, "failed to resolve indicator: db down"));
    assert_eq!(resolve_outcome("sma", Ok(Some(indicator()))).expect("found").indicator_id, "id-1");
}

#[test]
fn args_matching_the_schema_pass() {
    let mut window = serde_json::Map::new();
    window.insert("window".to_string(), serde_json::Value::from(20));
    let args = text(serde_json::Value::Object(window));
    assert!(check_indicator_args("sma", &indicator(), &args).is_ok());
}

#[test]
fn args_violating_the_schema_are_refused() {
    let args = r#"{"window":"twenty"}"#;
    let err = check_indicator_args("sma", &indicator(), args).expect_err("mismatch");
    assert_eq!(err.kind, ErrorKind::InvalidParams);
    assert!(err.message.starts_with("args do not match input_schema of indicator 'sma': "), "{}", err.message);
    assert!(err.message.contains("/window"), "{}", err.message);
}

#[test]
fn broken_stored_schema_is_internal() {
    let mut def = indicator();
    def.input_schema = r#"{"type":12}"#.to_string();
    let err = check_indicator_args("sma", &def, "{}").expect_err("broken");
    assert_eq!(err.kind, ErrorKind::InternalError);
    assert!(err.message.starts_with("indicator 'sma' has invalid input_schema in storage: "), "{}", err.message);
}

#[test]
fn schema_outcome_joins_violations() {
    match schema_outcome(Some(Ok(vec![("a".into(), "/x".into()), ("b".into(), "".into())]))) {
        Err(SchemaCheckError::Mismatch(m)) => assert_eq!(m, "a at /x; b at "),
        other => panic!("unexpected {other:?}"),
    }
    assert!(schema_outcome(Some(Ok(vec![]))).is_ok());
    assert!(matches!(validate_with_schema(&number_schema(), "3"), Ok(())));
    assert!(matches!(validate_with_schema(&number_schema(), "three"), Err(SchemaCheckError::Unreadable)));
}

#[test]
fn stdin_wraps_args() {
    let mut window = serde_json::Map::new();
    window.insert("window".to_string(), serde_json::Value::from(20));
    let args = serde_json::Value::Object(window);
    let stdin = indicator_stdin(&text(args.clone())).expect("small");
    assert_eq!(stdin, r#"{"args":{"window":20}}"#);
    let mut wrapped = serde_json::Map::new();
    wrapped.insert("args".to_string(), args);
    assert_eq!(stdin, text(serde_json::Value::Object(wrapped)));
    let big = text(serde_json::Value::String("x".repeat(262_144)));
    let err = indicator_stdin(&big).expect_err("big");
    assert_eq!(err.message, "args exceed 262144 bytes when serialized as JSON");
}

#[test]
fn output_is_the_last_non_blank_line() {
    let out = parse_and_validate_output("log line\n 42 \n\n", &indicator()).expect("ok");
    assert_eq!(out, "42");
}

#[test]
fn empty_output_is_refused() {
    let err = parse_and_validate_output(" \n\r\n", &indicator()).expect_err("empty");
    assert_eq!(err.message, "indicator 'sma' produced empty stdout; expected a JSON value on the last line");
}

#[test]
fn non_json_output_is_refused() {
    let err = parse_and_validate_output("done\n", &indicator()).expect_err("not json");
    assert!(err.message.starts_with("indicator 'sma' last stdout line is not valid JSON: "), "{}", err.message);
}

#[test]
fn output_violating_the_schema_is_refused() {
    let err = parse_and_validate_output("\"text\"", &indicator()).expect_err("mismatch");
    assert_eq!(err.kind, ErrorKind::InvalidParams);
    assert!(err.message.starts_with("output does not match output_schema of indicator 'sma': "), "{}", err.message);
}

#[test]
fn failed_run_has_no_output() {
    assert_eq!(indicator_output(1, "garbage", &indicator()).expect("ok"), None);
    assert_eq!(indicator_output(0, "7\n", &indicator()).expect("ok"), Some("7".to_string()));
}
