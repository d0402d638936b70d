use backend::error::ErrorKind;
use backend::exec::{check_eval_python, exec_failure_to_error, llm_failure_to_error, EvalPythonParams, ExecFailure, LlmFailure};
use backend::limits::clamp_limit;
use backend::validate::{check_exec_upper_bound, code_range, validate_symbol};

#[test]
fn clamps_limit_default() {
    assert_eq!(clamp_limit(None), 50);
}

#[test]
fn clamps_limit_custom() {
    assert_eq!(clamp_limit(Some(10)), 10);
}

#[test]
fn clamps_limit_zero_floors_to_one() {
    assert_eq!(clamp_limit(Some(0)), 1);
}

#[test]
fn clamps_limit_over_max_caps() {
    assert_eq!(clamp_limit(Some(10_000)), 200);
}

#[test]
fn validate_symbol_valid() {
    assert!(validate_symbol("9999").is_ok());
}

#[test]
fn validate_symbol_too_short() {
    assert!(validate_symbol("720").is_err());
}

#[test]
fn validate_symbol_too_long() {
    assert!(validate_symbol("99990").is_err());
}

#[test]
fn validate_symbol_non_digit() {
    let err = validate_symbol("72a3").expect_err("non digit");
    assert_eq!(err.kind, ErrorKind::InvalidParams);
    assert_eq!(err.message, "symbol must be a 4-digit stock code, got \"72a3\"");
}

#[test]
fn validate_symbol_empty() {
    assert!(validate_symbol("").is_err());
}

#[test]
fn validate_symbol_escapes_quotes_in_message() {
    let err = validate_symbol("7\"2").expect_err("quote");
    assert_eq!(err.message, "symbol must be a 4-digit stock code, got \"7\\\"2\"");
}

#[test]
fn validate_symbol_rejects_full_width_digits() {
    assert!(validate_symbol("７２０３").is_err());
}

#[test]
fn code_range_appends_first_and_last_digit() {
    assert_eq!(code_range("7203"), ("72030".to_string(), "72039".to_string()));
}

#[test]
fn exec_upper_bound_absent_passes() {
    assert!(check_exec_upper_bound("timeout_secs", None, 60).is_ok());
}

#[test]
fn exec_upper_bound_zero_is_refused() {
    let err = check_exec_upper_bound("timeout_secs", Some(0), 60).expect_err("zero");
    assert_eq!(err.message, "timeout_secs must be > 0");
}

#[test]
fn exec_upper_bound_over_max_is_refused() {
    let err = check_exec_upper_bound("max_output_bytes", Some(1_048_577), 1_048_576).expect_err("over");
    assert_eq!(err.kind, ErrorKind::InvalidParams);
    assert_eq!(err.message, "max_output_bytes exceeds maximum of 1048576");
}

#[test]
fn exec_upper_bound_at_max_passes() {
    assert!(check_exec_upper_bound("timeout_secs", Some(60), 60).is_ok());
}

fn python(code: String, timeout_secs: Option<u32>, max_output_bytes: Option<u32>) -> EvalPythonParams {
    EvalPythonParams { code, stdin: None, timeout_secs, max_output_bytes }
}

#[test]
fn eval_python_rejects_empty_code() {
    let err = check_eval_python(&python(String::new(), None, None)).expect_err("empty");
    assert_eq!((err.kind, err.message.as_str()), (ErrorKind::InvalidParams, "code must not be empty"));
}

#[test]
fn eval_python_rejects_oversized_code() {
    let err = check_eval_python(&python("a".repeat(65536 + 1), None, None)).expect_err("oversized");
    assert_eq!(err.message, "code exceeds 65536 bytes");
}

#[test]
fn eval_python_counts_code_size_in_bytes() {
    assert!(check_eval_python(&python("あ".repeat(21845), None, None)).is_ok());
    assert!(check_eval_python(&python("あ".repeat(21846), None, None)).is_err());
}

#[test]
fn eval_python_rejects_excessive_timeout() {
    let err = check_eval_python(&python("print(1)".into(), Some(61), None)).expect_err("timeout");
    assert_eq!(err.message, "timeout_secs exceeds maximum of 60");
}

#[test]
fn eval_python_rejects_excessive_output() {
    let err = check_eval_python(&python("print(1)".into(), None, Some(1_048_577))).expect_err("output");
    assert_eq!(err.message, "max_output_bytes exceeds maximum of 1048576");
}

#[test]
fn eval_python_rejects_oversized_stdin() {
    let params = EvalPythonParams {
        code: "print(1)".into(),
        stdin: Some("x".repeat(262_145)),
        timeout_secs: None,
        max_output_bytes: None,
    };
    let err = check_eval_python(&params).expect_err("stdin");
    assert_eq!(err.message, "stdin exceeds 262144 bytes");
}

#[test]
fn eval_python_accepts_valid_input() {
    assert!(check_eval_python(&python("print(1+1)".into(), Some(60), Some(1024))).is_ok());
}

#[test]
fn exec_timeout_maps_to_invalid_params() {
    let err = exec_failure_to_error(&ExecFailure::Timeout { secs: 5, nanos: 0 });
    assert_eq!(err.kind, ErrorKind::InvalidParams);
    assert_eq!(err.message, format!("execution timed out after {:?}", std::time::Duration::from_secs(5)));
}

#[test]
fn exec_output_too_large_maps_to_invalid_params() {
    let err = exec_failure_to_error(&ExecFailure::OutputTooLarge { limit: 1024 });
    assert_eq!((err.kind, err.message.as_str()), (ErrorKind::InvalidParams, "output exceeded 1024 bytes"));
}

#[test]
fn exec_api_error_is_internal() {
    let err = exec_failure_to_error(&ExecFailure::Api { status: 503, message: "busy".into() });
    assert_eq!((err.kind, err.message.as_str()), (ErrorKind::InternalError, "kube api error (status 503): busy"));
}

#[test]
fn exec_pod_failure_is_internal() {
    let err = exec_failure_to_error(&ExecFailure::PodFailed("oom".into()));
    assert_eq!((err.kind, err.message.as_str()), (ErrorKind::InternalError, "exec pod failed: oom"));
}

#[test]
fn llm_api_error_is_internal() {
    let err = llm_failure_to_error(&LlmFailure::Api { status: 429, message: "slow down".into() });
    assert_eq!((err.kind, err.message.as_str()), (ErrorKind::InternalError, "litellm api error (status 429): slow down"));
}

#[test]
fn llm_parse_error_is_internal() {
    let err = llm_failure_to_error(&LlmFailure::Parse("eof".into()));
    assert_eq!(err.message, "failed to parse litellm response: eof");
}
