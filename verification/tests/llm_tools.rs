use backend::error::ErrorKind;
use backend::llm::{
    check_query_media, check_search_web, check_search_web_count, gemini_media_model_with,
    web_search_model_from, QueryMediaParams, SearchWebParams,
};

fn env_get<'a>(pairs: &'a [(&'a str, &'a str)]) -> impl Fn(&str) -> Option<String> + 'a {
    move |key: &str| pairs.iter().find(|(k, _)| *k == key).map(|(_, v)| (*v).to_string())
}

#[test]
fn gemini_media_model_with_errors_when_unset() {
    let err = gemini_media_model_with(env_get(&[])).expect_err("expected missing env error");
    assert_eq!((err.kind, err.message.as_str()), (ErrorKind::InternalError, "GEMINI_MEDIA_MODEL is not set"));
}

#[test]
fn gemini_media_model_with_errors_when_empty() {
    let err = gemini_media_model_with(env_get(&[("GEMINI_MEDIA_MODEL", "")])).expect_err("expected missing env error");
    assert_eq!((err.kind, err.message.as_str()), (ErrorKind::InternalError, "GEMINI_MEDIA_MODEL is not set"));
}

#[test]
fn gemini_media_model_with_resolves_overridden_env() {
    assert_eq!(
        gemini_media_model_with(env_get(&[("GEMINI_MEDIA_MODEL", "m-x")])).expect("configured"),
        "m-x"
    );
}

#[test]
fn query_media_trims_and_requires_fields() {
    let ok = check_query_media(&QueryMediaParams { media_url: " https://youtu.be/x ".into(), prompt: " summarize ".into() })
        .expect("valid");
    assert_eq!(ok, ("https://youtu.be/x".to_string(), "summarize".to_string()));
    let err = check_query_media(&QueryMediaParams { media_url: "  ".into(), prompt: "p".into() }).expect_err("url");
    assert_eq!(err.message, "media_url must not be empty");
    let err = check_query_media(&QueryMediaParams { media_url: "u".into(), prompt: "\n".into() }).expect_err("prompt");
    assert_eq!(err.message, "prompt must not be empty");
}

#[test]
fn web_search_model_defaults() {
    assert_eq!(web_search_model_from(None), "chatgpt/gpt-5.6-luna");
    assert_eq!(web_search_model_from(Some("gemini/x".into())), "gemini/x");
}

#[test]
fn search_web_query_checks() {
    assert_eq!(check_search_web(&SearchWebParams { query: " rates ".into() }).expect("ok"), "rates");
    assert_eq!(check_search_web(&SearchWebParams { query: " ".into() }).expect_err("blank").message, "query must not be empty");
}

#[test]
fn search_web_call_limit() {
    assert!(check_search_web_count(20).is_ok());
    let err = check_search_web_count(21).expect_err("over");
    assert_eq!((err.kind, err.message.as_str()), (ErrorKind::InvalidParams, format!("search_web call limit (20) exceeded for this {}", "task execution").as_str()));
}
