use ai_search_mcp::config::{
    AIConfig, ConfigVars, DEFAULT_MAX_QUERY_PLAN, DEFAULT_RETRY_COUNT, DEFAULT_SYSTEM_PROMPT,
    DEFAULT_TIMEOUT,
};
use ai_search_mcp::error::AISearchError;

fn vars() -> ConfigVars {
    ConfigVars {
        api_url: Some("http://localhost:10000".to_string()),
        api_key: Some("secret-key".to_string()),
        model_id: Some("Grok".to_string()),
        analysis_model_id: None,
        system_prompt: None,
        timeout: None,
        stream: None,
        filter_thinking: None,
        retry_count: None,
        log_level: None,
        max_query_plan: None,
    }
}

fn config_message(r: Result<AIConfig, AISearchError>) -> String {
    match r {
        Err(AISearchError::Config(m)) => m,
        Err(e) => panic!("unexpected error {}", e.message()),
        Ok(_) => panic!("expected an error"),
    }
}

#[test]
fn defaults_apply_where_variables_are_unset() {
    let c = AIConfig::from_env_values(vars()).unwrap();
    assert_eq!(c.api_url, "http://localhost:10000");
    assert_eq!(c.api_key, "secret-key");
    assert_eq!(c.model_id, "Grok");
    assert_eq!(c.analysis_model_id, None);
    assert_eq!(c.system_prompt, DEFAULT_SYSTEM_PROMPT);
    assert_eq!(c.timeout, 60);
    assert_eq!(c.timeout, DEFAULT_TIMEOUT);
    assert!(c.stream);
    assert!(c.filter_thinking);
    assert_eq!(c.retry_count, 1);
    assert_eq!(c.retry_count, DEFAULT_RETRY_COUNT);
    assert_eq!(c.log_level, "INFO");
    assert_eq!(c.max_query_plan, 3);
    assert_eq!(c.max_query_plan, DEFAULT_MAX_QUERY_PLAN);
    assert!(DEFAULT_SYSTEM_PROMPT.contains("{current_time}"));
}

#[test]
fn variables_override_defaults() {
    let mut v = vars();
    v.analysis_model_id = Some("Analyzer".to_string());
    v.system_prompt = Some("你是搜索助手。当前时间: {current_time}。".to_string());
    v.timeout = Some("120".to_string());
    v.stream = Some("FALSE".to_string());
    v.filter_thinking = Some("True".to_string());
    v.retry_count = Some("0".to_string());
    v.log_level = Some("debug".to_string());
    v.max_query_plan = Some("5".to_string());
    let c = AIConfig::from_env_values(v).unwrap();
    assert_eq!(c.analysis_model_id.as_deref(), Some("Analyzer"));
    assert_eq!(c.system_prompt, "你是搜索助手。当前时间: {current_time}。");
    assert_eq!(c.timeout, 120);
    assert!(!c.stream);
    assert!(c.filter_thinking);
    assert_eq!(c.retry_count, 0);
    assert_eq!(c.log_level, "DEBUG");
    assert_eq!(c.max_query_plan, 5);
}

#[test]
fn switches_are_on_only_for_true_in_any_case() {
    for (raw, expected) in [("true", true), ("TRUE", true), ("TrUe", true), ("false", false), ("yes", false), ("1", false), ("", false), (" true", false)] {
        let mut v = vars();
        v.stream = Some(raw.to_string());
        v.filter_thinking = Some(raw.to_string());
        let c = AIConfig::from_env_values(v).unwrap();
        assert_eq!(c.stream, expected, "{:?}", raw);
        assert_eq!(c.filter_thinking, expected, "{:?}", raw);
    }
}

#[test]
fn unusable_numbers_fall_back_to_defaults() {
    let mut v = vars();
    v.timeout = Some("abc".to_string());
    v.retry_count = Some("-3".to_string());
    v.max_query_plan = Some("4294967296".to_string());
    let c = AIConfig::from_env_values(v).unwrap();
    assert_eq!(c.timeout, 60);
    assert_eq!(c.retry_count, 1);
    assert_eq!(c.max_query_plan, 3);
}

#[test]
fn missing_required_variables_are_reported_in_order() {
    let mut v = vars();
    v.api_url = None;
    v.api_key = None;
    assert_eq!(config_message(AIConfig::from_env_values(v)), "缺少 AI_API_URL 环境变量");
    let mut v = vars();
    v.api_key = None;
    v.model_id = None;
    assert_eq!(config_message(AIConfig::from_env_values(v)), "缺少 AI_API_KEY 环境变量");
    let mut v = vars();
    v.model_id = None;
    assert_eq!(config_message(AIConfig::from_env_values(v)), "缺少 AI_MODEL_ID 环境变量");
}

#[test]
fn invalid_url_is_rejected() {
    let mut v = vars();
    v.api_url = Some("ftp://example.com".to_string());
    assert_eq!(
        config_message(AIConfig::from_env_values(v)),
        "API URL 必须以 http:// 或 https:// 开头: ftp://example.com"
    );
    let mut v = vars();
    v.api_url = Some("https://api.example.com".to_string());
    assert!(AIConfig::from_env_values(v).is_ok());
}

#[test]
fn timeout_out_of_range_is_rejected() {
    for (raw, shown) in [("0", "0"), ("301", "301"), ("+0", "0")] {
        let mut v = vars();
        v.timeout = Some(raw.to_string());
        assert_eq!(
            config_message(AIConfig::from_env_values(v)),
            format!("超时时间必须在 1-300 秒之间: {}", shown)
        );
    }
    for ok in ["1", "300"] {
        let mut v = vars();
        v.timeout = Some(ok.to_string());
        assert!(AIConfig::from_env_values(v).is_ok());
    }
}

#[test]
fn validate_checks_the_url_before_the_timeout() {
    let mut c = AIConfig::from_env_values(vars()).unwrap();
    c.api_url = "localhost".to_string();
    c.timeout = 0;
    match c.validate() {
        Err(AISearchError::Config(m)) => assert_eq!(m, "API URL 必须以 http:// 或 https:// 开头: localhost"),
        _ => panic!("expected a configuration error"),
    }
    c.api_url = "http://localhost".to_string();
    assert!(c.validate().is_err());
    c.timeout = 5;
    assert!(c.validate().is_ok());
}

#[test]
fn debug_text_hides_the_key_and_the_prompt() {
    let mut v = vars();
    v.analysis_model_id = Some("Analyzer".to_string());
    let c = AIConfig::from_env_values(v).unwrap();
    let shown = c.debug_string();
    assert_eq!(
        shown,
        "AIConfig { api_url: \"http://localhost:10000\", api_key: \"***REDACTED***\", model_id: \"Grok\", analysis_model_id: Some(\"Analyzer\"), system_prompt: \"<omitted>\", timeout: 60, stream: true, filter_thinking: true, retry_count: 1, log_level: \"INFO\", max_query_plan: 3 }"
    );
    assert!(!shown.contains("secret-key"));
    let mut other = c.clone();
    other.api_key = "another".to_string();
    other.system_prompt = "another prompt".to_string();
    assert_eq!(other.debug_string(), shown);
    other.analysis_model_id = None;
    other.model_id = "a \"quoted\" name".to_string();
    assert!(other.debug_string().contains("analysis_model_id: None"));
    assert!(other.debug_string().contains("model_id: \"a \\\"quoted\\\" name\""));
}
