use ai_search_mcp::call::{CallState, CallStep, RETRY_DELAY_SECS};
use ai_search_mcp::chat::{ChatResponse, Choice, Delta};
use ai_search_mcp::config::{AIConfig, ConfigVars};
use ai_search_mcp::error::AISearchError;
use ai_search_mcp::stream::{StreamDecoder, MAX_BUFFER_SIZE};

fn config(retry: &str, filter: &str) -> AIConfig {
    AIConfig::from_env_values(ConfigVars {
        api_url: Some("http://localhost".to_string()),
        api_key: Some("k".to_string()),
        model_id: Some("m".to_string()),
        analysis_model_id: None,
        system_prompt: None,
        timeout: None,
        stream: None,
        filter_thinking: Some(filter.to_string()),
        retry_count: Some(retry.to_string()),
        log_level: None,
        max_query_plan: None,
    })
    .unwrap()
}

fn api_error() -> AISearchError {
    AISearchError::Api { code: 500, message: "服务器错误,请稍后重试".to_string() }
}

#[test]
fn failed_requests_are_retried_until_the_count_is_used() {
    let mut s = CallState::new(&config("2", "true"));
    assert!(matches!(s.on_outcome(Err(api_error())), CallStep::Retry { delay_secs: 1 }));
    assert_eq!(s.attempt, 1);
    assert!(matches!(s.on_outcome(Err(AISearchError::Protocol("x".to_string()))), CallStep::Retry { delay_secs } if delay_secs == RETRY_DELAY_SECS));
    match s.on_outcome(Err(api_error())) {
        CallStep::Finish(Err(AISearchError::Api { code, .. })) => assert_eq!(code, 500),
        _ => panic!("the third failure must end the call"),
    }
}

#[test]
fn zero_retries_means_one_request() {
    let mut s = CallState::new(&config("0", "true"));
    match s.on_outcome(Err(AISearchError::Protocol("bad".to_string()))) {
        CallStep::Finish(Err(AISearchError::Protocol(m))) => assert_eq!(m, "bad"),
        _ => panic!("no retry expected"),
    }
}

#[test]
fn answers_end_the_call_filtered_where_configured() {
    let mut s = CallState::new(&config("1", "true"));
    match s.on_outcome(Ok("<think>x</think>\n\n答案 ".to_string())) {
        CallStep::Finish(Ok(a)) => assert_eq!(a, "答案"),
        _ => panic!("expected the answer"),
    }
    let mut s = CallState::new(&config("1", "false"));
    assert!(matches!(s.on_outcome(Err(api_error())), CallStep::Retry { .. }));
    match s.on_outcome(Ok("<think>x</think> 答案 ".to_string())) {
        CallStep::Finish(Ok(a)) => assert_eq!(a, "<think>x</think> 答案 "),
        _ => panic!("expected the answer"),
    }
}

fn delta(content: Option<&str>) -> ChatResponse {
    ChatResponse {
        choices: vec![Choice { message: None, delta: Some(Delta { content: content.map(|c| c.to_string()) }) }],
    }
}

#[test]
fn events_are_read_from_complete_and_pending_lines() {
    let mut d = StreamDecoder::new();
    let events = d.feed(b"data: {\"a\":1}\r\n\ndata: [DONE]\nevent: x\ndata: {\"b\"").unwrap();
    assert_eq!(events, vec!["{\"a\":1}".to_string(), "{\"b\"".to_string()]);
    let events = d.feed(b":2}\n").unwrap();
    assert_eq!(events, vec!["{\"b\":2}".to_string()]);
    let events = d.feed(b"data:  [DONE] \n").unwrap();
    assert!(events.is_empty());
}

#[test]
fn invalid_utf8_is_replaced() {
    let mut d = StreamDecoder::new();
    let events = d.feed(&[b'd', b'a', b't', b'a', b':', b' ', 0xff, b'\n']).unwrap();
    assert_eq!(events, vec!["\u{FFFD}".to_string()]);
}

#[test]
fn pieces_are_joined_in_order() {
    let mut d = StreamDecoder::new();
    d.accept_event(Some(delta(Some("你好"))));
    d.accept_event(None);
    d.accept_event(Some(delta(None)));
    d.accept_event(Some(ChatResponse { choices: vec![] }));
    d.accept_event(Some(delta(Some("，世界"))));
    assert_eq!(d.finish(), "你好，世界");
    assert_eq!(StreamDecoder::new().finish(), "");
}

#[test]
fn oversized_streams_fail() {
    let mut d = StreamDecoder::new();
    let big = vec![b'a'; MAX_BUFFER_SIZE];
    assert!(d.feed(&big).unwrap().is_empty());
    match d.feed(b"b") {
        Err(AISearchError::Protocol(m)) => assert_eq!(m, "响应过大，超过 10 MB 限制"),
        _ => panic!("expected the size limit"),
    }
    let mut d = StreamDecoder::new();
    let mut line = vec![b'a'; MAX_BUFFER_SIZE - 1];
    line.push(b'\n');
    assert!(d.feed(&line).unwrap().is_empty());
    assert!(d.feed(b"data: more\n").unwrap() == vec!["more".to_string()]);
}
