use ai_search_mcp::chat::{
    build_endpoint, is_success_status, status_detail, ChatResponse, Choice, Delta, Message,
};
use ai_search_mcp::client::{
    format_sub_results, parse_sub_queries, question_text, split_prompt, sub_query_text, AIClient,
    SearchRoute, SPLIT_SYSTEM_PROMPT,
};
use ai_search_mcp::config::{AIConfig, ConfigVars};
use ai_search_mcp::error::AISearchError;
use ai_search_mcp::thinking::filter_thinking_content;

fn config(max_query_plan: u32) -> AIConfig {
    AIConfig::from_env_values(ConfigVars {
        api_url: Some("http://localhost:10000".to_string()),
        api_key: Some("k".to_string()),
        model_id: Some("Grok".to_string()),
        analysis_model_id: None,
        system_prompt: Some("时间: {current_time}; 再次 {current_time}".to_string()),
        timeout: None,
        stream: Some("false".to_string()),
        filter_thinking: None,
        retry_count: None,
        log_level: None,
        max_query_plan: Some(max_query_plan.to_string()),
    })
    .unwrap()
}

fn protocol_message(e: AISearchError) -> String {
    match e {
        AISearchError::Protocol(m) => m,
        other => panic!("unexpected error {}", other.message()),
    }
}

#[test]
fn thinking_blocks_are_removed() {
    assert_eq!(filter_thinking_content("<think>abc</think>\n\nhello"), "hello");
    assert_eq!(filter_thinking_content("<thinking>\nplan\nmore\n</thinking>answer"), "answer");
    assert_eq!(filter_thinking_content("a<think>x</think>b<think>y</thinking>c"), "abc");
    assert_eq!(filter_thinking_content("no blocks here"), "no blocks here");
    assert_eq!(filter_thinking_content("<think>unclosed"), "<think>unclosed");
}

#[test]
fn blank_lines_collapse_and_ends_are_trimmed() {
    assert_eq!(filter_thinking_content("a\n\n\n\nb"), "a\n\nb");
    assert_eq!(filter_thinking_content("a\n  \n \t\nb"), "a\n\nb");
    assert_eq!(filter_thinking_content("  text  "), "text");
    assert_eq!(filter_thinking_content("<think>x</think>\n\n\n结论\n\n\n"), "结论");
    assert_eq!(filter_thinking_content(""), "");
}

#[test]
fn endpoint_gets_the_completions_path_once() {
    assert_eq!(build_endpoint("http://localhost:10000"), "http://localhost:10000/v1/chat/completions");
    assert_eq!(build_endpoint("http://localhost:10000/"), "http://localhost:10000/v1/chat/completions");
    assert_eq!(
        build_endpoint("https://api.x.com/v1/chat/completions"),
        "https://api.x.com/v1/chat/completions"
    );
    let once = build_endpoint("http://h");
    assert_eq!(build_endpoint(&once), once);
    let client = AIClient::new(config(1)).unwrap();
    assert_eq!(client.build_endpoint(), "http://localhost:10000/v1/chat/completions");
}

#[test]
fn sub_queries_are_searched_directly() {
    let client = AIClient::new(config(3)).unwrap();
    match client.route("[SUB_QUERY]  春节北京到上海直达高铁票价 ") {
        SearchRoute::Direct(t) => assert_eq!(t, "春节北京到上海直达高铁票价"),
        _ => panic!("a sub-query must not be split"),
    }
    match client.route("[SUB_QUERY][SUB_QUERY] x") {
        SearchRoute::Direct(t) => assert_eq!(t, "x"),
        _ => panic!("a sub-query must not be split"),
    }
    match client.route("春节北京到上海高铁票价") {
        SearchRoute::Split { count } => assert_eq!(count, 3),
        _ => panic!("expected a split"),
    }
    let direct = AIClient::new(config(1)).unwrap();
    match direct.route(" Python 是什么") {
        SearchRoute::Direct(t) => assert_eq!(t, " Python 是什么"),
        _ => panic!("expected a direct search"),
    }
}

#[test]
fn sub_query_text_strips_tags_only_from_sub_queries() {
    assert_eq!(sub_query_text("[SUB_QUERY] a b "), "a b");
    assert_eq!(sub_query_text(" a b "), " a b ");
    assert_eq!(question_text("[SUB_QUERY] q"), "q");
    assert_eq!(question_text(" no tag "), "no tag");
}

#[test]
fn split_prompt_names_count_and_query() {
    assert_eq!(
        split_prompt("Rust 是什么", 3),
        "将查询拆分成 3 个子问题，返回 JSON 数组。\n\n查询: Rust 是什么\n\n只返回 JSON 数组，格式: [\"子问题1\", \"子问题2\", \"子问题3\"]"
    );
}

#[test]
fn split_request_uses_the_analysis_model_where_set() {
    let client = AIClient::new(config(3)).unwrap();
    let r = client.split_request("q", 2);
    assert_eq!(r.model, "Grok");
    assert_eq!(r.messages.len(), 2);
    assert_eq!(r.messages[0].role, "system");
    assert_eq!(r.messages[0].content, SPLIT_SYSTEM_PROMPT);
    assert_eq!(r.messages[1].role, "user");
    assert_eq!(r.messages[1].content, split_prompt("q", 2));
    assert!(!r.stream);
    let mut c = config(3);
    c.analysis_model_id = Some("Analyzer".to_string());
    let client = AIClient::new(c).unwrap();
    assert_eq!(client.split_request("q", 2).model, "Analyzer");
}

#[test]
fn request_body_stamps_the_time_into_the_prompt() {
    let client = AIClient::new(config(1)).unwrap();
    let r = client.build_request_body_at("问题", "2024-01-01 10:00:00 Monday");
    assert_eq!(r.model, "Grok");
    assert_eq!(r.messages[0].content, "时间: 2024-01-01 10:00:00 Monday; 再次 2024-01-01 10:00:00 Monday");
    assert_eq!(r.messages[1].content, "问题");
    let epoch = client.build_request_body("问题", 0, 0, 0);
    assert_eq!(epoch.messages[0].content, "时间: 1970-01-01 00:00:00 Thursday; 再次 1970-01-01 00:00:00 Thursday");
    assert_eq!(epoch.messages[1].content, "问题");
    let east = client.build_request_body("问题", 1_700_000_000, 5, 8 * 3600);
    assert_eq!(east.messages[0].content, "时间: 2023-11-15 06:13:20 Wednesday; 再次 2023-11-15 06:13:20 Wednesday");
    let unwritable = client.build_request_body("问题", 0, 0, 86_400);
    assert_eq!(unwritable.messages[0].content, "时间: ; 再次 ");
    let custom = client.build_request_body_with_model("q", "prompt", "m");
    assert_eq!(custom.model, "m");
    assert_eq!(custom.messages[0].content, "prompt");
}

#[test]
fn split_answers_are_read_and_tagged() {
    let v = parse_sub_queries("[\"直达票价\", \"中转方案\"]").unwrap();
    assert_eq!(v, vec!["[SUB_QUERY] 直达票价".to_string(), "[SUB_QUERY] 中转方案".to_string()]);
    let v = parse_sub_queries("```json\n[\"a\",\"b\",\"c\"]\n```").unwrap();
    assert_eq!(v, vec!["[SUB_QUERY] a", "[SUB_QUERY] b", "[SUB_QUERY] c"]);
    let v = parse_sub_queries("<think>let me think</think>\n```\n[\"x\"]\n```").unwrap();
    assert_eq!(v, vec!["[SUB_QUERY] x"]);
}

#[test]
fn split_answers_that_are_not_arrays_fail() {
    assert_eq!(protocol_message(parse_sub_queries("[]").unwrap_err()), "未能拆分出任何子查询");
    let m = protocol_message(parse_sub_queries("here you go: a, b").unwrap_err());
    let shown = serde_json::from_str::<Vec<String>>("here you go: a, b").unwrap_err().to_string();
    assert_eq!(m, format!("解析子查询失败: {}，响应内容: here you go: a, b", shown));
    assert!(m.starts_with("解析子查询失败: "));
    assert!(m.ends_with("，响应内容: here you go: a, b"));
    let m = protocol_message(parse_sub_queries("<think>only</think>").unwrap_err());
    assert!(m.ends_with("，响应内容: <think>only</think>"));
}

#[test]
fn sub_results_are_reported_in_order() {
    let subs = vec!["[SUB_QUERY] 问题一".to_string(), "[SUB_QUERY] 问题二".to_string()];
    let outcomes = vec![Ok("答案一".to_string()), Err("网络错误: x\n建议: y".to_string())];
    assert_eq!(
        format_sub_results(&subs, &outcomes).unwrap(),
        "## 子查询 1 结果\n\n**子问题**: 问题一\n\n答案一\n\n## 子查询 2 失败\n\n**子问题**: 问题二\n\n**错误**: 网络错误: x\n建议: y\n\n"
    );
    let fewer = vec!["[SUB_QUERY] only".to_string()];
    let r = format_sub_results(&fewer, &outcomes).unwrap();
    assert!(r.contains("## 子查询 2 失败\n\n**子问题**: 未知\n\n"));
    let none: Vec<Result<String, String>> = Vec::new();
    assert_eq!(protocol_message(format_sub_results(&subs, &none).unwrap_err()), "所有子查询都失败了");
}

#[test]
fn status_codes_are_judged() {
    assert!(is_success_status(200));
    assert!(is_success_status(299));
    assert!(!is_success_status(301));
    assert!(!is_success_status(404));
    assert_eq!(status_detail(401).as_deref(), Some("认证失败,请检查 API_KEY 是否正确"));
    assert_eq!(status_detail(429).as_deref(), Some("请求过于频繁,建议稍后重试或切换 API 渠道"));
    assert_eq!(status_detail(500).as_deref(), Some("服务器错误,请稍后重试"));
    assert_eq!(status_detail(503).as_deref(), Some("服务器错误,请稍后重试"));
    assert_eq!(status_detail(404), None);
    assert_eq!(status_detail(403), None);
}

#[test]
fn whole_answers_take_the_first_message() {
    let r = ChatResponse {
        choices: vec![
            Choice { message: Some(Message { content: "first".to_string() }), delta: None },
            Choice { message: Some(Message { content: "second".to_string() }), delta: None },
        ],
    };
    assert_eq!(r.first_message_content().unwrap(), "first");
    let empty = ChatResponse { choices: vec![] };
    assert_eq!(protocol_message(empty.first_message_content().unwrap_err()), "响应格式错误");
    let no_message = ChatResponse {
        choices: vec![Choice { message: None, delta: Some(Delta { content: Some("d".to_string()) }) }],
    };
    assert_eq!(protocol_message(no_message.first_message_content().unwrap_err()), "响应格式错误");
    assert_eq!(no_message.first_delta_content().as_deref(), Some("d"));
    assert_eq!(empty.first_delta_content(), None);
}

#[test]
fn requests_are_authorized_with_the_key() {
    let client = AIClient::new(config(1)).unwrap();
    assert_eq!(client.authorization_header(), "Bearer k");
}

#[test]
fn outside_errors_convert_into_their_variants() {
    let json: AISearchError = serde_json::from_str::<u8>("x").unwrap_err().into();
    assert!(matches!(json, AISearchError::Json(_)));
    let io: AISearchError = std::io::Error::new(std::io::ErrorKind::Other, "x").into();
    assert!(matches!(io, AISearchError::Io(_)));
}

#[test]
fn errors_are_shown_with_their_labels() {
    assert_eq!(AISearchError::Config("x".to_string()).message(), "配置错误: x");
    assert_eq!(
        AISearchError::Api { code: 429, message: "slow down".to_string() }.message(),
        "API 错误 (HTTP 429): slow down"
    );
    assert_eq!(
        AISearchError::Network { message: "m".to_string(), suggestion: "s".to_string() }.message(),
        "网络错误: m\n建议: s"
    );
    assert_eq!(AISearchError::Protocol("p".to_string()).message(), "协议错误: p");
    let json = serde_json::from_str::<Vec<String>>("nope").unwrap_err();
    let shown = json.to_string();
    assert_eq!(AISearchError::Json(json).message(), format!("JSON 解析错误: {}", shown));
    let io = std::io::Error::new(std::io::ErrorKind::Other, "disk gone");
    assert_eq!(AISearchError::Io(io).message(), "IO 错误: disk gone");
    match AISearchError::task_failure("panicked") {
        AISearchError::Network { message, suggestion } => {
            assert_eq!(message, "任务执行失败: panicked");
            assert_eq!(suggestion, "请重试");
        }
        _ => panic!("expected a network error"),
    }
}
