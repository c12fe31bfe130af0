//! The search client: its HTTP connection, how a query is routed, how a query
//! is split into tagged sub-questions, and how their answers are reported.

use std::fmt::Write;
use vstd::prelude::*;
use vstd::string::*;
use crate::chat::{build_chat_request, build_endpoint, endpoint_view, request_is, ChatRequest};
use crate::config::AIConfig;
use crate::error::AISearchError;
use crate::text::{
    chars_of, decimal_string, decimal_view, has_prefix, replace_all, replace_view,
    starts_with, string_from_chars, strip_prefixes_at, strip_prefixes_view, strip_suffixes_at,
    strip_suffixes_view, trim, trim_bounds, trim_view,
};
use crate::thinking::{filter_thinking_content, thinking_filtered_view};

verus! {

broadcast use vstd::string::group_string_axioms;

/// `reqwest::Client`, held and handed out unchanged.
#[verifier::external_type_specification]
#[verifier::external_body]
pub struct ExHttpClient(reqwest::Client);

/// The tag that marks a query as a sub-question, which is searched directly.
pub const SUB_QUERY_TAG: &'static str = "[SUB_QUERY]";

/// The system prompt of the request that splits a query.
pub const SPLIT_SYSTEM_PROMPT: &'static str = "你是查询拆分助手。只返回 JSON 数组，不要任何解释、标记或其他文本。直接输出 JSON 数组。";

/// The placeholder in a system prompt that the current time replaces.
pub const TIME_PLACEHOLDER: &'static str = "{current_time}";

/// The `chrono` format of the time that replaces the placeholder.
pub const TIME_FORMAT: &'static str = "%Y-%m-%d %H:%M:%S %A";

/// Idle connections kept per host.
pub const POOL_MAX_IDLE_PER_HOST: usize = 100;

/// Seconds an idle connection is kept.
pub const POOL_IDLE_TIMEOUT_SECS: u64 = 90;

/// The settings the HTTP client is built with.
#[derive(Clone, Copy, PartialEq, Eq, Debug)]
pub struct HttpSettings {
    /// Seconds a whole request may take.
    pub timeout_secs: u64,
    /// Idle connections kept per host.
    pub pool_max_idle_per_host: usize,
    /// Seconds an idle connection is kept.
    pub pool_idle_timeout_secs: u64,
}

/// Builds a `reqwest::Client` with `ClientBuilder::timeout`,
/// `pool_max_idle_per_host`, `pool_idle_timeout` (each from `settings`) and
/// `build`, and hands back the client together with the settings it was given.
/// Whether the build succeeds depends on the machine, so nothing is claimed of
/// that; the claim is only that the settings handed back are those handed in.
#[verifier::external_body]
fn build_http_client(settings: HttpSettings) -> (res: Result<
    (reqwest::Client, HttpSettings),
    reqwest::Error,
>)
    ensures
        res matches Ok((_, used)) ==> used == settings,
{
    match reqwest::Client::builder().timeout(
        std::time::Duration::from_secs(settings.timeout_secs),
    ).pool_max_idle_per_host(settings.pool_max_idle_per_host).pool_idle_timeout(
        std::time::Duration::from_secs(settings.pool_idle_timeout_secs),
    ).build() {
        Ok(client) => Ok((client, settings)),
        Err(e) => Err(e),
    }
}

/// What `chrono` writes with `format` for the instant `secs` seconds and
/// `nanos` nanoseconds after 1970-01-01 00:00:00 UTC, seen at a fixed offset of
/// `offset_secs` seconds east of UTC (`FixedOffset::east_opt`,
/// `DateTime::from_timestamp`, `with_timezone`, `format`); `None` where the
/// offset or instant is out of `chrono`'s range or the format cannot be written.
pub uninterp spec fn time_text_view(format: Seq<char>, secs: i64, nanos: u32, offset_secs: i32) -> Option<
    Seq<char>,
>;

/// Formats an instant at a fixed offset with `chrono`, without reading any
/// clock. Claims that the result is `time_text_view` of the arguments.
#[verifier::external_body]
fn format_instant(format: &str, secs: i64, nanos: u32, offset_secs: i32) -> (res: Option<String>)
    ensures
        match time_text_view(format@, secs, nanos, offset_secs) {
            Some(t) => res matches Some(x) && x@ == t,
            None => res is None,
        },
{
    let offset = match chrono::FixedOffset::east_opt(offset_secs) {
        Some(o) => o,
        None => return None,
    };
    let instant = match chrono::DateTime::from_timestamp(secs, nanos) {
        Some(t) => t,
        None => return None,
    };
    let mut s = String::new();
    match write!(s, "{}", instant.with_timezone(&offset).format(format)) {
        Ok(()) => Some(s),
        Err(_) => None,
    }
}

/// What `serde_json::from_str::<Vec<String>>` reads from `text`: the strings of
/// a JSON array of strings, `None` where `text` is not one.
pub uninterp spec fn json_string_array_view(text: Seq<char>) -> Option<Seq<Seq<char>>>;

/// Calls `serde_json::from_str::<Vec<String>>`; claims that it succeeds exactly
/// where `json_string_array_view` gives strings, and then returns those strings.
#[verifier::external_body]
fn parse_json_string_array(text: &str) -> (res: Result<Vec<String>, serde_json::Error>)
    ensures
        match json_string_array_view(text@) {
            Some(items) => res matches Ok(v) && v@.map_values(|s: String| s@) == items,
            None => res is Err,
        },
{
    serde_json::from_str::<Vec<String>>(text)
}

/// The text that replaces the time placeholder for a clock reading: the
/// reading in `TIME_FORMAT`, or nothing where it cannot be written.
pub open spec fn stamp_view(secs: i64, nanos: u32, offset_secs: i32) -> Seq<char> {
    match time_text_view(TIME_FORMAT@, secs, nanos, offset_secs) {
        Some(t) => t,
        None => Seq::empty(),
    }
}

/// A configured client of the chat-completion service.
pub struct AIClient {
    config: AIConfig,
    http: reqwest::Client,
    http_settings: HttpSettings,
}

/// What a search does with a query.
pub enum SearchRoute {
    /// Send this text as one question.
    Direct(String),
    /// Have the model split the query into this many sub-questions and search each.
    Split { count: u32 },
}

/// The text searched for a query: for a tagged sub-question the text after the
/// tags, trimmed; any other query as it is.
pub open spec fn sub_query_text_view(query: Seq<char>) -> Seq<char> {
    if has_prefix(query, SUB_QUERY_TAG@) {
        trim_view(strip_prefixes_view(query, SUB_QUERY_TAG@))
    } else {
        query
    }
}

/// The sub-question shown in a report: the text after any tags, trimmed.
pub open spec fn question_view(query: Seq<char>) -> Seq<char> {
    trim_view(strip_prefixes_view(query, SUB_QUERY_TAG@))
}

/// Whether a search of `query` under `c` sends one question rather than splitting.
pub open spec fn routes_direct(c: AIConfig, query: Seq<char>) -> bool {
    has_prefix(query, SUB_QUERY_TAG@) || c.max_query_plan <= 1
}

/// A sub-question as the split hands it on: the tag, a space, the question.
pub open spec fn tagged_view(question: Seq<char>) -> Seq<char> {
    SUB_QUERY_TAG@ + " "@ + question
}

/// The question that asks the model to split `query` into `count` sub-questions.
pub open spec fn split_prompt_view(query: Seq<char>, count: u32) -> Seq<char> {
    "将查询拆分成 "@ + decimal_view(count as nat) + " 个子问题，返回 JSON 数组。\n\n查询: "@ + query
        + "\n\n只返回 JSON 数组，格式: [\"子问题1\", \"子问题2\", \"子问题3\"]"@
}

/// The model that splits queries: the analysis model where one is set, else the
/// search model.
pub open spec fn split_model_view(c: AIConfig) -> Seq<char> {
    match c.analysis_model_id {
        Some(m) => m@,
        None => c.model_id@,
    }
}

/// The part of a split answer that is read as JSON: the answer without its
/// reasoning blocks (or the raw answer where nothing else is left), trimmed,
/// without a leading Markdown code fence and trailing fences, trimmed again.
pub open spec fn split_json_view(response: Seq<char>) -> Seq<char> {
    let filtered = thinking_filtered_view(response);
    let content = if filtered.len() == 0 {
        response
    } else {
        filtered
    };
    trim_view(
        strip_suffixes_view(
            strip_prefixes_view(
                strip_prefixes_view(trim_view(content), "```json"@),
                "```"@,
            ),
            "```"@,
        ),
    )
}

/// The `## ` section that reports the outcome of sub-question `i` (numbered from 1).
pub open spec fn section_view(i: nat, question: Seq<char>, outcome: Result<String, String>) -> Seq<
    char,
> {
    match outcome {
        Ok(answer) => "## 子查询 "@ + decimal_view(i + 1) + " 结果\n\n**子问题**: "@ + question
            + "\n\n"@ + answer@ + "\n\n"@,
        Err(error) => "## 子查询 "@ + decimal_view(i + 1) + " 失败\n\n**子问题**: "@ + question
            + "\n\n**错误**: "@ + error@ + "\n\n"@,
    }
}

/// The question reported for outcome `i`: that of sub-query `i`, or `未知` where
/// there is none.
pub open spec fn reported_question(sub_queries: Seq<String>, i: nat) -> Seq<char> {
    if i < sub_queries.len() {
        question_view(sub_queries[i as int]@)
    } else {
        "未知"@
    }
}

/// The sections of the first `n` outcomes, in order.
pub open spec fn report_view(sub_queries: Seq<String>, outcomes: Seq<Result<String, String>>, n: nat) -> Seq<
    char,
>
    decreases n,
{
    if n == 0 {
        Seq::empty()
    } else {
        report_view(sub_queries, outcomes, (n - 1) as nat) + section_view(
            (n - 1) as nat,
            reported_question(sub_queries, (n - 1) as nat),
            outcomes[n - 1],
        )
    }
}

/// The text searched for a query: a tagged sub-question loses its tags and
/// surrounding white space, any other query is searched as it is.
pub fn sub_query_text(query: &str) -> (res: String)
    ensures
        res@ == sub_query_text_view(query@),
{
    if starts_with(query, SUB_QUERY_TAG) {
        question_text(query)
    } else {
        query.to_owned()
    }
}

/// The text after any leading tags of `query`, trimmed.
pub fn question_text(query: &str) -> (res: String)
    ensures
        res@ == question_view(query@),
{
    let v = chars_of(query);
    let tag = chars_of(SUB_QUERY_TAG);
    proof {
        reveal_strlit("[SUB_QUERY]");
    }
    assert(v@.subrange(0, v@.len() as int) == v@);
    let start = strip_prefixes_at(&v, 0, v.len(), &tag);
    let (a, b) = trim_bounds(&v, start, v.len());
    string_from_chars(&v, a, b)
}

/// The question that asks the model to split `query` into `count` sub-questions.
pub fn split_prompt(query: &str, count: u32) -> (res: String)
    ensures
        res@ == split_prompt_view(query@, count),
{
    let mut s = "将查询拆分成 ".to_owned();
    s.append(decimal_string(count as u64).as_str());
    s.append(" 个子问题，返回 JSON 数组。\n\n查询: ");
    s.append(query);
    s.append("\n\n只返回 JSON 数组，格式: [\"子问题1\", \"子问题2\", \"子问题3\"]");
    s
}

/// Reads the sub-questions from the model's answer to a split request and tags
/// each. Fails where the answer holds no JSON array of strings, or an empty one.
pub fn parse_sub_queries(response: &str) -> (res: Result<Vec<String>, AISearchError>)
    ensures
        match json_string_array_view(split_json_view(response@)) {
            Some(items) => if items.len() == 0 {
                res matches Err(AISearchError::Protocol(m)) && m@ == "未能拆分出任何子查询"@
            } else {
                res matches Ok(v) && v@.len() == items.len() && forall|i: int|
                    0 <= i < items.len() ==> #[trigger] v@[i]@ == tagged_view(items[i])
            },
            None => res matches Err(AISearchError::Protocol(m)) && exists|
                e: serde_json::Error,
                t: String,
            |
                #[trigger] to_string_from_display_ensures::<serde_json::Error>(&e, t) && m@
                    == "解析子查询失败: "@ + t@ + "，响应内容: "@ + split_json_view(response@),
        },
{
    let filtered = filter_thinking_content(response);
    let content: String = if filtered.as_str().is_empty() {
        response.to_owned()
    } else {
        filtered
    };
    let v = chars_of(trim(content.as_str()).as_str());
    let fence_json = chars_of("```json");
    let fence = chars_of("```");
    proof {
        reveal_strlit("```json");
        reveal_strlit("```");
    }
    assert(v@.subrange(0, v@.len() as int) == v@);
    let a = strip_prefixes_at(&v, 0, v.len(), &fence_json);
    let b = strip_prefixes_at(&v, a, v.len(), &fence);
    let c = strip_suffixes_at(&v, b, v.len(), &fence);
    let (d, e) = trim_bounds(&v, b, c);
    let cleaned = string_from_chars(&v, d, e);
    assert(content@ == (if thinking_filtered_view(response@).len() == 0 {
        response@
    } else {
        thinking_filtered_view(response@)
    }));
    assert(v@ == trim_view(content@));
    assert(cleaned@ == split_json_view(response@));
    match parse_json_string_array(cleaned.as_str()) {
        Ok(items) => {
            if items.len() == 0 {
                return Err(AISearchError::Protocol("未能拆分出任何子查询".to_owned()));
            }
            let ghost item_views = items@.map_values(|s: String| s@);
            let mut tagged: Vec<String> = Vec::new();
            let mut i: usize = 0;
            while i < items.len()
                invariant
                    i <= items.len(),
                    item_views == items@.map_values(|s: String| s@),
                    tagged@.len() == i,
                    forall|k: int| 0 <= k < i ==> #[trigger] tagged@[k]@ == tagged_view(
                        item_views[k],
                    ),
                decreases items.len() - i,
            {
                let mut t = SUB_QUERY_TAG.to_owned();
                t.append(" ");
                t.append(items[i].as_str());
                tagged.push(t);
                i = i + 1;
            }
            Ok(tagged)
        },
        Err(err) => {
            let mut m = "解析子查询失败: ".to_owned();
            let shown = err.to_string();
            m.append(shown.as_str());
            m.append("，响应内容: ");
            m.append(cleaned.as_str());
            Err(AISearchError::Protocol(m))
        },
    }
}

/// The report of the sub-questions' outcomes, one section each in order;
/// `outcomes[i]` is the answer to `sub_queries[i]` or the text of its error.
/// Fails only where there are no outcomes at all.
pub fn format_sub_results(sub_queries: &Vec<String>, outcomes: &Vec<Result<String, String>>) -> (res:
    Result<String, AISearchError>)
    ensures
        outcomes@.len() == 0 ==> (res matches Err(AISearchError::Protocol(m)) && m@
            == "所有子查询都失败了"@),
        outcomes@.len() > 0 ==> (res matches Ok(r) && r@ == report_view(
            sub_queries@,
            outcomes@,
            outcomes@.len(),
        )),
{
    let mut out = String::new();
    let mut i: usize = 0;
    while i < outcomes.len()
        invariant
            i <= outcomes.len(),
            out@ == report_view(sub_queries@, outcomes@, i as nat),
        decreases outcomes.len() - i,
    {
        let question: String = if i < sub_queries.len() {
            question_text(sub_queries[i].as_str())
        } else {
            "未知".to_owned()
        };
        let number = decimal_string((i as u64) + 1);
        out.append("## 子查询 ");
        out.append(number.as_str());
        match &outcomes[i] {
            Ok(answer) => {
                out.append(" 结果\n\n**子问题**: ");
                out.append(question.as_str());
                out.append("\n\n");
                out.append(answer.as_str());
                out.append("\n\n");
            },
            Err(error) => {
                out.append(" 失败\n\n**子问题**: ");
                out.append(question.as_str());
                out.append("\n\n**错误**: ");
                out.append(error.as_str());
                out.append("\n\n");
            },
        }
        assert(out@ =~= report_view(sub_queries@, outcomes@, i as nat) + section_view(
            i as nat,
            reported_question(sub_queries@, i as nat),
            outcomes@[i as int],
        ));
        i = i + 1;
    }
    if outcomes.len() == 0 {
        return Err(AISearchError::Protocol("所有子查询都失败了".to_owned()));
    }
    Ok(out)
}

impl AIClient {
    /// The configuration the client was made with.
    pub closed spec fn settings(self) -> AIConfig {
        self.config
    }

    /// The settings its HTTP client was built with.
    pub closed spec fn transport_settings(self) -> HttpSettings {
        self.http_settings
    }

    /// The HTTP client the client was made with, which carries every request.
    pub closed spec fn transport(self) -> reqwest::Client {
        self.http
    }

    /// A client for `config`, whose HTTP client times out after the configured
    /// number of seconds and keeps `POOL_MAX_IDLE_PER_HOST` idle connections per
    /// host for `POOL_IDLE_TIMEOUT_SECS` seconds; fails only where the HTTP
    /// client cannot be built. The configuration is taken as it is.
    pub fn new(config: AIConfig) -> (res: Result<AIClient, AISearchError>)
        ensures
            res matches Ok(c) ==> c.settings() == config && c.transport_settings() == (HttpSettings {
                timeout_secs: config.timeout,
                pool_max_idle_per_host: POOL_MAX_IDLE_PER_HOST,
                pool_idle_timeout_secs: POOL_IDLE_TIMEOUT_SECS,
            }),
            res matches Err(e) ==> e is Http,
    {
        let wanted = HttpSettings {
            timeout_secs: config.timeout,
            pool_max_idle_per_host: POOL_MAX_IDLE_PER_HOST,
            pool_idle_timeout_secs: POOL_IDLE_TIMEOUT_SECS,
        };
        match build_http_client(wanted) {
            Ok((http, http_settings)) => Ok(AIClient { config, http, http_settings }),
            Err(e) => Err(AISearchError::Http(e)),
        }
    }

    /// The header value that authorizes a request: `Bearer ` and the API key.
    pub fn authorization_header(&self) -> (res: String)
        ensures
            res@ == "Bearer "@ + self.settings().api_key@,
    {
        let mut h = "Bearer ".to_owned();
        h.append(self.config.api_key.as_str());
        h
    }

    /// The configuration the client was made with.
    pub fn config(&self) -> (res: &AIConfig)
        ensures
            *res == self.settings(),
    {
        &self.config
    }

    /// The HTTP client that carries the requests.
    pub fn http(&self) -> (res: &reqwest::Client)
        ensures
            *res == self.transport(),
    {
        &self.http
    }

    /// The chat-completion endpoint of the configured service.
    pub fn build_endpoint(&self) -> (res: String)
        ensures
            res@ == endpoint_view(self.settings().api_url@),
    {
        build_endpoint(self.config.api_url.as_str())
    }

    /// What a search of `query` does: a tagged sub-question is sent directly
    /// without its tags; otherwise the query is split where more than one
    /// sub-question is configured, and sent as it is where not.
    pub fn route(&self, query: &str) -> (res: SearchRoute)
        ensures
            res is Direct <==> routes_direct(self.settings(), query@),
            res matches SearchRoute::Direct(t) ==> t@ == sub_query_text_view(query@),
            res matches SearchRoute::Split { count } ==> count == self.settings().max_query_plan,
    {
        if starts_with(query, SUB_QUERY_TAG) {
            SearchRoute::Direct(question_text(query))
        } else if self.config.max_query_plan > 1 {
            SearchRoute::Split { count: self.config.max_query_plan }
        } else {
            SearchRoute::Direct(query.to_owned())
        }
    }

    /// The request for `query` under a given system prompt and model.
    pub fn build_request_body_with_model(&self, query: &str, custom_prompt: &str, model_id: &str) -> (res:
        ChatRequest)
        ensures
            request_is(res, model_id@, custom_prompt@, query@, self.settings().stream),
    {
        build_chat_request(query, custom_prompt, model_id, self.config.stream)
    }

    /// The request for `query` under the configured system prompt with the time
    /// placeholder replaced by `current_time`.
    pub fn build_request_body_at(&self, query: &str, current_time: &str) -> (res: ChatRequest)
        ensures
            request_is(
                res,
                self.settings().model_id@,
                replace_view(self.settings().system_prompt@, TIME_PLACEHOLDER@, current_time@),
                query@,
                self.settings().stream,
            ),
    {
        proof {
            reveal_strlit("{current_time}");
        }
        let prompt = replace_all(self.config.system_prompt.as_str(), TIME_PLACEHOLDER, current_time);
        build_chat_request(query, prompt.as_str(), self.config.model_id.as_str(), self.config.stream)
    }

    /// The request for `query` under the configured system prompt, stamped with
    /// the local time of a clock reading: the instant `secs` seconds and `nanos`
    /// nanoseconds after the Unix epoch, at `offset_secs` seconds east of UTC,
    /// written in `TIME_FORMAT` (the placeholder is removed where that reading
    /// cannot be written).
    pub fn build_request_body(&self, query: &str, secs: i64, nanos: u32, offset_secs: i32) -> (res:
        ChatRequest)
        ensures
            request_is(
                res,
                self.settings().model_id@,
                replace_view(
                    self.settings().system_prompt@,
                    TIME_PLACEHOLDER@,
                    stamp_view(secs, nanos, offset_secs),
                ),
                query@,
                self.settings().stream,
            ),
    {
        let now = match format_instant(TIME_FORMAT, secs, nanos, offset_secs) {
            Some(t) => t,
            None => String::new(),
        };
        self.build_request_body_at(query, now.as_str())
    }

    /// The request that asks the split model to split `query` into `count`
    /// sub-questions.
    pub fn split_request(&self, query: &str, count: u32) -> (res: ChatRequest)
        ensures
            request_is(
                res,
                split_model_view(self.settings()),
                SPLIT_SYSTEM_PROMPT@,
                split_prompt_view(query@, count),
                self.settings().stream,
            ),
    {
        let prompt = split_prompt(query, count);
        match &self.config.analysis_model_id {
            Some(m) => self.build_request_body_with_model(prompt.as_str(), SPLIT_SYSTEM_PROMPT, m.as_str()),
            None => self.build_request_body_with_model(
                prompt.as_str(),
                SPLIT_SYSTEM_PROMPT,
                self.config.model_id.as_str(),
            ),
        }
    }
}

} // verus!
