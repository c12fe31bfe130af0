//! Client configuration: reading it from raw variable values, checking it, and
//! showing it without its secrets.

use vstd::prelude::*;
use vstd::string::*;
use crate::error::AISearchError;
use crate::text::{
    debug_quoted, debug_quoted_view, decimal_string, decimal_view, has_prefix, lowercase_view, parse_u32, parse_u64, same_text,
    starts_with, to_lowercase, to_uppercase, unsigned_value, uppercase_view,
};

verus! {

broadcast use vstd::string::group_string_axioms;

/// Seconds a request may take when `AI_TIMEOUT` gives no usable number.
pub const DEFAULT_TIMEOUT: u64 = 60;

/// Retries after a failed request when `AI_RETRY_COUNT` gives no usable number.
pub const DEFAULT_RETRY_COUNT: u32 = 1;

/// Sub-questions a query is split into when `AI_MAX_QUERY_PLAN` gives no usable number.
pub const DEFAULT_MAX_QUERY_PLAN: u32 = 3;

/// The system prompt used when `AI_SYSTEM_PROMPT` is not set; `{current_time}`
/// is replaced by the current local time on every request.
pub const DEFAULT_SYSTEM_PROMPT: &'static str = "你是一个专业的搜索助手,擅长联网搜索并提供准确、详细的答案。\n\n当前时间: {current_time}\n\n搜索策略:\n1. 优先使用最新、权威的信息源\n2. 对于时间敏感的查询,明确标注信息的时间\n3. 提供多个来源的信息进行交叉验证\n4. 对于技术问题,优先参考官方文档和最新版本\n\n输出要求:\n- 直接回答用户问题,避免冗余\n- 标注关键信息的来源 [来源](URL)\n- 对于复杂问题,提供结构化的答案\n- 时间相关信息必须基于上述当前时间判断";

/// The log level used when `AI_LOG_LEVEL` is not set.
pub const DEFAULT_LOG_LEVEL: &'static str = "INFO";

/// The settings of the search client.
#[derive(Clone)]
pub struct AIConfig {
    pub api_url: String,
    pub api_key: String,
    pub model_id: String,
    pub analysis_model_id: Option<String>,
    pub system_prompt: String,
    pub timeout: u64,
    pub stream: bool,
    pub filter_thinking: bool,
    pub retry_count: u32,
    pub log_level: String,
    pub max_query_plan: u32,
}

/// The raw values of the `AI_*` environment variables, `None` for an unset one.
pub struct ConfigVars {
    /// `AI_API_URL`
    pub api_url: Option<String>,
    /// `AI_API_KEY`
    pub api_key: Option<String>,
    /// `AI_MODEL_ID`
    pub model_id: Option<String>,
    /// `AI_ANALYSIS_MODEL_ID`
    pub analysis_model_id: Option<String>,
    /// `AI_SYSTEM_PROMPT`
    pub system_prompt: Option<String>,
    /// `AI_TIMEOUT`
    pub timeout: Option<String>,
    /// `AI_STREAM`
    pub stream: Option<String>,
    /// `AI_FILTER_THINKING`
    pub filter_thinking: Option<String>,
    /// `AI_RETRY_COUNT`
    pub retry_count: Option<String>,
    /// `AI_LOG_LEVEL`
    pub log_level: Option<String>,
    /// `AI_MAX_QUERY_PLAN`
    pub max_query_plan: Option<String>,
}

/// A `u64` setting: the value that `raw` spells, or `default` where it is unset
/// or spells no `u64`.
pub open spec fn u64_setting(raw: Option<String>, default: u64) -> u64 {
    match raw {
        Some(t) => match unsigned_value(t@) {
            Some(v) => if v <= u64::MAX {
                v as u64
            } else {
                default
            },
            None => default,
        },
        None => default,
    }
}

/// A `u32` setting: the value that `raw` spells, or `default` where it is unset
/// or spells no `u32`.
pub open spec fn u32_setting(raw: Option<String>, default: u32) -> u32 {
    match raw {
        Some(t) => match unsigned_value(t@) {
            Some(v) => if v <= u32::MAX {
                v as u32
            } else {
                default
            },
            None => default,
        },
        None => default,
    }
}

/// A switch: on where unset, else on exactly when the value in lower case is `true`.
pub open spec fn flag_setting(raw: Option<String>) -> bool {
    match raw {
        Some(t) => lowercase_view(t@) == "true"@,
        None => true,
    }
}

/// Whether `url` names an `http` or `https` endpoint.
pub open spec fn url_scheme_ok(url: Seq<char>) -> bool {
    has_prefix(url, "http://"@) || has_prefix(url, "https://"@)
}

/// Whether a timeout in seconds is accepted.
pub open spec fn timeout_ok(timeout: u64) -> bool {
    1 <= timeout <= 300
}

/// Whether a configuration passes validation.
pub open spec fn config_valid(c: AIConfig) -> bool {
    url_scheme_ok(c.api_url@) && timeout_ok(c.timeout)
}

/// The message of the validation error of an invalid configuration.
pub open spec fn validation_message(c: AIConfig) -> Seq<char> {
    if !url_scheme_ok(c.api_url@) {
        "API URL 必须以 http:// 或 https:// 开头: "@ + c.api_url@
    } else {
        "超时时间必须在 1-300 秒之间: "@ + decimal_view(c.timeout as nat)
    }
}

/// Whether `c` holds the settings that `vars` give, the required three present.
pub open spec fn settings_from(c: AIConfig, vars: ConfigVars) -> bool {
    &&& vars.api_url == Some(c.api_url)
    &&& vars.api_key == Some(c.api_key)
    &&& vars.model_id == Some(c.model_id)
    &&& c.analysis_model_id == vars.analysis_model_id
    &&& c.system_prompt@ == match vars.system_prompt {
        Some(p) => p@,
        None => DEFAULT_SYSTEM_PROMPT@,
    }
    &&& c.timeout == u64_setting(vars.timeout, DEFAULT_TIMEOUT)
    &&& c.stream == flag_setting(vars.stream)
    &&& c.filter_thinking == flag_setting(vars.filter_thinking)
    &&& c.retry_count == u32_setting(vars.retry_count, DEFAULT_RETRY_COUNT)
    &&& c.log_level@ == uppercase_view(
        match vars.log_level {
            Some(l) => l@,
            None => DEFAULT_LOG_LEVEL@,
        },
    )
    &&& c.max_query_plan == u32_setting(vars.max_query_plan, DEFAULT_MAX_QUERY_PLAN)
}

/// Whether the variables give a configuration that passes validation.
pub open spec fn vars_valid(vars: ConfigVars) -> bool {
    &&& vars.api_url is Some
    &&& vars.api_key is Some
    &&& vars.model_id is Some
    &&& url_scheme_ok(vars.api_url->0@)
    &&& timeout_ok(u64_setting(vars.timeout, DEFAULT_TIMEOUT))
}

/// The `u64` that `raw` spells, or `default`.
fn read_u64(raw: Option<String>, default: u64) -> (res: u64)
    ensures
        res == u64_setting(raw, default),
{
    match raw {
        Some(t) => match parse_u64(t.as_str()) {
            Some(v) => v,
            None => default,
        },
        None => default,
    }
}

/// The `u32` that `raw` spells, or `default`.
fn read_u32(raw: Option<String>, default: u32) -> (res: u32)
    ensures
        res == u32_setting(raw, default),
{
    match raw {
        Some(t) => match parse_u32(t.as_str()) {
            Some(v) => v,
            None => default,
        },
        None => default,
    }
}

/// The switch that `raw` sets.
fn read_flag(raw: Option<String>) -> (res: bool)
    ensures
        res == flag_setting(raw),
{
    match raw {
        Some(t) => {
            let lower = to_lowercase(t.as_str());
            same_text(lower.as_str(), "true")
        },
        None => true,
    }
}

/// The error for a required variable that is not set.
fn missing_var(name: &str) -> (res: AISearchError)
    ensures
        res matches AISearchError::Config(m) && m@ == "缺少 "@ + name@ + " 环境变量"@,
{
    let mut m = "缺少 ".to_owned();
    m.append(name);
    m.append(" 环境变量");
    AISearchError::Config(m)
}

/// The `Debug` text of an optional string.
pub open spec fn option_debug_view(o: Option<String>) -> Seq<char> {
    match o {
        Some(s) => "Some("@ + debug_quoted_view(s@) + ")"@,
        None => "None"@,
    }
}

/// The `Display` text of a `bool`.
pub open spec fn bool_view(b: bool) -> Seq<char> {
    if b {
        "true"@
    } else {
        "false"@
    }
}

/// How a configuration is shown: every field in order, with the API key replaced
/// by `"***REDACTED***"` and the system prompt by `"<omitted>"`.
pub open spec fn config_debug_view(c: AIConfig) -> Seq<char> {
    "AIConfig { api_url: "@ + debug_quoted_view(c.api_url@) + ", api_key: \"***REDACTED***\", model_id: "@
        + debug_quoted_view(c.model_id@) + ", analysis_model_id: "@ + option_debug_view(
        c.analysis_model_id,
    ) + ", system_prompt: \"<omitted>\", timeout: "@ + decimal_view(c.timeout as nat)
        + ", stream: "@ + bool_view(c.stream) + ", filter_thinking: "@ + bool_view(
        c.filter_thinking,
    ) + ", retry_count: "@ + decimal_view(c.retry_count as nat) + ", log_level: "@
        + debug_quoted_view(c.log_level@) + ", max_query_plan: "@ + decimal_view(
        c.max_query_plan as nat,
    ) + " }"@
}

/// The `Display` text of a `bool`.
fn bool_text(b: bool) -> (res: &'static str)
    ensures
        res@ == bool_view(b),
{
    if b {
        "true"
    } else {
        "false"
    }
}

impl AIConfig {
    /// The configuration as its `Debug` form shows it, with the API key and the
    /// system prompt left out.
    pub fn debug_string(&self) -> (res: String)
        ensures
            res@ == config_debug_view(*self),
    {
        let mut s = "AIConfig { api_url: ".to_owned();
        s.append(debug_quoted(self.api_url.as_str()).as_str());
        s.append(", api_key: \"***REDACTED***\", model_id: ");
        s.append(debug_quoted(self.model_id.as_str()).as_str());
        s.append(", analysis_model_id: ");
        match &self.analysis_model_id {
            Some(m) => {
                s.append("Some(");
                s.append(debug_quoted(m.as_str()).as_str());
                s.append(")");
            },
            None => {
                s.append("None");
            },
        }
        s.append(", system_prompt: \"<omitted>\", timeout: ");
        s.append(decimal_string(self.timeout).as_str());
        s.append(", stream: ");
        s.append(bool_text(self.stream));
        s.append(", filter_thinking: ");
        s.append(bool_text(self.filter_thinking));
        s.append(", retry_count: ");
        s.append(decimal_string(self.retry_count as u64).as_str());
        s.append(", log_level: ");
        s.append(debug_quoted(self.log_level.as_str()).as_str());
        s.append(", max_query_plan: ");
        s.append(decimal_string(self.max_query_plan as u64).as_str());
        s.append(" }");
        s
    }

    /// Builds the configuration from the raw values of the environment variables
    /// and validates it. The three required variables are checked in the order
    /// `AI_API_URL`, `AI_API_KEY`, `AI_MODEL_ID`.
    pub fn from_env_values(vars: ConfigVars) -> (res: Result<AIConfig, AISearchError>)
        ensures
            vars.api_url is None ==> (res matches Err(AISearchError::Config(m)) && m@
                == "缺少 AI_API_URL 环境变量"@),
            vars.api_url is Some && vars.api_key is None ==> (res matches Err(
                AISearchError::Config(m),
            ) && m@ == "缺少 AI_API_KEY 环境变量"@),
            vars.api_url is Some && vars.api_key is Some && vars.model_id is None ==> (
            res matches Err(AISearchError::Config(m)) && m@ == "缺少 AI_MODEL_ID 环境变量"@),
            res is Ok <==> vars_valid(vars),
            res matches Ok(c) ==> settings_from(c, vars) && config_valid(c),
            vars.api_url is Some && vars.api_key is Some && vars.model_id is Some && !vars_valid(
                vars,
            ) ==> (res matches Err(AISearchError::Config(m)) && (!url_scheme_ok(
                vars.api_url->0@,
            ) ==> m@ == "API URL 必须以 http:// 或 https:// 开头: "@ + vars.api_url->0@) && (
            url_scheme_ok(vars.api_url->0@) ==> m@ == "超时时间必须在 1-300 秒之间: "@
                + decimal_view(u64_setting(vars.timeout, DEFAULT_TIMEOUT) as nat))),
    {
        let ghost v = vars;
        let ConfigVars {
            api_url,
            api_key,
            model_id,
            analysis_model_id,
            system_prompt,
            timeout,
            stream,
            filter_thinking,
            retry_count,
            log_level,
            max_query_plan,
        } = vars;
        let api_url = match api_url {
            Some(u) => u,
            None => {
                proof {
                    reveal_strlit("缺少 ");
                    reveal_strlit(" 环境变量");
                    reveal_strlit("AI_API_URL");
                    reveal_strlit("缺少 AI_API_URL 环境变量");
                    assert("缺少 "@ + "AI_API_URL"@ + " 环境变量"@ =~= "缺少 AI_API_URL 环境变量"@);
                }
                return Err(missing_var("AI_API_URL"));
            },
        };
        let api_key = match api_key {
            Some(k) => k,
            None => {
                proof {
                    reveal_strlit("缺少 ");
                    reveal_strlit(" 环境变量");
                    reveal_strlit("AI_API_KEY");
                    reveal_strlit("缺少 AI_API_KEY 环境变量");
                    assert("缺少 "@ + "AI_API_KEY"@ + " 环境变量"@ =~= "缺少 AI_API_KEY 环境变量"@);
                }
                return Err(missing_var("AI_API_KEY"));
            },
        };
        let model_id = match model_id {
            Some(m) => m,
            None => {
                proof {
                    reveal_strlit("缺少 ");
                    reveal_strlit(" 环境变量");
                    reveal_strlit("AI_MODEL_ID");
                    reveal_strlit("缺少 AI_MODEL_ID 环境变量");
                    assert("缺少 "@ + "AI_MODEL_ID"@ + " 环境变量"@ =~= "缺少 AI_MODEL_ID 环境变量"@);
                }
                return Err(missing_var("AI_MODEL_ID"));
            },
        };
        let system_prompt = match system_prompt {
            Some(p) => p,
            None => DEFAULT_SYSTEM_PROMPT.to_owned(),
        };
        let timeout = read_u64(timeout, DEFAULT_TIMEOUT);
        let stream = read_flag(stream);
        let filter_thinking = read_flag(filter_thinking);
        let retry_count = read_u32(retry_count, DEFAULT_RETRY_COUNT);
        let log_level = match log_level {
            Some(l) => to_uppercase(l.as_str()),
            None => to_uppercase(DEFAULT_LOG_LEVEL),
        };
        let max_query_plan = read_u32(max_query_plan, DEFAULT_MAX_QUERY_PLAN);
        let config = AIConfig {
            api_url,
            api_key,
            model_id,
            analysis_model_id,
            system_prompt,
            timeout,
            stream,
            filter_thinking,
            retry_count,
            log_level,
            max_query_plan,
        };
        assert(settings_from(config, v));
        match config.validate() {
            Ok(()) => Ok(config),
            Err(e) => Err(e),
        }
    }

    /// Checks that the API URL is an `http` or `https` URL and that the timeout
    /// lies between 1 and 300 seconds, in that order.
    pub fn validate(&self) -> (res: Result<(), AISearchError>)
        ensures
            res is Ok <==> config_valid(*self),
            res matches Err(e) ==> (e matches AISearchError::Config(m) && m@ == validation_message(
                *self,
            )),
    {
        if !starts_with(self.api_url.as_str(), "http://") && !starts_with(
            self.api_url.as_str(),
            "https://",
        ) {
            let mut m = "API URL 必须以 http:// 或 https:// 开头: ".to_owned();
            m.append(self.api_url.as_str());
            return Err(AISearchError::Config(m));
        }
        if self.timeout < 1 || self.timeout > 300 {
            let mut m = "超时时间必须在 1-300 秒之间: ".to_owned();
            let t = decimal_string(self.timeout);
            m.append(t.as_str());
            return Err(AISearchError::Config(m));
        }
        Ok(())
    }
}

} // verus!
