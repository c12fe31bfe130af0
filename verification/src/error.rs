//! The error type of the library and the text each error is shown as.

use vstd::prelude::*;
use vstd::string::*;
use crate::text::{decimal_string, decimal_view, has_prefix};

verus! {

broadcast use vstd::string::group_string_axioms;

/// `serde_json::Error`, carried through unchanged.
#[verifier::external_type_specification]
#[verifier::external_body]
pub struct ExJsonError(serde_json::Error);

/// `reqwest::Error`, carried through unchanged.
#[verifier::external_type_specification]
#[verifier::external_body]
pub struct ExHttpError(reqwest::Error);

/// `std::io::Error`, carried through unchanged.
#[verifier::external_type_specification]
#[verifier::external_body]
pub struct ExIoError(std::io::Error);

/// Everything that can go wrong while configuring the client or searching.
#[derive(Debug)]
pub enum AISearchError {
    /// The configuration is missing a value or holds an invalid one.
    Config(String),
    /// The service answered with a non-success HTTP status.
    Api { code: u16, message: String },
    /// The request could not be carried out.
    Network { message: String, suggestion: String },
    /// The service answered with something the client cannot use.
    Protocol(String),
    /// A JSON document could not be read or written.
    Json(serde_json::Error),
    /// The HTTP layer failed.
    Http(reqwest::Error),
    /// An I/O operation failed.
    Io(std::io::Error),
}

/// The text of the errors whose contents the library owns; for the variants that
/// carry an outside error, the fixed label that the outside error's own text follows.
pub open spec fn error_text_view(e: AISearchError) -> Seq<char> {
    match e {
        AISearchError::Config(m) => "配置错误: "@ + m@,
        AISearchError::Api { code, message } => "API 错误 (HTTP "@ + decimal_view(code as nat)
            + "): "@ + message@,
        AISearchError::Network { message, suggestion } => "网络错误: "@ + message@ + "\n建议: "@
            + suggestion@,
        AISearchError::Protocol(m) => "协议错误: "@ + m@,
        AISearchError::Json(_) => "JSON 解析错误: "@,
        AISearchError::Http(_) => "HTTP 错误: "@,
        AISearchError::Io(_) => "IO 错误: "@,
    }
}

/// Whether the variant carries an error of an outside crate or of std.
pub open spec fn wraps_outside_error(e: AISearchError) -> bool {
    e is Json || e is Http || e is Io
}

impl From<serde_json::Error> for AISearchError {
    /// Wraps the error in its variant.
    fn from(e: serde_json::Error) -> (res: Self) {
        AISearchError::Json(e)
    }
}

impl vstd::std_specs::convert::FromSpecImpl<serde_json::Error> for AISearchError {
    open spec fn obeys_from_spec() -> bool {
        true
    }

    open spec fn from_spec(e: serde_json::Error) -> Self {
        AISearchError::Json(e)
    }
}

impl From<reqwest::Error> for AISearchError {
    /// Wraps the error in its variant.
    fn from(e: reqwest::Error) -> (res: Self) {
        AISearchError::Http(e)
    }
}

impl vstd::std_specs::convert::FromSpecImpl<reqwest::Error> for AISearchError {
    open spec fn obeys_from_spec() -> bool {
        true
    }

    open spec fn from_spec(e: reqwest::Error) -> Self {
        AISearchError::Http(e)
    }
}

impl From<std::io::Error> for AISearchError {
    /// Wraps the error in its variant.
    fn from(e: std::io::Error) -> (res: Self) {
        AISearchError::Io(e)
    }
}

impl vstd::std_specs::convert::FromSpecImpl<std::io::Error> for AISearchError {
    open spec fn obeys_from_spec() -> bool {
        true
    }

    open spec fn from_spec(e: std::io::Error) -> Self {
        AISearchError::Io(e)
    }
}

impl AISearchError {
    /// The text the error is shown as: a label, then the error's contents; for a
    /// wrapped outside error, the label followed by that error's `Display` text.
    pub fn message(&self) -> (res: String)
        ensures
            !wraps_outside_error(*self) ==> res@ == error_text_view(*self),
            wraps_outside_error(*self) ==> has_prefix(res@, error_text_view(*self)),
            *self matches AISearchError::Json(e) ==> exists|t: String|
                #[trigger] to_string_from_display_ensures::<serde_json::Error>(&e, t) && res@
                    == "JSON 解析错误: "@ + t@,
            *self matches AISearchError::Http(e) ==> exists|t: String|
                #[trigger] to_string_from_display_ensures::<reqwest::Error>(&e, t) && res@
                    == "HTTP 错误: "@ + t@,
            *self matches AISearchError::Io(e) ==> exists|t: String|
                #[trigger] to_string_from_display_ensures::<std::io::Error>(&e, t) && res@
                    == "IO 错误: "@ + t@,
    {
        match self {
            AISearchError::Config(m) => {
                let mut s = "配置错误: ".to_owned();
                s.append(m.as_str());
                s
            },
            AISearchError::Api { code, message } => {
                let mut s = "API 错误 (HTTP ".to_owned();
                let c = decimal_string(*code as u64);
                s.append(c.as_str());
                s.append("): ");
                s.append(message.as_str());
                s
            },
            AISearchError::Network { message, suggestion } => {
                let mut s = "网络错误: ".to_owned();
                s.append(message.as_str());
                s.append("\n建议: ");
                s.append(suggestion.as_str());
                s
            },
            AISearchError::Protocol(m) => {
                let mut s = "协议错误: ".to_owned();
                s.append(m.as_str());
                s
            },
            AISearchError::Json(e) => {
                let mut s = "JSON 解析错误: ".to_owned();
                let t = e.to_string();
                s.append(t.as_str());
                assert(s@.take("JSON 解析错误: "@.len() as int) =~= "JSON 解析错误: "@);
                s
            },
            AISearchError::Http(e) => {
                let mut s = "HTTP 错误: ".to_owned();
                let t = e.to_string();
                s.append(t.as_str());
                assert(s@.take("HTTP 错误: "@.len() as int) =~= "HTTP 错误: "@);
                s
            },
            AISearchError::Io(e) => {
                let mut s = "IO 错误: ".to_owned();
                let t = e.to_string();
                s.append(t.as_str());
                assert(s@.take("IO 错误: "@.len() as int) =~= "IO 错误: "@);
                s
            },
        }
    }

    /// The error for a concurrent search task that did not complete, given the
    /// text of what stopped it.
    pub fn task_failure(detail: &str) -> (res: AISearchError)
        ensures
            res matches AISearchError::Network { message, suggestion } && message@ == "任务执行失败: "@
                + detail@ && suggestion@ == "请重试"@,
    {
        let mut message = "任务执行失败: ".to_owned();
        message.append(detail);
        AISearchError::Network { message, suggestion: "请重试".to_owned() }
    }
}

} // verus!
