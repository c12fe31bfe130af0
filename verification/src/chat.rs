//! The chat-completion messages exchanged with the service, the endpoint they
//! go to, and how an HTTP status is judged.

use vstd::prelude::*;
use vstd::string::*;
use crate::error::AISearchError;
use crate::text::{ends_with, has_suffix};

verus! {

broadcast use vstd::string::group_string_axioms;

/// The path of the chat-completion endpoint.
pub const COMPLETIONS_PATH: &'static str = "/v1/chat/completions";

/// One message of a conversation.
pub struct ChatMessage {
    pub role: String,
    pub content: String,
}

/// A chat-completion request.
pub struct ChatRequest {
    pub model: String,
    pub messages: Vec<ChatMessage>,
    pub stream: bool,
}

/// A whole answer's message.
pub struct Message {
    pub content: String,
}

/// One piece of a streamed answer.
pub struct Delta {
    pub content: Option<String>,
}

/// One candidate answer.
pub struct Choice {
    pub message: Option<Message>,
    pub delta: Option<Delta>,
}

/// A chat-completion response, whole or one streamed event of it.
pub struct ChatResponse {
    pub choices: Vec<Choice>,
}

/// The endpoint for a base URL: the URL itself where it already ends with the
/// completions path, else the URL with that path appended, without doubling a
/// trailing `/`.
pub open spec fn endpoint_view(api_url: Seq<char>) -> Seq<char> {
    if has_suffix(api_url, COMPLETIONS_PATH@) {
        api_url
    } else if has_suffix(api_url, "/"@) {
        api_url + "v1/chat/completions"@
    } else {
        api_url + COMPLETIONS_PATH@
    }
}

/// The chat-completion endpoint for a base URL.
pub fn build_endpoint(api_url: &str) -> (res: String)
    ensures
        res@ == endpoint_view(api_url@),
{
    let mut url = api_url.to_owned();
    if !ends_with(api_url, COMPLETIONS_PATH) {
        if ends_with(api_url, "/") {
            url.append("v1/chat/completions");
        } else {
            url.append(COMPLETIONS_PATH);
        }
    }
    url
}

/// Whether `m` is a message with the given role and content.
pub open spec fn message_is(m: ChatMessage, role: Seq<char>, content: Seq<char>) -> bool {
    m.role@ == role && m.content@ == content
}

/// Whether `r` asks `model` to answer `query` under the system prompt `prompt`.
pub open spec fn request_is(
    r: ChatRequest,
    model: Seq<char>,
    prompt: Seq<char>,
    query: Seq<char>,
    stream: bool,
) -> bool {
    &&& r.model@ == model
    &&& r.messages@.len() == 2
    &&& message_is(r.messages@[0], "system"@, prompt)
    &&& message_is(r.messages@[1], "user"@, query)
    &&& r.stream == stream
}

/// A request that asks `model_id` to answer `query` under the system prompt `prompt`.
pub fn build_chat_request(query: &str, prompt: &str, model_id: &str, stream: bool) -> (res:
    ChatRequest)
    ensures
        request_is(res, model_id@, prompt@, query@, stream),
{
    let mut messages: Vec<ChatMessage> = Vec::new();
    messages.push(ChatMessage { role: "system".to_owned(), content: prompt.to_owned() });
    messages.push(ChatMessage { role: "user".to_owned(), content: query.to_owned() });
    ChatRequest { model: model_id.to_owned(), messages, stream }
}

/// Whether an HTTP status code reports success (`2xx`).
pub open spec fn status_success(code: u16) -> bool {
    200 <= code <= 299
}

/// Whether an HTTP status code reports success (`2xx`).
pub fn is_success_status(code: u16) -> (res: bool)
    ensures
        res == status_success(code),
{
    200 <= code && code <= 299
}

/// The fixed explanation of a failed status, where the client gives one: `None`
/// means that the response body explains the failure.
pub open spec fn status_detail_view(code: u16) -> Option<Seq<char>> {
    if code == 401 {
        Some("认证失败,请检查 API_KEY 是否正确"@)
    } else if code == 429 {
        Some("请求过于频繁,建议稍后重试或切换 API 渠道"@)
    } else if code >= 500 {
        Some("服务器错误,请稍后重试"@)
    } else {
        None
    }
}

/// The fixed explanation of a failed status, or `None` where the response body
/// is to be used instead.
pub fn status_detail(code: u16) -> (res: Option<String>)
    ensures
        match status_detail_view(code) {
            Some(d) => res matches Some(s) && s@ == d,
            None => res is None,
        },
{
    if code == 401 {
        Some("认证失败,请检查 API_KEY 是否正确".to_owned())
    } else if code == 429 {
        Some("请求过于频繁,建议稍后重试或切换 API 渠道".to_owned())
    } else if code >= 500 {
        Some("服务器错误,请稍后重试".to_owned())
    } else {
        None
    }
}

impl ChatResponse {
    /// The content of the first choice's whole message; a protocol error where
    /// there is no choice or it has no message.
    pub fn first_message_content(&self) -> (res: Result<String, AISearchError>)
        ensures
            self.choices@.len() > 0 && self.choices@[0].message is Some ==> (res matches Ok(c)
                && c@ == self.choices@[0].message->0.content@),
            !(self.choices@.len() > 0 && self.choices@[0].message is Some) ==> (res matches Err(
                AISearchError::Protocol(m),
            ) && m@ == "响应格式错误"@),
    {
        if self.choices.len() > 0 {
            match &self.choices[0].message {
                Some(m) => {
                    return Ok(m.content.clone());
                },
                None => {},
            }
        }
        Err(AISearchError::Protocol("响应格式错误".to_owned()))
    }

    /// The content of the first choice's streamed piece, where there is one.
    pub fn first_delta_content(&self) -> (res: Option<String>)
        ensures
            match res {
                Some(c) => self.choices@.len() > 0 && self.choices@[0].delta is Some
                    && self.choices@[0].delta->0.content is Some && c@
                    == self.choices@[0].delta->0.content->0@,
                None => !(self.choices@.len() > 0 && self.choices@[0].delta is Some
                    && self.choices@[0].delta->0.content is Some),
            },
    {
        if self.choices.len() > 0 {
            match &self.choices[0].delta {
                Some(d) => match &d.content {
                    Some(c) => {
                        return Some(c.clone());
                    },
                    None => {},
                },
                None => {},
            }
        }
        None
    }
}

} // verus!
