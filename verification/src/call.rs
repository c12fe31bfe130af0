//! The decisions of one API call with retries: after each request's outcome,
//! either finish with a result or wait and send the request again.

use vstd::prelude::*;
use crate::config::AIConfig;
use crate::error::AISearchError;
use crate::thinking::{filter_thinking_content, thinking_filtered_view};

verus! {

/// Seconds to wait before a request is sent again.
pub const RETRY_DELAY_SECS: u64 = 1;

/// Where a call stands: how many requests have failed so far, and what the
/// configuration allows.
pub struct CallState {
    /// The number of the request being answered, counted from 0.
    pub attempt: u32,
    /// How many times a failed request may be sent again.
    pub retry_count: u32,
    /// Whether reasoning blocks are removed from an answer.
    pub filter_thinking: bool,
}

/// What to do after a request's outcome.
pub enum CallStep {
    /// The call is over, with this result.
    Finish(Result<String, AISearchError>),
    /// Wait this many seconds, then send the request again.
    Retry { delay_secs: u64 },
}

/// The state after a failed request, where the configuration allows another
/// attempt; `None` where the call must give up.
pub open spec fn after_failure(s: CallState) -> Option<CallState> {
    if s.attempt < s.retry_count {
        Some(CallState { attempt: (s.attempt + 1) as u32, ..s })
    } else {
        None
    }
}

/// How many more requests a call sends from `s` when every one of them fails.
pub open spec fn requests_until_given_up(s: CallState) -> nat
    decreases s.retry_count - s.attempt,
{
    match after_failure(s) {
        Some(t) => 1 + requests_until_given_up(t),
        None => 1,
    }
}

/// What a call returns for a successful answer `text`.
pub open spec fn answer_view(filter_thinking: bool, text: Seq<char>) -> Seq<char> {
    if filter_thinking {
        thinking_filtered_view(text)
    } else {
        text
    }
}

/// The state in which a call under `c` starts.
pub open spec fn initial_call_state(c: AIConfig) -> CallState {
    CallState { attempt: 0, retry_count: c.retry_count, filter_thinking: c.filter_thinking }
}

impl CallState {
    /// The state of a new call under `config`.
    pub fn new(config: &AIConfig) -> (res: CallState)
        ensures
            res == initial_call_state(*config),
            res.attempt == 0,
            res.retry_count == config.retry_count,
            res.filter_thinking == config.filter_thinking,
    {
        CallState { attempt: 0, retry_count: config.retry_count, filter_thinking: config.filter_thinking }
    }

    /// Takes the outcome of the latest request. An answer finishes the call,
    /// filtered where so configured. An error is retried after a delay while
    /// attempts are left, and finishes the call unchanged once none are.
    pub fn on_outcome(&mut self, outcome: Result<String, AISearchError>) -> (res: CallStep)
        ensures
            match outcome {
                Ok(text) => *final(self) == *old(self) && (res matches CallStep::Finish(Ok(r))
                    && r@ == answer_view(old(self).filter_thinking, text@)),
                Err(e) => match after_failure(*old(self)) {
                    Some(t) => *final(self) == t && res == (CallStep::Retry {
                        delay_secs: RETRY_DELAY_SECS,
                    }),
                    None => *final(self) == *old(self) && res == CallStep::Finish(Err(e)),
                },
            },
    {
        match outcome {
            Ok(text) => {
                let answer = if self.filter_thinking {
                    filter_thinking_content(text.as_str())
                } else {
                    text
                };
                CallStep::Finish(Ok(answer))
            },
            Err(e) => {
                if self.attempt < self.retry_count {
                    self.attempt = self.attempt + 1;
                    CallStep::Retry { delay_secs: RETRY_DELAY_SECS }
                } else {
                    CallStep::Finish(Err(e))
                }
            },
        }
    }
}

/// A call that keeps failing sends exactly `retry_count + 1` requests, one
/// more than the number of retries allowed, and never more.
pub proof fn lemma_failing_call_sends_retry_count_plus_one(c: AIConfig)
    ensures
        requests_until_given_up(initial_call_state(c)) == c.retry_count + 1,
{
    lemma_requests_left(initial_call_state(c));
}

/// From any state that has not overshot, a failing call sends the remaining
/// attempts and one more.
pub proof fn lemma_requests_left(s: CallState)
    requires
        s.attempt <= s.retry_count,
    ensures
        requests_until_given_up(s) == s.retry_count - s.attempt + 1,
    decreases s.retry_count - s.attempt,
{
    if s.attempt < s.retry_count {
        lemma_requests_left(after_failure(s)->0);
    }
}

} // verus!
