//! Properties that relate several parts of the library.

use vstd::prelude::*;
use crate::chat::{endpoint_view, request_is, ChatRequest, COMPLETIONS_PATH};
use crate::call::{answer_view, initial_call_state, CallState};
use crate::client::{
    routes_direct, split_model_view, split_prompt_view, stamp_view, sub_query_text_view,
    tagged_view, time_text_view, SUB_QUERY_TAG, TIME_FORMAT, TIME_PLACEHOLDER,
};
use crate::stream::concat_view;
use crate::thinking::thinking_filtered_view;
use crate::config::{config_debug_view, AIConfig};
use crate::text::{
    decimal_view, is_ascii_digit, lemma_decimal_digits, lemma_decimal_injective, has_prefix, has_suffix, is_white_space_spec, replace_view, strip_prefixes_view, trim_end_view,
    trim_start_view, trim_view,
};

verus! {

/// Two configurations that differ only in their API key and system prompt are
/// shown alike: neither secret can be read from a configuration's `Debug` text.
pub proof fn lemma_debug_text_hides_secrets(a: AIConfig, b: AIConfig)
    requires
        a.api_url == b.api_url,
        a.model_id == b.model_id,
        a.analysis_model_id == b.analysis_model_id,
        a.timeout == b.timeout,
        a.stream == b.stream,
        a.filter_thinking == b.filter_thinking,
        a.retry_count == b.retry_count,
        a.log_level == b.log_level,
        a.max_query_plan == b.max_query_plan,
    ensures
        config_debug_view(a) == config_debug_view(b),
{
}

/// A tagged sub-question is searched directly, whatever the configuration:
/// the split never splits its own sub-questions again.
pub proof fn lemma_sub_queries_are_not_split(c: AIConfig, question: Seq<char>)
    ensures
        routes_direct(c, tagged_view(question)),
{
    reveal_strlit("[SUB_QUERY]");
    reveal_strlit(" ");
    assert(tagged_view(question).take(SUB_QUERY_TAG@.len() as int) =~= SUB_QUERY_TAG@);
}

/// A tagged sub-question is searched as the question it carries, trimmed.
pub proof fn lemma_sub_query_searches_its_question(question: Seq<char>)
    ensures
        sub_query_text_view(tagged_view(question)) == trim_view(question),
{
    reveal_strlit("[SUB_QUERY]");
    reveal_strlit(" ");
    let t = tagged_view(question);
    let tag = SUB_QUERY_TAG@;
    assert(t.take(tag.len() as int) =~= tag);
    let rest = " "@ + question;
    assert(t.skip(tag.len() as int) =~= rest);
    assert(!has_prefix(rest, tag)) by {
        if has_prefix(rest, tag) {
            assert(rest.take(tag.len() as int)[0] == ' ');
        }
    }
    assert(strip_prefixes_view(rest, tag) == rest);
    assert(strip_prefixes_view(t, tag) == rest);
    assert(is_white_space_spec(rest[0]));
    assert(rest.drop_first() =~= question);
    assert(trim_start_view(rest) == trim_start_view(question));
}

/// The endpoint always ends with the completions path, and building the
/// endpoint of an endpoint changes nothing.
pub proof fn lemma_endpoint_is_stable(api_url: Seq<char>)
    ensures
        has_suffix(endpoint_view(api_url), COMPLETIONS_PATH@),
        endpoint_view(endpoint_view(api_url)) == endpoint_view(api_url),
{
    reveal_strlit("/v1/chat/completions");
    reveal_strlit("v1/chat/completions");
    reveal_strlit("/");
    let path = COMPLETIONS_PATH@;
    let e = endpoint_view(api_url);
    if has_suffix(api_url, path) {
    } else if has_suffix(api_url, "/"@) {
        let tail = "v1/chat/completions"@;
        assert(e == api_url + tail);
        assert(e.skip(e.len() - path.len()) =~= path) by {
            assert forall|k: int| 0 <= k < path.len() implies e.skip(e.len() - path.len())[k]
                == path[k] by {
                if k == 0 {
                    assert(api_url.skip(api_url.len() - 1)[0] == '/');
                    assert(api_url[api_url.len() - 1] == '/');
                } else {
                    assert(e[e.len() - path.len() + k] == tail[k - 1]);
                }
            }
        }
    } else {
        assert(e.skip(e.len() - path.len()) =~= path);
    }
}

/// A system prompt without the placeholder is sent as it is.
pub proof fn lemma_replace_without_occurrence(s: Seq<char>, p: Seq<char>, r: Seq<char>)
    requires
        p.len() > 0,
        forall|i: int| 0 <= i <= s.len() - p.len() ==> #[trigger] s.subrange(i, i + p.len()) != p,
    ensures
        replace_view(s, p, r) == s,
    decreases s.len(),
{
    if s.len() > 0 {
        assert(!has_prefix(s, p)) by {
            if has_prefix(s, p) {
                let w = s.subrange(0int, 0int + p.len());
                assert(w =~= s.take(p.len() as int));
                assert(w != p);
            }
        }
        let t = s.drop_first();
        assert forall|i: int| 0 <= i <= t.len() - p.len() implies #[trigger] t.subrange(
            i,
            i + p.len(),
        ) != p by {
            assert(t.subrange(i, i + p.len()) =~= s.subrange(i + 1, i + 1 + p.len()));
        }
        lemma_replace_without_occurrence(t, p, r);
        assert(seq![s[0]] + t =~= s);
    }
}

/// Without an analysis model, the split request is the request that
/// `build_request_body_with_model` builds for the search model.
pub proof fn lemma_split_uses_search_model_by_default(
    c: AIConfig,
    r: ChatRequest,
    prompt: Seq<char>,
    query: Seq<char>,
)
    ensures
        c.analysis_model_id is None ==> (request_is(r, split_model_view(c), prompt, query, c.stream)
            <==> request_is(r, c.model_id@, prompt, query, c.stream)),
{
}

/// The split question asks for exactly the configured number of
/// sub-questions: it is the fixed template around the count written in decimal
/// and the query.
pub proof fn lemma_split_prompt_template(query: Seq<char>, count: u32)
    ensures
        split_prompt_view(query, count) == "将查询拆分成 "@ + decimal_view(count as nat)
            + " 个子问题，返回 JSON 数组。\n\n查询: "@ + query
            + "\n\n只返回 JSON 数组，格式: [\"子问题1\", \"子问题2\", \"子问题3\"]"@,
{
}

/// Different counts, or different queries, give different split questions:
/// the count and the query can both be read back from the question.
pub proof fn lemma_split_prompt_determines_count_and_query(
    q1: Seq<char>,
    n1: u32,
    q2: Seq<char>,
    n2: u32,
)
    ensures
        split_prompt_view(q1, n1) == split_prompt_view(q2, n2) ==> n1 == n2 && q1 == q2,
{
    reveal_strlit("将查询拆分成 ");
    reveal_strlit(" 个子问题，返回 JSON 数组。\n\n查询: ");
    reveal_strlit("\n\n只返回 JSON 数组，格式: [\"子问题1\", \"子问题2\", \"子问题3\"]");
    let p = "将查询拆分成 "@;
    let m = " 个子问题，返回 JSON 数组。\n\n查询: "@;
    let t = "\n\n只返回 JSON 数组，格式: [\"子问题1\", \"子问题2\", \"子问题3\"]"@;
    let d1 = decimal_view(n1 as nat);
    let d2 = decimal_view(n2 as nat);
    let s1 = split_prompt_view(q1, n1);
    let s2 = split_prompt_view(q2, n2);
    if s1 == s2 {
        lemma_decimal_digits(n1 as nat);
        lemma_decimal_digits(n2 as nat);
        assert(s1 == p + d1 + m + q1 + t);
        assert(s2 == p + d2 + m + q2 + t);
        assert(m[0] == ' ');
        if d1.len() < d2.len() {
            let k = (p.len() + d1.len()) as int;
            assert(s1[k] == m[0]);
            assert(s2[k] == d2[d1.len() as int]);
            assert(is_ascii_digit(d2[d1.len() as int]));
            assert(false);
        }
        if d2.len() < d1.len() {
            let k = (p.len() + d2.len()) as int;
            assert(s2[k] == m[0]);
            assert(s1[k] == d1[d2.len() as int]);
            assert(is_ascii_digit(d1[d2.len() as int]));
            assert(false);
        }
        assert(d1 =~= s1.subrange(p.len() as int, (p.len() + d1.len()) as int));
        assert(d2 =~= s2.subrange(p.len() as int, (p.len() + d2.len()) as int));
        lemma_decimal_injective(n1 as nat, n2 as nat);
        let start = (p.len() + d1.len() + m.len()) as int;
        assert(q1.len() == q2.len());
        assert(q1 =~= s1.subrange(start, start + q1.len()));
        assert(q2 =~= s2.subrange(start, start + q2.len()));
    }
}

/// An untagged query is split exactly when more than one sub-question is
/// configured, whatever the other settings are.
pub proof fn lemma_untagged_query_split_iff_plan_above_one(c: AIConfig, query: Seq<char>)
    ensures
        !has_prefix(query, SUB_QUERY_TAG@) ==> (routes_direct(c, query) <==> c.max_query_plan <= 1),
{
}

/// Configurations with the same number of sub-questions route every query alike.
pub proof fn lemma_route_depends_only_on_plan(a: AIConfig, b: AIConfig, query: Seq<char>)
    requires
        a.max_query_plan == b.max_query_plan,
    ensures
        routes_direct(a, query) == routes_direct(b, query),
{
}

/// A new call starts at its first attempt with the configured retries, and its
/// answer is filtered exactly when the configuration says so, whatever the
/// other settings are.
pub proof fn lemma_new_call_follows_config(c: AIConfig, text: Seq<char>)
    ensures
        initial_call_state(c) == (CallState {
            attempt: 0,
            retry_count: c.retry_count,
            filter_thinking: c.filter_thinking,
        }),
        answer_view(initial_call_state(c).filter_thinking, text) == if c.filter_thinking {
            thinking_filtered_view(text)
        } else {
            text
        },
{
}

/// The answer of a stream is all its pieces joined in order: joining two runs
/// of pieces is joining their answers, and each piece adds its own text.
pub proof fn lemma_answer_joins_all_pieces(a: Seq<String>, b: Seq<String>)
    ensures
        concat_view(Seq::<String>::empty()) == Seq::<char>::empty(),
        concat_view(a + b) == concat_view(a) + concat_view(b),
    decreases b.len(),
{
    if b.len() == 0 {
        assert(a + b =~= a);
        assert(concat_view(a) + Seq::<char>::empty() =~= concat_view(a));
    } else {
        let b0 = b.drop_last();
        lemma_answer_joins_all_pieces(a, b0);
        assert((a + b).drop_last() =~= a + b0);
        assert((a + b).last() == b.last());
        assert(concat_view(a) + concat_view(b0) + b.last()@ =~= concat_view(a) + (concat_view(b0)
            + b.last()@));
    }
}

/// Receiving one more piece appends exactly its text to the answer, and the
/// answer is as long as all pieces together.
pub proof fn lemma_answer_grows_by_each_piece(s: Seq<String>, p: String)
    ensures
        concat_view(s.push(p)) == concat_view(s) + p@,
        concat_view(s.push(p)).len() == concat_view(s).len() + p@.len(),
{
    assert(s.push(p).drop_last() =~= s);
}

/// The time placed in the prompt is what `chrono` writes in `TIME_FORMAT` for
/// the very instant and offset given (nothing where it cannot write them); a
/// prompt that is just the placeholder becomes that text itself.
pub proof fn lemma_stamp_is_the_given_reading(secs: i64, nanos: u32, offset_secs: i32)
    ensures
        time_text_view(TIME_FORMAT@, secs, nanos, offset_secs) matches Some(t) ==> stamp_view(
            secs,
            nanos,
            offset_secs,
        ) == t,
        time_text_view(TIME_FORMAT@, secs, nanos, offset_secs) is None ==> stamp_view(
            secs,
            nanos,
            offset_secs,
        ) == Seq::<char>::empty(),
        replace_view(TIME_PLACEHOLDER@, TIME_PLACEHOLDER@, stamp_view(secs, nanos, offset_secs))
            == stamp_view(secs, nanos, offset_secs),
{
    reveal_strlit("{current_time}");
    let p = TIME_PLACEHOLDER@;
    let t = stamp_view(secs, nanos, offset_secs);
    assert(p.take(p.len() as int) =~= p);
    assert(p.skip(p.len() as int) =~= Seq::<char>::empty());
    assert(has_prefix(p, p));
    assert(replace_view(Seq::<char>::empty(), p, t) == Seq::<char>::empty());
    assert(replace_view(p, p, t) == t + replace_view(p.skip(p.len() as int), p, t));
    assert(t + Seq::<char>::empty() =~= t);
}

} // verus!
