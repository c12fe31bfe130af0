//! Removal of a model's reasoning blocks (`<think>…</think>`,
//! `<thinking>…</thinking>`) from its answer.

use vstd::prelude::*;
use crate::text::{is_white_space_spec, lemma_trim_is_trimmed, trim, trim_view};

verus! {

/// The pattern of one reasoning block, across lines, shortest match first.
pub const THINKING_PATTERN: &'static str = "(?s)<think(?:ing)?>.*?</think(?:ing)?>";

/// The pattern of a run of blank lines.
pub const BLANK_LINES_PATTERN: &'static str = "\\n\\s*\\n";

/// What a run of blank lines is collapsed to.
pub const PARAGRAPH_BREAK: &'static str = "\n\n";

/// What `regex::Regex::new(pattern)` followed by `replace_all(text, replacement)`
/// returns; `None` where the pattern does not compile.
pub uninterp spec fn regex_replace_all_view(
    pattern: Seq<char>,
    text: Seq<char>,
    replacement: Seq<char>,
) -> Option<Seq<char>>;

/// Compiles `pattern` with `regex::Regex::new` and, where it compiles, returns
/// what `Regex::replace_all` makes of `text` with `replacement`. Claims that the
/// result is `regex_replace_all_view` of the three arguments.
#[verifier::external_body]
fn regex_replace_all(pattern: &str, text: &str, replacement: &str) -> (res: Option<String>)
    ensures
        match regex_replace_all_view(pattern@, text@, replacement@) {
            Some(r) => res matches Some(x) && x@ == r,
            None => res is None,
        },
{
    match regex::Regex::new(pattern) {
        Ok(re) => Some(re.replace_all(text, replacement).into_owned()),
        Err(_) => None,
    }
}

/// One replacement step; a pattern that does not compile leaves the text as it was.
pub open spec fn replaced_or_kept(pattern: Seq<char>, text: Seq<char>, replacement: Seq<char>) -> Seq<
    char,
> {
    match regex_replace_all_view(pattern, text, replacement) {
        Some(r) => r,
        None => text,
    }
}

/// `content` with every reasoning block removed, every run of blank lines
/// collapsed to one empty line, and the ends trimmed.
pub open spec fn thinking_filtered_view(content: Seq<char>) -> Seq<char> {
    let without_blocks = replaced_or_kept(THINKING_PATTERN@, content, ""@);
    let collapsed = replaced_or_kept(BLANK_LINES_PATTERN@, without_blocks, PARAGRAPH_BREAK@);
    trim_view(collapsed)
}

fn replace_or_keep(pattern: &str, text: String, replacement: &str) -> (res: String)
    ensures
        res@ == replaced_or_kept(pattern@, text@, replacement@),
{
    match regex_replace_all(pattern, text.as_str(), replacement) {
        Some(r) => r,
        None => text,
    }
}

/// Removes the reasoning blocks from a model's answer, collapses runs of blank
/// lines and trims the result.
pub fn filter_thinking_content(content: &str) -> (res: String)
    ensures
        res@ == thinking_filtered_view(content@),
{
    let without_blocks = replace_or_keep(THINKING_PATTERN, content.to_owned(), "");
    let collapsed = replace_or_keep(BLANK_LINES_PATTERN, without_blocks, PARAGRAPH_BREAK);
    trim(collapsed.as_str())
}

/// A filtered answer neither begins nor ends with white space, and trimming it
/// changes nothing.
pub proof fn lemma_filtered_is_trimmed(content: Seq<char>)
    ensures
        thinking_filtered_view(content).len() == 0 || (!is_white_space_spec(
            thinking_filtered_view(content)[0],
        ) && !is_white_space_spec(thinking_filtered_view(content).last())),
        trim_view(thinking_filtered_view(content)) == thinking_filtered_view(content),
{
    let without_blocks = replaced_or_kept(THINKING_PATTERN@, content, ""@);
    let collapsed = replaced_or_kept(BLANK_LINES_PATTERN@, without_blocks, PARAGRAPH_BREAK@);
    lemma_trim_is_trimmed(collapsed);
}

/// Where neither replacement changes a text (each gives the text back) and the
/// text is already trimmed, the filter leaves it as it is.
pub proof fn lemma_filter_keeps_text_that_neither_pattern_changes(content: Seq<char>)
    ensures
        (regex_replace_all_view(THINKING_PATTERN@, content, ""@) == Some(content)
            && regex_replace_all_view(BLANK_LINES_PATTERN@, content, PARAGRAPH_BREAK@) == Some(
            content,
        ) && trim_view(content) == content) ==> thinking_filtered_view(content) == content,
{
}

} // verus!
