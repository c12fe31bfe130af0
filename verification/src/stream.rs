//! Decoding of a streamed (server-sent events) answer: bytes arrive in chunks,
//! each `data: ` line holds one JSON event, and the answer is the concatenation
//! of the events' pieces.

use vstd::prelude::*;
use vstd::string::*;
use vstd::utf8::{decode_utf8, encode_utf8, valid_utf8};
use crate::chat::ChatResponse;
use crate::error::AISearchError;
use crate::text::{
    chars_of, decimal_string, decimal_view, has_prefix, starts_with_at, string_from_chars,
    trim_bounds, trim_view,
};

verus! {

broadcast use vstd::string::group_string_axioms;

/// The most bytes of text a stream may hold at once.
pub const MAX_BUFFER_SIZE: usize = 10 * 1024 * 1024;

/// The prefix of an event line.
pub const DATA_PREFIX: &'static str = "data: ";

/// The event that ends a stream.
pub const DONE_MARKER: &'static str = "[DONE]";

/// What `String::from_utf8_lossy` makes of `bytes`: the text they encode, with
/// each invalid sequence replaced by U+FFFD.
pub uninterp spec fn utf8_lossy_view(bytes: Seq<u8>) -> Seq<char>;

/// Calls `String::from_utf8_lossy`; claims that the result is `utf8_lossy_view`
/// of the bytes, and the decoded text itself where the bytes are valid UTF-8.
#[verifier::external_body]
fn utf8_lossy(bytes: &[u8]) -> (res: String)
    ensures
        res@ == utf8_lossy_view(bytes@),
        byte_len(res@) <= usize::MAX,
        valid_utf8(bytes@) ==> res@ == decode_utf8(bytes@),
{
    String::from_utf8_lossy(bytes).into_owned()
}

/// The event a line carries: the text after `data: `, unless that text is the
/// end marker (white space around it aside).
pub open spec fn line_event(line: Seq<char>) -> Option<Seq<char>> {
    if has_prefix(line, DATA_PREFIX@) && trim_view(line.skip(6)) != DONE_MARKER@ {
        Some(line.skip(6))
    } else {
        None
    }
}

/// A completed line without the `\r` of a `\r\n` ending.
pub open spec fn without_cr(line: Seq<char>) -> Seq<char> {
    if line.len() > 0 && line.last() == '\r' {
        line.drop_last()
    } else {
        line
    }
}

/// The events of a line in a list: none or one.
pub open spec fn events_of_line(line: Seq<char>) -> Seq<Seq<char>> {
    match line_event(line) {
        Some(e) => seq![e],
        None => Seq::empty(),
    }
}

/// The events carried by the lines of `rest`, where `line` is the part of the
/// current line that precedes `rest`. Lines end at `\n` (dropping a `\r` just
/// before it); the last line need not be ended and keeps its characters.
pub open spec fn events_from(rest: Seq<char>, line: Seq<char>) -> Seq<Seq<char>>
    decreases rest.len(),
{
    if rest.len() == 0 {
        if line.len() == 0 {
            Seq::empty()
        } else {
            events_of_line(line)
        }
    } else if rest[0] == '\n' {
        events_of_line(without_cr(line)) + events_from(rest.drop_first(), Seq::empty())
    } else {
        events_from(rest.drop_first(), line.push(rest[0]))
    }
}

/// The events carried by the lines of `text`, in order.
pub open spec fn events_view(text: Seq<char>) -> Seq<Seq<char>> {
    events_from(text, Seq::empty())
}

/// The text after the last `\n` of `text`; all of `text` where it has none.
pub open spec fn after_last_newline(text: Seq<char>) -> Seq<char>
    decreases text.len(),
{
    if text.len() == 0 || text.last() == '\n' {
        Seq::empty()
    } else {
        after_last_newline(text.drop_last()).push(text.last())
    }
}

/// The concatenation of `pieces`.
pub open spec fn concat_view(pieces: Seq<String>) -> Seq<char>
    decreases pieces.len(),
{
    if pieces.len() == 0 {
        Seq::empty()
    } else {
        concat_view(pieces.drop_last()) + pieces.last()@
    }
}

/// The number of bytes of the UTF-8 encoding of `text`.
pub open spec fn byte_len(text: Seq<char>) -> nat {
    encode_utf8(text).len()
}

/// The bytes of two texts together are the bytes of each, in order.
pub proof fn lemma_byte_len_concat(a: Seq<char>, b: Seq<char>)
    ensures
        encode_utf8(a + b) == encode_utf8(a) + encode_utf8(b),
        byte_len(a + b) == byte_len(a) + byte_len(b),
    decreases a.len(),
{
    if a.len() == 0 {
        assert(a + b =~= b);
        assert(encode_utf8(a) =~= Seq::<u8>::empty());
        assert(Seq::<u8>::empty() + encode_utf8(b) =~= encode_utf8(b));
    } else {
        assert((a + b).drop_first() =~= a.drop_first() + b);
        assert((a + b)[0] == a[0]);
        lemma_byte_len_concat(a.drop_first(), b);
    }
}

/// The text after the last line break is the end of the text.
proof fn lemma_after_last_newline_suffix(text: Seq<char>)
    ensures
        after_last_newline(text).len() <= text.len(),
        text == text.take(text.len() - after_last_newline(text).len()) + after_last_newline(text),
    decreases text.len(),
{
    if text.len() == 0 || text.last() == '\n' {
        assert(text.take(text.len() as int) + Seq::<char>::empty() =~= text);
    } else {
        let t = text.drop_last();
        lemma_after_last_newline_suffix(t);
        let r = after_last_newline(t);
        assert(text.take(text.len() - (r.len() + 1)) =~= t.take(t.len() - r.len()));
        let p = t.take(t.len() - r.len());
        assert(text =~= t.push(text.last()));
        assert((p + r).push(text.last()) =~= p + r.push(text.last()));
    }
}

/// The decoder of one streamed answer.
pub struct StreamDecoder {
    buffer: String,
    pieces: Vec<String>,
}

/// The event of line `v[start..end]`, where `v[end]` ends the line or `end` is
/// the end of the text.
fn event_of_line(v: &Vec<char>, start: usize, end: usize) -> (res: Option<String>)
    requires
        start <= end <= v.len(),
    ensures
        match line_event(v@.subrange(start as int, end as int)) {
            Some(e) => res matches Some(s) && s@ == e,
            None => res is None,
        },
{
    let prefix = chars_of(DATA_PREFIX);
    proof {
        reveal_strlit("data: ");
        reveal_strlit("[DONE]");
    }
    if !starts_with_at(v, start, end, &prefix) {
        return None;
    }
    let ghost line = v@.subrange(start as int, end as int);
    assert(line.skip(6) == v@.subrange(start + 6, end as int));
    let (a, b) = trim_bounds(v, start + 6, end);
    let done = chars_of(DONE_MARKER);
    let is_done = b - a == done.len() && starts_with_at(v, a, b, &done);
    assert(is_done == (v@.subrange(a as int, b as int) == done@)) by {
        if b - a == done.len() && v@.subrange(a as int, b as int) == done@ {
            assert(v@.subrange(a as int, b as int).take(done@.len() as int) == v@.subrange(
                a as int,
                b as int,
            ));
        }
        if is_done {
            assert(v@.subrange(a as int, b as int) =~= v@.subrange(a as int, b as int).take(
                done@.len() as int,
            ));
        }
    }
    if is_done {
        None
    } else {
        Some(string_from_chars(v, start + 6, end))
    }
}

impl StreamDecoder {
    /// The decoder never holds more unfinished text than it accepts.
    #[verifier::type_invariant]
    closed spec fn inv(self) -> bool {
        byte_len(self.buffer@) <= MAX_BUFFER_SIZE
    }

    /// Text received but not yet ended by a line break.
    pub closed spec fn pending(self) -> Seq<char> {
        self.buffer@
    }

    /// The pieces of the answer received so far, in order.
    pub closed spec fn received(self) -> Seq<String> {
        self.pieces@
    }

    /// A decoder that has received nothing.
    pub fn new() -> (res: StreamDecoder)
        ensures
            res.pending() == Seq::<char>::empty(),
            res.received() == Seq::<String>::empty(),
    {
        assert(byte_len(Seq::<char>::empty()) == 0);
        StreamDecoder { buffer: String::new(), pieces: Vec::new() }
    }

    /// Takes the next chunk of bytes. Fails where the unfinished text and the
    /// chunk's text together would exceed `MAX_BUFFER_SIZE` bytes. Otherwise
    /// returns the events of every line of the unfinished text followed by the
    /// chunk's text, the unfinished last line included, and keeps the text after
    /// the last line break for the next chunk.
    pub fn feed(&mut self, chunk: &[u8]) -> (res: Result<Vec<String>, AISearchError>)
        ensures
            final(self).received() == old(self).received(),
            byte_len(final(self).pending()) <= MAX_BUFFER_SIZE,
            ({
                let text = old(self).pending() + utf8_lossy_view(chunk@);
                if byte_len(old(self).pending()) + byte_len(utf8_lossy_view(chunk@))
                    > MAX_BUFFER_SIZE {
                    &&& res matches Err(AISearchError::Protocol(m)) && m@ == "响应过大，超过 "@
                        + decimal_view((MAX_BUFFER_SIZE / 1024 / 1024) as nat) + " MB 限制"@
                    &&& final(self).pending() == old(self).pending()
                } else {
                    &&& res matches Ok(events) && events@.map_values(|s: String| s@) == events_view(
                        text,
                    )
                    &&& final(self).pending() == after_last_newline(text)
                }
            }),
    {
        proof {
            use_type_invariant(&*self);
        }
        let new_text = utf8_lossy(chunk);
        let held = self.buffer.as_str().len();
        let arriving = new_text.as_str().len();
        if (held as u128) + (arriving as u128) > MAX_BUFFER_SIZE as u128 {
            let mut m = "响应过大，超过 ".to_owned();
            m.append(decimal_string((MAX_BUFFER_SIZE / 1024 / 1024) as u64).as_str());
            m.append(" MB 限制");
            return Err(AISearchError::Protocol(m));
        }
        let mut text = self.buffer.clone();
        text.append(new_text.as_str());
        let v = chars_of(text.as_str());
        let n = v.len();
        let mut events: Vec<String> = Vec::new();
        let mut start: usize = 0;
        let mut i: usize = 0;
        assert(v@.skip(0) == v@);
        assert(events@.map_values(|s: String| s@) =~= Seq::<Seq<char>>::empty());
        assert(v@.subrange(0, 0) =~= Seq::<char>::empty());
        assert(Seq::<Seq<char>>::empty() + events_view(v@) =~= events_view(v@));
        while i < n
            invariant
                n == v.len(),
                start <= i <= n,
                events_view(v@) == events@.map_values(|s: String| s@) + events_from(
                    v@.skip(i as int),
                    v@.subrange(start as int, i as int),
                ),
                after_last_newline(v@.take(i as int)) == v@.subrange(start as int, i as int),
            decreases n - i,
        {
            let ghost before = events@.map_values(|s: String| s@);
            let ghost rest = v@.skip(i as int);
            let ghost line = v@.subrange(start as int, i as int);
            assert(rest[0] == v@[i as int]);
            assert(v@.skip(i as int).drop_first() == v@.skip(i + 1));
            assert(v@.take(i + 1).drop_last() == v@.take(i as int));
            assert(v@.take(i + 1).last() == v@[i as int]);
            if v[i] == '\n' {
                let end: usize = if i > start && v[i - 1] == '\r' {
                    i - 1
                } else {
                    i
                };
                assert(v@.subrange(start as int, end as int) == without_cr(
                    v@.subrange(start as int, i as int),
                ));
                match event_of_line(&v, start, end) {
                    Some(e) => {
                        events.push(e);
                        assert(events@.map_values(|s: String| s@) =~= before + events_of_line(
                            v@.subrange(start as int, end as int),
                        ));
                    },
                    None => {
                        assert(events@.map_values(|s: String| s@) =~= before + events_of_line(
                            v@.subrange(start as int, end as int),
                        ));
                    },
                }
                assert(v@.subrange(i + 1, i + 1) =~= Seq::<char>::empty());
                assert(events_from(rest, line) == events_of_line(without_cr(line)) + events_from(
                    v@.skip(i + 1),
                    Seq::empty(),
                ));
                assert(before + (events_of_line(without_cr(line)) + events_from(
                    v@.skip(i + 1),
                    Seq::empty(),
                )) =~= (before + events_of_line(without_cr(line))) + events_from(
                    v@.skip(i + 1),
                    Seq::empty(),
                ));
                start = i + 1;
            } else {
                assert(v@.subrange(start as int, i as int).push(v@[i as int]) == v@.subrange(
                    start as int,
                    i + 1,
                ));
            }
            i = i + 1;
        }
        assert(v@.skip(n as int) =~= Seq::<char>::empty());
        assert(v@.take(n as int) == v@);
        if start < n {
            match event_of_line(&v, start, n) {
                Some(e) => {
                    let ghost before = events@.map_values(|s: String| s@);
                    events.push(e);
                    assert(events@.map_values(|s: String| s@) =~= before + events_of_line(
                        v@.subrange(start as int, n as int),
                    ));
                },
                None => {},
            }
        } else {
            assert(events@.map_values(|s: String| s@) + Seq::<Seq<char>>::empty() =~= events@.map_values(
                |s: String| s@,
            ));
        }
        let rest = string_from_chars(&v, start, n);
        proof {
            lemma_byte_len_concat(old(self).pending(), utf8_lossy_view(chunk@));
            lemma_after_last_newline_suffix(v@);
            lemma_byte_len_concat(
                v@.take(v@.len() - after_last_newline(v@).len()),
                after_last_newline(v@),
            );
        }
        self.buffer = rest;
        assert(v@ == old(self).pending() + utf8_lossy_view(chunk@));
        assert(events@.map_values(|s: String| s@) == events_view(v@));
        assert(self.buffer@ == after_last_newline(v@));
        assert(!(byte_len(old(self).pending()) + byte_len(utf8_lossy_view(chunk@)) > MAX_BUFFER_SIZE));
        Ok(events)
    }

    /// Takes one decoded event (`None` where its text was not a valid event) and
    /// keeps the first choice's piece of the answer, where it has one.
    pub fn accept_event(&mut self, event: Option<ChatResponse>)
        ensures
            final(self).pending() == old(self).pending(),
            match event {
                Some(r) => if r.choices@.len() > 0 && r.choices@[0].delta is Some
                    && r.choices@[0].delta->0.content is Some {
                    &&& final(self).received().len() == old(self).received().len() + 1
                    &&& final(self).received().drop_last() == old(self).received()
                    &&& final(self).received().last()@ == r.choices@[0].delta->0.content->0@
                } else {
                    final(self).received() == old(self).received()
                },
                None => final(self).received() == old(self).received(),
            },
    {
        proof {
            use_type_invariant(&*self);
        }
        match event {
            Some(r) => match r.first_delta_content() {
                Some(piece) => {
                    let mut pieces = Vec::new();
                    std::mem::swap(&mut pieces, &mut self.pieces);
                    pieces.push(piece);
                    self.pieces = pieces;
                },
                None => {},
            },
            None => {},
        }
    }

    /// The answer: the pieces received, concatenated in order.
    pub fn finish(&self) -> (res: String)
        ensures
            res@ == concat_view(self.received()),
    {
        let mut out = String::new();
        let mut i: usize = 0;
        while i < self.pieces.len()
            invariant
                i <= self.pieces.len(),
                out@ == concat_view(self.pieces@.take(i as int)),
            decreases self.pieces.len() - i,
        {
            out.append(self.pieces[i].as_str());
            assert(self.pieces@.take(i + 1).drop_last() == self.pieces@.take(i as int));
            i = i + 1;
        }
        assert(self.pieces@.take(self.pieces@.len() as int) == self.pieces@);
        out
    }
}

/// The text kept for the next chunk never holds a line break: every complete
/// line is handled when it arrives.
pub proof fn lemma_kept_text_has_no_line_break(text: Seq<char>)
    ensures
        !after_last_newline(text).contains('\n'),
    decreases text.len(),
{
    if text.len() > 0 && text.last() != '\n' {
        lemma_kept_text_has_no_line_break(text.drop_last());
        let r = after_last_newline(text.drop_last());
        assert forall|k: int| 0 <= k < r.push(text.last()).len() implies r.push(text.last())[k]
            != '\n' by {
            if k < r.len() {
                assert(r.push(text.last())[k] == r[k]);
            }
        }
    }
}

} // verus!
