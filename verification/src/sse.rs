//! Incremental parser for streaming chat responses.
//!
//! Two Server-Sent-Events wire formats are supported. The parser buffers
//! raw bytes as chunks arrive (a chunk boundary need not align with an
//! event boundary), cuts the buffer at each blank line into event
//! blocks, and extracts one text fragment from each `data: ` payload
//! that carries one. Malformed payloads are swallowed; an OpenAI-style
//! `[DONE]` payload ends the stream.
//!
//! What a JSON payload yields is a function of the payload bytes alone;
//! the extraction is done by serde_json behind named trusted wrappers,
//! and everything around it — buffering, block cutting, line cutting,
//! the `[DONE]` rule — is verified.

use vstd::prelude::*;

use crate::text::find_pair_from;
use crate::text::find_one_from;
use crate::text::lemma_find_pair_from_range;
use crate::text::lemma_find_one_from_range;
use crate::text::split_on_one_from;

verus! {

/// Which of the two SSE payload grammars the stream uses.
#[derive(Debug, Clone, Copy, PartialEq, Eq, Structural)]
pub enum WireFormat {
    /// `data: {"choices":[{"delta":{"content":...}}]}`, ended by `data: [DONE]`.
    OpenAi,
    /// `data: {"type":"content_block_delta","delta":{"text":...}}`.
    Anthropic,
}

/// The text fragment an OpenAI-style payload carries: the string at
/// `choices[0].delta.content`, or nothing when the payload is malformed
/// JSON or has another shape.
pub uninterp spec fn openai_delta_of(payload: Seq<u8>) -> Option<Seq<char>>;

/// The string at `type` in a JSON payload, or nothing when the payload
/// is malformed or `type` is missing or not a string.
pub uninterp spec fn json_type_of(payload: Seq<u8>) -> Option<Seq<char>>;

/// The string at `delta.text` in a JSON payload, or nothing when the
/// payload is malformed or has another shape.
pub uninterp spec fn anthropic_text_of(payload: Seq<u8>) -> Option<Seq<char>>;

/// Relies on serde_json: parses the payload and reads the string at
/// `choices[0].delta.content`; the result is a function of the payload
/// bytes alone.
#[verifier::external_body]
fn extract_openai_delta(data: &[u8]) -> (r: Option<String>)
    ensures
        (r is Some) == (openai_delta_of(data@) is Some),
        r matches Some(s) ==> openai_delta_of(data@) == Some(s@),
{
    let v: serde_json::Value = match serde_json::from_slice(data) {
        Ok(v) => v,
        Err(_) => return None,
    };
    Some(v.get("choices")?.get(0)?.get("delta")?.get("content")?.as_str()?.to_string())
}

/// Relies on serde_json: parses the payload and reads the string at
/// `type`; the result is a function of the payload bytes alone.
#[verifier::external_body]
fn extract_event_type(data: &[u8]) -> (r: Option<String>)
    ensures
        (r is Some) == (json_type_of(data@) is Some),
        r matches Some(s) ==> json_type_of(data@) == Some(s@),
{
    let v: serde_json::Value = match serde_json::from_slice(data) {
        Ok(v) => v,
        Err(_) => return None,
    };
    Some(v.get("type")?.as_str()?.to_string())
}

/// Relies on serde_json: parses the payload and reads the string at
/// `delta.text`; the result is a function of the payload bytes alone.
#[verifier::external_body]
fn extract_anthropic_text(data: &[u8]) -> (r: Option<String>)
    ensures
        (r is Some) == (anthropic_text_of(data@) is Some),
        r matches Some(s) ==> anthropic_text_of(data@) == Some(s@),
{
    let v: serde_json::Value = match serde_json::from_slice(data) {
        Ok(v) => v,
        Err(_) => return None,
    };
    Some(v.get("delta")?.get("text")?.as_str()?.to_string())
}

/// The fragment an Anthropic-style payload carries: `delta.text`, and
/// only when the event's `type` is `content_block_delta`.
pub open spec fn anthropic_delta_of(payload: Seq<u8>) -> Option<Seq<char>> {
    if json_type_of(payload) == Some("content_block_delta"@) {
        anthropic_text_of(payload)
    } else {
        None
    }
}

/// Extracts the fragment of one Anthropic-style payload.
pub fn parse_anthropic_delta(data: &[u8]) -> (r: Option<String>)
    ensures
        (r is Some) == (anthropic_delta_of(data@) is Some),
        r matches Some(s) ==> anthropic_delta_of(data@) == Some(s@),
{
    match extract_event_type(data) {
        Some(t) => {
            if crate::text::str_eq(t.as_str(), "content_block_delta") {
                extract_anthropic_text(data)
            } else {
                None
            }
        },
        None => None,
    }
}

/// The newline byte.
pub const NL: u8 = 10;

/// The bytes of `data: `, the line prefix that marks a payload.
pub open spec fn data_prefix() -> Seq<u8> {
    seq![100u8, 97u8, 116u8, 97u8, 58u8, 32u8]
}

/// The bytes of `[DONE]`, the OpenAI-style end-of-stream payload.
pub open spec fn done_marker() -> Seq<u8> {
    seq![91u8, 68u8, 79u8, 78u8, 69u8, 93u8]
}

/// ASCII whitespace, as trimmed around the `[DONE]` marker.
pub open spec fn ascii_ws(b: u8) -> bool {
    b == 32 || b == 9 || b == 10 || b == 13
}

/// Byte run with ASCII whitespace removed from the front.
pub open spec fn trim_bytes_front(s: Seq<u8>) -> Seq<u8>
    decreases s.len(),
{
    if s.len() > 0 && ascii_ws(s[0]) {
        trim_bytes_front(s.drop_first())
    } else {
        s
    }
}

/// Byte run with ASCII whitespace removed from the back.
pub open spec fn trim_bytes_back(s: Seq<u8>) -> Seq<u8>
    decreases s.len(),
{
    if s.len() > 0 && ascii_ws(s.last()) {
        trim_bytes_back(s.drop_last())
    } else {
        s
    }
}

/// Byte run with ASCII whitespace removed from both ends.
pub open spec fn trim_bytes(s: Seq<u8>) -> Seq<u8> {
    trim_bytes_back(trim_bytes_front(s))
}

/// What one line contributes: `Some(fragment)` for a payload carrying a
/// fragment, `None` otherwise; the second component is true when the
/// line is the OpenAI end-of-stream marker.
pub open spec fn line_step(format: WireFormat, line: Seq<u8>) -> (Option<Seq<char>>, bool) {
    if !data_prefix().is_prefix_of(line) {
        (None::<Seq<char>>, false)
    } else {
        let payload = line.skip(6);
        match format {
            WireFormat::OpenAi => {
                if trim_bytes(payload) == done_marker() {
                    (None::<Seq<char>>, true)
                } else {
                    (openai_delta_of(payload), false)
                }
            },
            WireFormat::Anthropic => (anthropic_delta_of(payload), false),
        }
    }
}

/// The fragments of a run of lines, in order, and whether the stream
/// ends within it. Lines after an end-of-stream marker contribute
/// nothing.
pub open spec fn lines_fragments(format: WireFormat, lines: Seq<Seq<u8>>) -> (
    Seq<Seq<char>>,
    bool,
)
    decreases lines.len(),
{
    if lines.len() == 0 {
        (Seq::<Seq<char>>::empty(), false)
    } else {
        let (frag, done) = line_step(format, lines[0]);
        if done {
            (Seq::<Seq<char>>::empty(), true)
        } else {
            let rest = lines_fragments(format, lines.drop_first());
            match frag {
                Some(f) => (seq![f] + rest.0, rest.1),
                None => rest,
            }
        }
    }
}

/// The fragments of one event block and whether the stream ends in it.
pub open spec fn block_step(format: WireFormat, block: Seq<u8>) -> (Seq<Seq<char>>, bool) {
    lines_fragments(format, split_on_one_from(block, NL, 0))
}

/// The fragments of every complete event block of `input`, in order,
/// and whether the stream has ended. Bytes after the last blank line
/// are an incomplete block and contribute nothing yet.
pub open spec fn stream_parse(format: WireFormat, input: Seq<u8>) -> (Seq<Seq<char>>, bool)
    decreases input.len(),
    via stream_parse_decreases
{
    let i = find_pair_from(input, NL, NL, 0);
    if i >= input.len() {
        (Seq::<Seq<char>>::empty(), false)
    } else {
        let (fs, done) = block_step(format, input.subrange(0, i));
        if done {
            (fs, true)
        } else {
            let rest = stream_parse(format, input.skip(i + 2));
            (fs + rest.0, rest.1)
        }
    }
}

#[via_fn]
proof fn stream_parse_decreases(format: WireFormat, input: Seq<u8>) {
    lemma_find_pair_from_range(input, NL, NL, 0);
}

/// The bytes of `input` not yet consumed as complete event blocks.
pub open spec fn stream_residue(format: WireFormat, input: Seq<u8>) -> Seq<u8>
    decreases input.len(),
    via stream_residue_decreases
{
    let i = find_pair_from(input, NL, NL, 0);
    if i >= input.len() {
        input
    } else {
        stream_residue(format, input.skip(i + 2))
    }
}

#[via_fn]
proof fn stream_residue_decreases(format: WireFormat, input: Seq<u8>) {
    lemma_find_pair_from_range(input, NL, NL, 0);
}

/// Stateful incremental parser over one streamed response body.
pub struct StreamParser {
    pub format: WireFormat,
    /// Bytes received but not yet consumed as complete event blocks.
    pub buf: Vec<u8>,
    /// Whether an end-of-stream marker has been seen.
    pub done: bool,
}

impl StreamParser {
    /// The buffer of an open parser never holds a complete event block.
    pub open spec fn wf(&self) -> bool {
        !self.done ==> find_pair_from(self.buf@, NL, NL, 0) >= self.buf@.len()
    }

    pub fn new(format: WireFormat) -> (r: Self)
        ensures
            r.wf(),
            r.format == format,
            r.buf@ =~= Seq::<u8>::empty(),
            !r.done,
    {
        Self { format, buf: Vec::new(), done: false }
    }

    /// Feeds one chunk of the response body and returns the fragments it
    /// completes, in order. The fragments and the end-of-stream flag are
    /// exactly those of the bytes buffered so far plus this chunk; once
    /// the stream has ended, further chunks yield nothing.
    #[verifier::loop_isolation(false)]
    pub fn feed(&mut self, chunk: &[u8]) -> (r: Vec<String>)
        requires
            old(self).wf(),
        ensures
            final(self).wf(),
            final(self).format == old(self).format,
            old(self).done ==> final(self).done && r@.len() == 0,
            !old(self).done ==> {
                let input = old(self).buf@ + chunk@;
                let parsed = stream_parse(old(self).format, input);
                &&& crate::text::string_views(r@) =~= parsed.0
                &&& final(self).done == parsed.1
                &&& !parsed.1 ==> final(self).buf@ =~= stream_residue(old(self).format, input)
            },
    {
        let mut out: Vec<String> = Vec::new();
        if self.done {
            return out;
        }
        let ghost input = self.buf@ + chunk@;
        append_slice(&mut self.buf, chunk);

        loop
            invariant
                self.format == old(self).format,
                !self.done,
                stream_parse(self.format, input).0 =~= crate::text::string_views(out@)
                    + stream_parse(self.format, self.buf@).0,
                stream_parse(self.format, input).1 == stream_parse(self.format, self.buf@).1,
                stream_residue(self.format, input) =~= stream_residue(self.format, self.buf@),
            decreases self.buf@.len(),
        {
            let n = self.buf.len();
            let i = match find_blank_line(&self.buf) {
                Some(i) => i,
                None => {
                    break;
                },
            };
            let ghost pre = self.buf@;
            let block = take_front(&mut self.buf, i);
            proof {
                assert(block@ =~= pre.subrange(0, i as int));
                assert(self.buf@ =~= pre.skip(i + 2));
            }
            let (frags, block_done) = process_block(self.format, &block);
            let ghost pre_out = out@;
            let ghost new_frags = frags@;
            append_strings(&mut out, frags);
            proof {
                assert(out@ =~= pre_out + new_frags);
                assert(crate::text::string_views(pre_out + new_frags) =~= crate::text::string_views(
                    pre_out,
                ) + crate::text::string_views(new_frags));
            }
            if block_done {
                self.done = true;
                self.buf.clear();
                return out;
            }
        }
        out
    }
}

/// Law: chunk boundaries do not matter. Parsing a stream extended by
/// more bytes yields the fragments already parsed, followed by exactly
/// the fragments of the unconsumed residue with the new bytes appended —
/// so a stream delivered in any chunking yields the same fragment
/// sequence as the same bytes delivered whole.
pub proof fn lemma_chunk_boundary_invariance(format: WireFormat, h: Seq<u8>, c: Seq<u8>)
    requires
        !stream_parse(format, h).1,
    ensures
        stream_parse(format, h + c).0 =~= stream_parse(format, h).0 + stream_parse(
            format,
            stream_residue(format, h) + c,
        ).0,
        stream_parse(format, h + c).1 == stream_parse(format, stream_residue(format, h) + c).1,
        stream_residue(format, h + c) =~= stream_residue(
            format,
            stream_residue(format, h) + c,
        ),
    decreases h.len(),
{
    lemma_find_pair_from_range(h, NL, NL, 0);
    let i = find_pair_from(h, NL, NL, 0);
    if i >= h.len() {
        assert(stream_residue(format, h) =~= h);
        assert(stream_residue(format, h) + c =~= h + c);
        assert(stream_parse(format, h).0 =~= Seq::<Seq<char>>::empty());
    } else {
        lemma_find_pair_prefix(h, c, NL, NL, 0);
        assert((h + c).subrange(0, i) =~= h.subrange(0, i));
        assert((h + c).skip(i + 2) =~= h.skip(i + 2) + c);
        lemma_chunk_boundary_invariance(format, h.skip(i + 2), c);
        assert(stream_residue(format, h) =~= stream_residue(format, h.skip(i + 2)));
    }
}

/// A pair found within a sequence is found at the same place in any
/// extension of it.
proof fn lemma_find_pair_prefix<T>(h: Seq<T>, c: Seq<T>, a: T, b: T, j: int)
    requires
        0 <= j <= h.len(),
        find_pair_from(h, a, b, j) < h.len(),
    ensures
        find_pair_from(h + c, a, b, j) == find_pair_from(h, a, b, j),
    decreases h.len() - j,
{
    lemma_find_pair_from_range(h, a, b, j);
    if j + 1 < h.len() && !(h[j] == a && h[j + 1] == b) {
        lemma_find_pair_prefix(h, c, a, b, j + 1);
    }
}

/// Appends a byte slice to a vector.
fn append_slice(v: &mut Vec<u8>, s: &[u8])
    ensures
        final(v)@ =~= old(v)@ + s@,
{
    let n = s.len();
    let mut i: usize = 0;
    while i < n
        invariant
            0 <= i <= n,
            n == s@.len(),
            v@ =~= old(v)@ + s@.take(i as int),
        decreases n - i,
    {
        v.push(s[i]);
        proof {
            assert(old(v)@ + s@.take(i as int) + seq![s@[i as int]] =~= old(v)@ + s@.take(
                i + 1,
            ));
        }
        i = i + 1;
    }
    proof {
        assert(s@.take(n as int) =~= s@);
    }
}

/// Moves every element of `extra` to the end of `v`, keeping order.
fn append_strings(v: &mut Vec<String>, extra: Vec<String>)
    ensures
        final(v)@ =~= old(v)@ + extra@,
{
    let ghost src = extra@;
    let mut rest = extra;
    while rest.len() > 0
        invariant
            v@ + rest@ =~= old(v)@ + src,
        decreases rest@.len(),
    {
        let ghost pre_v = v@;
        let ghost pre_e = rest@;
        let s = rest.remove(0);
        v.push(s);
        proof {
            assert(pre_e.drop_first() =~= pre_e.remove(0));
            assert(v@ + rest@ =~= pre_v + pre_e);
        }
    }
    proof {
        assert(v@ =~= v@ + rest@);
    }
}

/// Finds the first blank line: the index of the first `\n\n` pair.
fn find_blank_line(v: &Vec<u8>) -> (r: Option<usize>)
    ensures
        r matches Some(i) ==> i == find_pair_from(v@, NL, NL, 0) && i + 1 < v@.len(),
        r is None ==> find_pair_from(v@, NL, NL, 0) >= v@.len(),
{
    let n = v.len();
    if n < 2 {
        return None;
    }
    let mut i: usize = 0;
    while i < n - 1
        invariant
            2 <= n == v@.len(),
            0 <= i <= n,
            find_pair_from(v@, NL, NL, 0) == find_pair_from(v@, NL, NL, i as int),
        decreases n - i,
    {
        if v[i] == NL && v[i + 1] == NL {
            return Some(i);
        }
        i = i + 1;
    }
    None
}

/// Removes and returns the first `i` bytes of `v`, also dropping the two
/// delimiter bytes that follow them.
fn take_front(v: &mut Vec<u8>, i: usize) -> (r: Vec<u8>)
    requires
        i + 2 <= old(v)@.len(),
    ensures
        r@ =~= old(v)@.subrange(0, i as int),
        final(v)@ =~= old(v)@.skip(i + 2),
{
    let mut front: Vec<u8> = Vec::new();
    let mut k: usize = 0;
    while k < i
        invariant
            0 <= k <= i,
            i + 2 <= v@.len(),
            v@ == old(v)@,
            front@ =~= v@.subrange(0, k as int),
        decreases i - k,
    {
        front.push(v[k]);
        proof {
            assert(v@.subrange(0, k as int) + seq![v@[k as int]] =~= v@.subrange(0, k + 1));
        }
        k = k + 1;
    }
    let n = v.len();
    let mut rest: Vec<u8> = Vec::new();
    let mut q: usize = i + 2;
    while q < n
        invariant
            i + 2 <= q <= n,
            n == v@.len(),
            v@ == old(v)@,
            rest@ =~= v@.subrange(i + 2, q as int),
        decreases n - q,
    {
        rest.push(v[q]);
        proof {
            assert(v@.subrange(i + 2, q as int) + seq![v@[q as int]] =~= v@.subrange(
                i + 2,
                q + 1,
            ));
        }
        q = q + 1;
    }
    *v = rest;
    front
}

/// Whether `line` starts with the `data: ` prefix.
fn has_data_prefix(line: &[u8]) -> (r: bool)
    ensures
        r == data_prefix().is_prefix_of(line@),
{
    if line.len() < 6 {
        proof {
            assert(!data_prefix().is_prefix_of(line@));
        }
        return false;
    }
    let r = line[0] == 100 && line[1] == 97 && line[2] == 116 && line[3] == 97 && line[4] == 58
        && line[5] == 32;
    proof {
        if r {
            assert(line@.subrange(0, 6) =~= data_prefix());
        } else {
            if data_prefix().is_prefix_of(line@) {
                assert(forall|k: int|
                    0 <= k < 6 ==> line@[k] == #[trigger] data_prefix()[k]) by {
                    assert(forall|k: int|
                        0 <= k < 6 ==> #[trigger] line@.subrange(0, 6)[k] == line@[k]);
                }
            }
        }
    }
    r
}

/// Whether the payload, with surrounding ASCII whitespace trimmed, is
/// the `[DONE]` marker.
fn is_done_marker(payload: &[u8]) -> (r: bool)
    ensures
        r == (trim_bytes(payload@) == done_marker()),
{
    let n = payload.len();
    let mut a: usize = 0;
    while a < n && (payload[a] == 32 || payload[a] == 9 || payload[a] == 10 || payload[a] == 13)
        invariant
            0 <= a <= n,
            n == payload@.len(),
            forall|k: int| 0 <= k < a ==> ascii_ws(payload@[k]),
        decreases n - a,
    {
        a = a + 1;
    }
    let mut b: usize = n;
    while b > a && (payload[b - 1] == 32 || payload[b - 1] == 9 || payload[b - 1] == 10
        || payload[b - 1] == 13)
        invariant
            a <= b <= n,
            n == payload@.len(),
            forall|k: int| 0 <= k < a ==> ascii_ws(payload@[k]),
            a < n ==> !ascii_ws(payload@[a as int]),
            forall|k: int| b <= k < n ==> ascii_ws(payload@[k]),
        decreases b,
    {
        b = b - 1;
    }
    proof {
        lemma_trim_bytes_front_subrange(payload@, a as int);
        let f = payload@.subrange(a as int, n as int);
        if b > a {
            lemma_trim_bytes_back_subrange(f, b - a as int);
        } else {
            lemma_trim_bytes_back_subrange(f, 0);
        }
        assert(f.subrange(0, b - a as int) =~= payload@.subrange(a as int, b as int));
    }
    if b - a != 6 {
        proof {
            assert(trim_bytes(payload@).len() == b - a);
        }
        return false;
    }
    let r = payload[a] == 91 && payload[a + 1] == 68 && payload[a + 2] == 79 && payload[a + 3]
        == 78 && payload[a + 4] == 69 && payload[a + 5] == 93;
    proof {
        let t = trim_bytes(payload@);
        if r {
            assert(t =~= done_marker());
        } else {
            if t == done_marker() {
                assert(forall|k: int| 0 <= k < 6 ==> t[k] == payload@[a + k]);
            }
        }
    }
    r
}

/// Extracts the payload bytes of a line: everything after `data: `.
fn payload_of(line: &[u8]) -> (r: Vec<u8>)
    requires
        line@.len() >= 6,
    ensures
        r@ =~= line@.skip(6),
{
    let n = line.len();
    let mut out: Vec<u8> = Vec::new();
    let mut k: usize = 6;
    while k < n
        invariant
            6 <= k <= n,
            n == line@.len(),
            out@ =~= line@.subrange(6, k as int),
        decreases n - k,
    {
        out.push(line[k]);
        proof {
            assert(line@.subrange(6, k as int) + seq![line@[k as int]] =~= line@.subrange(
                6,
                k + 1,
            ));
        }
        k = k + 1;
    }
    out
}

proof fn lemma_trim_bytes_front_subrange(s: Seq<u8>, i: int)
    requires
        0 <= i <= s.len(),
        forall|k: int| 0 <= k < i ==> ascii_ws(s[k]),
        i < s.len() ==> !ascii_ws(s[i]),
    ensures
        trim_bytes_front(s) =~= s.subrange(i, s.len() as int),
    decreases i,
{
    if i == 0 {
        if s.len() > 0 && ascii_ws(s[0]) {
            assert(false);
        }
    } else {
        let t = s.drop_first();
        assert(forall|k: int| 0 <= k < i - 1 ==> ascii_ws(#[trigger] t[k]));
        lemma_trim_bytes_front_subrange(t, i - 1);
        assert(t.subrange(i - 1, t.len() as int) =~= s.subrange(i, s.len() as int));
    }
}

proof fn lemma_trim_bytes_back_subrange(s: Seq<u8>, j: int)
    requires
        0 <= j <= s.len(),
        forall|k: int| j <= k < s.len() ==> ascii_ws(s[k]),
        j > 0 ==> !ascii_ws(s[j - 1]),
    ensures
        trim_bytes_back(s) =~= s.subrange(0, j),
    decreases s.len() - j,
{
    if j == s.len() {
        if s.len() > 0 && ascii_ws(s.last()) {
            let t = s.drop_last();
            lemma_trim_bytes_back_subrange(t, j - 1);
            assert(t.subrange(0, j - 1) =~= s.subrange(0, j - 1));
        }
    } else {
        let t = s.drop_last();
        lemma_trim_bytes_back_subrange(t, j);
        assert(t.subrange(0, j) =~= s.subrange(0, j));
    }
}

/// Parses one event block: the fragments of its `data: ` lines, in
/// order, and whether it ends the stream.
#[verifier::loop_isolation(false)]
fn process_block(format: WireFormat, block: &Vec<u8>) -> (r: (Vec<String>, bool))
    ensures
        crate::text::string_views(r.0@) =~= block_step(format, block@).0,
        r.1 == block_step(format, block@).1,
{
    let mut out: Vec<String> = Vec::new();
    let n = block.len();
    let mut start: usize = 0;
    loop
        invariant
            0 <= start <= n,
            n == block@.len(),
            ({
                let whole = lines_fragments(format, split_on_one_from(block@, NL, 0));
                let rest = lines_fragments(format, split_on_one_from(block@, NL, start as int));
                &&& whole.0 =~= crate::text::string_views(out@) + rest.0
                &&& whole.1 == rest.1
            }),
        decreases n - start + 1,
    {
        proof {
            lemma_find_one_from_range(block@, NL, start as int);
        }
        // Locate the end of the current line.
        let mut e: usize = start;
        while e < n && block[e] != NL
            invariant
                start <= e <= n,
                find_one_from(block@, NL, start as int) == find_one_from(block@, NL, e as int),
            decreases n - e,
        {
            e = e + 1;
        }
        let ghost lines = split_on_one_from(block@, NL, start as int);
        let ghost line = block@.subrange(start as int, e as int);
        proof {
            assert(e < n ==> block@[e as int] == NL);
            assert(find_one_from(block@, NL, start as int) == e as int);
            if e < n {
                assert(lines =~= seq![line] + split_on_one_from(block@, NL, e + 1));
                assert(lines.drop_first() =~= split_on_one_from(block@, NL, e + 1));
            } else {
                assert(lines =~= seq![line]);
                assert(lines.drop_first() =~= split_on_one_from(block@, NL, n + 1));
                assert(split_on_one_from(block@, NL, n + 1) =~= Seq::<Seq<u8>>::empty());
            }
            assert(lines[0] == line);
        }
        // Extract this line's contribution.
        let ghost pre_out = out@;
        let line_vec = subrange_vec(block, start, e);
        let (frag, line_done) = line_contribution(format, line_vec.as_slice());
        let ghost step = line_step(format, line);
        if line_done {
            proof {
                assert(lines_fragments(format, lines).1 == true);
                assert(lines_fragments(format, lines).0 =~= Seq::<Seq<char>>::empty());
                assert(crate::text::string_views(out@) + Seq::<Seq<char>>::empty()
                    =~= crate::text::string_views(out@));
            }
            return (out, true);
        }
        match frag {
            Some(f) => {
                out.push(f);
                proof {
                    assert(crate::text::string_views(out@) =~= crate::text::string_views(
                        pre_out,
                    ).push(f@));
                    assert(step.0 == Some(f@));
                    assert(lines_fragments(format, lines).0 =~= seq![f@] + lines_fragments(
                        format,
                        lines.drop_first(),
                    ).0);
                    assert(crate::text::string_views(pre_out) + lines_fragments(format, lines).0
                        =~= crate::text::string_views(out@) + lines_fragments(
                        format,
                        lines.drop_first(),
                    ).0);
                }
            },
            None => {
                proof {
                    assert(step.0 is None);
                    assert(lines_fragments(format, lines).0 =~= lines_fragments(
                        format,
                        lines.drop_first(),
                    ).0);
                }
            },
        }
        proof {
            assert(lines_fragments(format, lines).1 == lines_fragments(
                format,
                lines.drop_first(),
            ).1);
        }
        if e >= n {
            proof {
                assert(lines.drop_first().len() == 0);
                assert(lines_fragments(format, lines.drop_first()).0 =~= Seq::<Seq<char>>::empty());
                assert(lines_fragments(format, lines.drop_first()).1 == false);
                assert(crate::text::string_views(out@) + Seq::<Seq<char>>::empty()
                    =~= crate::text::string_views(out@));
            }
            return (out, false);
        }
        start = e + 1;
    }
}

/// What one line contributes: its fragment, if any, and whether it is
/// the end-of-stream marker.
fn line_contribution(format: WireFormat, line: &[u8]) -> (r: (Option<String>, bool))
    ensures
        r.1 == line_step(format, line@).1,
        ((r.0) is Some) == (line_step(format, line@).0 is Some),
        r.0 matches Some(f) ==> line_step(format, line@).0 == Some(f@),
{
    if !has_data_prefix(line) {
        return (None, false);
    }
    let payload = payload_of(line);
    proof {
        assert(payload@ =~= line@.skip(6));
    }
    match format {
        WireFormat::OpenAi => {
            if is_done_marker(payload.as_slice()) {
                (None, true)
            } else {
                (extract_openai_delta(payload.as_slice()), false)
            }
        },
        WireFormat::Anthropic => (parse_anthropic_delta(payload.as_slice()), false),
    }
}

/// Copies `v[a..b]` into a fresh vector.
fn subrange_vec(v: &Vec<u8>, a: usize, b: usize) -> (r: Vec<u8>)
    requires
        a <= b <= v@.len(),
    ensures
        r@ =~= v@.subrange(a as int, b as int),
{
    let mut out: Vec<u8> = Vec::new();
    let mut k: usize = a;
    while k < b
        invariant
            a <= k <= b <= v@.len(),
            out@ =~= v@.subrange(a as int, k as int),
        decreases b - k,
    {
        out.push(v[k]);
        proof {
            assert(v@.subrange(a as int, k as int) + seq![v@[k as int]] =~= v@.subrange(
                a as int,
                k + 1,
            ));
        }
        k = k + 1;
    }
    out
}

} // verus!
