//! Learning-history records and word tokenisation.
//!
//! The row types mirror what the metadata store hands back; the
//! tokeniser splits query text into words for frequency counting.

use vstd::prelude::*;

use crate::text::alnum_char;
use crate::text::char_is_alphanumeric;
use crate::text::lower_of;
use crate::text::string_views;
use crate::text::to_lowercase;

verus! {

/// A saved text-analysis query.
#[derive(Debug, Clone)]
pub struct QueryRow {
    pub id: String,
    pub input_text: String,
    pub source: String,
    pub detected_language: Option<String>,
    pub analysis_result: String,
    pub created_at: String,
}

/// A saved podcast-generation record.
#[derive(Debug, Clone)]
pub struct PodcastRow {
    pub id: String,
    pub input_content: String,
    pub source: String,
    pub speed_mode: String,
    pub podcast_mode: String,
    pub audio_file_path: String,
    pub duration_seconds: Option<i64>,
    pub created_at: String,
}

/// A word-frequency counter row.
#[derive(Debug, Clone)]
pub struct WordFreqRow {
    pub word: String,
    pub language: String,
    pub count: i64,
    pub last_queried_at: String,
}

/// What a caller hands over to save one query.
#[derive(Debug, Clone)]
pub struct SaveQueryInput {
    pub input_text: String,
    pub source: String,
    pub detected_language: Option<String>,
    pub analysis_result: String,
}

/// What a caller hands over to save one podcast record.
#[derive(Debug, Clone)]
pub struct SavePodcastInput {
    pub input_content: String,
    pub source: String,
    pub speed_mode: String,
    pub podcast_mode: String,
    pub audio_file_path: String,
    pub duration_seconds: Option<i64>,
}

// ── Tokenisation ─────────────────────────────────────────────────

/// Whether a character belongs to a CJK block the tokeniser treats as a
/// word on its own: the unified ideographs and extension A, CJK symbols
/// and punctuation, the kana blocks, and Hangul syllables.
pub open spec fn is_cjk_spec(c: char) -> bool {
    ||| 0x4E00 <= c as u32 <= 0x9FFF
    ||| 0x3400 <= c as u32 <= 0x4DBF
    ||| 0x3000 <= c as u32 <= 0x303F
    ||| 0x3040 <= c as u32 <= 0x309F
    ||| 0x30A0 <= c as u32 <= 0x30FF
    ||| 0xAC00 <= c as u32 <= 0xD7AF
}

/// Whether a CJK block claims the character as a one-character word.
pub fn is_cjk(c: char) -> (r: bool)
    ensures
        r == is_cjk_spec(c),
{
    let u = c as u32;
    (0x4E00 <= u && u <= 0x9FFF) || (0x3400 <= u && u <= 0x4DBF) || (0x3000 <= u && u <= 0x303F)
        || (0x3040 <= u && u <= 0x309F) || (0x30A0 <= u && u <= 0x30FF) || (0xAC00 <= u && u
        <= 0xD7AF)
}

/// A character that extends the current word: alphanumeric, apostrophe
/// or hyphen.
pub open spec fn is_token_char(c: char) -> bool {
    alnum_char(c) || c == '\'' || c == '-'
}

/// The raw words of `s`, given a current partially accumulated word:
/// token characters extend it, a CJK character flushes it and stands
/// alone, anything else flushes it.
pub open spec fn raw_tokens(s: Seq<char>, cur: Seq<char>) -> Seq<Seq<char>>
    decreases s.len(),
{
    if s.len() == 0 {
        if cur.len() > 0 {
            seq![cur]
        } else {
            Seq::<Seq<char>>::empty()
        }
    } else {
        let c = s[0];
        if is_cjk_spec(c) {
            (if cur.len() > 0 {
                seq![cur]
            } else {
                Seq::<Seq<char>>::empty()
            }) + seq![seq![c]] + raw_tokens(s.drop_first(), Seq::<char>::empty())
        } else if is_token_char(c) {
            raw_tokens(s.drop_first(), cur.push(c))
        } else {
            (if cur.len() > 0 {
                seq![cur]
            } else {
                Seq::<Seq<char>>::empty()
            }) + raw_tokens(s.drop_first(), Seq::<char>::empty())
        }
    }
}

/// Each raw word lowercased; empty results dropped.
pub open spec fn lowered_nonempty(ts: Seq<Seq<char>>) -> Seq<Seq<char>>
    decreases ts.len(),
{
    if ts.len() == 0 {
        Seq::<Seq<char>>::empty()
    } else {
        let rest = lowered_nonempty(ts.drop_last());
        let t = lower_of(ts.last());
        if t.len() > 0 {
            rest.push(t)
        } else {
            rest
        }
    }
}

/// The words of a text, for frequency counting.
pub open spec fn tokenize_spec(s: Seq<char>) -> Seq<Seq<char>> {
    lowered_nonempty(raw_tokens(s, Seq::<char>::empty()))
}

/// Splits text into lowercase words: runs of alphanumeric characters
/// (keeping apostrophes and hyphens), with each CJK character a word of
/// its own.
#[verifier::loop_isolation(false)]
pub fn tokenize(text: &str) -> (r: Vec<String>)
    ensures
        string_views(r@) =~= tokenize_spec(text@),
{
    let n = text.unicode_len();
    let mut raw: Vec<String> = Vec::new();
    let mut tok_start: usize = 0;
    let mut i: usize = 0;
    proof {
        assert(text@.skip(0) =~= text@);
        assert(text@.subrange(0, 0) =~= Seq::<char>::empty());
        assert(string_views(raw@) =~= Seq::<Seq<char>>::empty());
        assert(string_views(raw@) + raw_tokens(text@, Seq::<char>::empty()) =~= raw_tokens(
            text@,
            Seq::<char>::empty(),
        ));
    }
    while i < n
        invariant
            0 <= tok_start <= i <= n,
            raw_tokens(text@, Seq::<char>::empty()) =~= string_views(raw@) + raw_tokens(
                text@.skip(i as int),
                text@.subrange(tok_start as int, i as int),
            ),
        decreases n - i,
    {
        let c = text.get_char(i);
        let ghost rest = text@.skip(i as int);
        let ghost cur = text@.subrange(tok_start as int, i as int);
        proof {
            assert(rest[0] == c);
            assert(rest.drop_first() =~= text@.skip(i + 1));
        }
        if is_cjk(c) {
            let ghost pre = raw@;
            if i > tok_start {
                raw.push(text.substring_char(tok_start, i).to_owned());
            }
            let ghost mid = raw@;
            raw.push(text.substring_char(i, i + 1).to_owned());
            proof {
                assert(text@.subrange(i as int, i + 1) =~= seq![c]);
                if i > tok_start {
                    assert(string_views(mid) =~= string_views(pre).push(cur));
                }
                assert(string_views(raw@) =~= string_views(mid).push(seq![c]));
                assert(text@.subrange(i + 1, i + 1) =~= Seq::<char>::empty());
                if cur.len() > 0 {
                    assert(string_views(raw@) =~= string_views(pre) + seq![cur] + seq![seq![c]]);
                } else {
                    assert(string_views(raw@) =~= string_views(pre) + seq![seq![c]]);
                    assert(string_views(pre) + seq![seq![c]] =~= string_views(pre) + (
                    Seq::<Seq<char>>::empty() + seq![seq![c]]));
                }
            }
            tok_start = i + 1;
        } else if char_is_alphanumeric(c) || c == '\'' || c == '-' {
            proof {
                assert(cur.push(c) =~= text@.subrange(tok_start as int, i + 1));
            }
        } else {
            let ghost pre = raw@;
            if i > tok_start {
                raw.push(text.substring_char(tok_start, i).to_owned());
                proof {
                    assert(string_views(raw@) =~= string_views(pre).push(cur));
                    assert(string_views(pre).push(cur) =~= string_views(pre) + seq![cur]);
                }
            }
            proof {
                assert(text@.subrange(i + 1, i + 1) =~= Seq::<char>::empty());
            }
            tok_start = i + 1;
        }
        i = i + 1;
    }
    let ghost cur = text@.subrange(tok_start as int, n as int);
    proof {
        assert(text@.skip(n as int).len() == 0);
    }
    if tok_start < n {
        let ghost pre = raw@;
        raw.push(text.substring_char(tok_start, n).to_owned());
        proof {
            assert(string_views(raw@) =~= string_views(pre).push(cur));
            assert(string_views(pre).push(cur) =~= string_views(pre) + seq![cur]);
        }
    }
    proof {
        assert(string_views(raw@) =~= raw_tokens(text@, Seq::<char>::empty()));
    }

    // Lowercase each word and drop any that fold to nothing.
    let m = raw.len();
    let mut out: Vec<String> = Vec::new();
    let mut k: usize = 0;
    while k < m
        invariant
            0 <= k <= m,
            string_views(out@) =~= lowered_nonempty(string_views(raw@).take(k as int)),
        decreases m - k,
    {
        let ghost pre_take = string_views(raw@).take(k as int);
        let ghost now_take = string_views(raw@).take(k + 1);
        proof {
            assert(now_take.drop_last() =~= pre_take);
            assert(now_take.last() == raw@[k as int]@);
        }
        let t = to_lowercase(raw[k].as_str());
        if t.as_str().unicode_len() > 0 {
            let ghost pre_out = out@;
            out.push(t);
            proof {
                assert(string_views(out@) =~= string_views(pre_out).push(
                    lower_of(raw@[k as int]@),
                ));
            }
        }
        k = k + 1;
    }
    proof {
        assert(string_views(raw@).take(m as int) =~= string_views(raw@));
    }
    out
}

} // verus!
