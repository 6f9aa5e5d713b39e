//! Post-processing of OCR text: the completion prompt sent to the
//! model and the parser for its tagged response. Screen capture and the
//! OCR itself are platform collaborators outside this library.

use vstd::prelude::*;

use crate::chat::Message;
use crate::text::nonblank_trimmed;
use crate::text::split_char;
use crate::text::split_on_one;
use crate::text::str_eq;
use crate::text::str_starts_with;
use crate::text::string_views;
use crate::text::trim_spec;
use crate::text::trim_to_string;
use crate::text::trim_nonblank;

verus! {

broadcast use vstd::string::group_string_axioms;

/// One chunk of the capture stream handed to the event sink.
#[derive(Debug, Clone)]
pub struct VisionCaptureChunk {
    pub chunk_type: String,
    pub content: Option<String>,
    pub is_ai_inferred: Option<bool>,
}

/// The system instruction of the OCR completion prompt.
pub open spec fn ocr_system_prompt_spec() -> Seq<char> {
    "You are an OCR post-processing assistant. The user will provide text recognized by OCR from a screenshot. Your job is to:\n\n1. Fix any obvious OCR errors (misrecognized characters, broken words)\n2. Infer and complete any truncated or partially visible text\n3. Preserve the original structure and formatting\n\nOutput your response in this exact format:\n[CORRECTED] The corrected/completed full text\n[INFERRED] A comma-separated list of phrases or words that you inferred or corrected (that were NOT in the original OCR output). If nothing was inferred, write \"none\".\n\nBe conservative — only infer content when you have high confidence."@
}

/// Builds the two-message conversation that asks the model to correct
/// and complete an OCR result.
pub fn build_ocr_completion_prompt(ocr_text: &str) -> (r: Vec<Message>)
    ensures
        r@.len() == 2,
        r@[0].role@ == "system"@,
        r@[0].content@ == ocr_system_prompt_spec(),
        r@[1].role@ == "user"@,
        r@[1].content@ == "OCR recognized text:\n"@ + ocr_text@,
{
    let mut user = String::new();
    user.append("OCR recognized text:\n");
    user.append(ocr_text);
    let mut messages: Vec<Message> = Vec::new();
    messages.push(
        Message {
            role: lit_string("system"),
            content: lit_string(
                "You are an OCR post-processing assistant. The user will provide text recognized by OCR from a screenshot. Your job is to:\n\n1. Fix any obvious OCR errors (misrecognized characters, broken words)\n2. Infer and complete any truncated or partially visible text\n3. Preserve the original structure and formatting\n\nOutput your response in this exact format:\n[CORRECTED] The corrected/completed full text\n[INFERRED] A comma-separated list of phrases or words that you inferred or corrected (that were NOT in the original OCR output). If nothing was inferred, write \"none\".\n\nBe conservative — only infer content when you have high confidence.",
            ),
        },
    );
    messages.push(Message { role: lit_string("user"), content: user });
    messages
}

// ── Completion-response parsing ──────────────────────────────────

/// The lines of a text, with one trailing newline not opening an extra
/// empty line.
pub open spec fn lines_of(s: Seq<char>) -> Seq<Seq<char>> {
    if s.len() == 0 {
        Seq::<Seq<char>>::empty()
    } else if s.last() == '\n' {
        split_on_one(s.drop_last(), '\n')
    } else {
        split_on_one(s, '\n')
    }
}

/// What the `[INFERRED]` tag's payload denotes: nothing for `none` or a
/// blank payload, else the comma-separated items, trimmed, with blanks
/// dropped.
pub open spec fn inferred_items(t: Seq<char>) -> Option<Seq<Seq<char>>> {
    if t != "none"@ && t.len() > 0 {
        Some(nonblank_trimmed(split_on_one(t, ',')))
    } else {
        None
    }
}

/// Folds the tagged response lines: a `[CORRECTED]` line starts the
/// corrected text, following untagged lines extend it, an `[INFERRED]`
/// line closes it and may set the inferred list.
pub open spec fn completion_fold(
    lines: Seq<Seq<char>>,
    corrected: Seq<char>,
    in_corrected: bool,
    inferred: Seq<Seq<char>>,
) -> (Seq<char>, Seq<Seq<char>>)
    decreases lines.len(),
{
    if lines.len() == 0 {
        (corrected, inferred)
    } else {
        let line = lines[0];
        let rest = lines.drop_first();
        if "[CORRECTED]"@.is_prefix_of(line) {
            completion_fold(rest, trim_spec(line.skip(11)), true, inferred)
        } else if "[INFERRED]"@.is_prefix_of(line) {
            let t = trim_spec(line.skip(10));
            let inf = match inferred_items(t) {
                Some(items) => items,
                None => inferred,
            };
            completion_fold(rest, corrected, false, inf)
        } else if in_corrected {
            let grown = if corrected.len() > 0 {
                corrected + seq!['\n'] + line
            } else {
                corrected + line
            };
            completion_fold(rest, grown, true, inferred)
        } else {
            completion_fold(rest, corrected, in_corrected, inferred)
        }
    }
}

/// What `parse_completion_response` returns: the folded corrected text
/// (the whole response when no corrected text was found) and the
/// inferred items.
pub open spec fn parse_completion_spec(s: Seq<char>) -> (Seq<char>, Seq<Seq<char>>) {
    let folded = completion_fold(lines_of(s), Seq::<char>::empty(), false, Seq::<Seq<char>>::empty());
    (
        if folded.0.len() == 0 {
            s
        } else {
            folded.0
        },
        folded.1,
    )
}

/// Parses the model's tagged completion response into the corrected
/// text and the list of inferred parts. A response without tags is
/// returned whole, with nothing inferred.
#[verifier::loop_isolation(false)]
pub fn parse_completion_response(response: &str) -> (r: (String, Vec<String>))
    ensures
        r.0@ == parse_completion_spec(response@).0,
        string_views(r.1@) =~= parse_completion_spec(response@).1,
{
    let lines = lines_vec(response);
    let ghost all = string_views(lines@);
    let n = lines.len();
    let mut corrected = String::new();
    let mut in_corrected = false;
    let mut inferred: Vec<String> = Vec::new();
    let mut i: usize = 0;
    proof {
        assert(all.skip(0) =~= all);
        assert(corrected@ =~= Seq::<char>::empty());
        assert(string_views(inferred@) =~= Seq::<Seq<char>>::empty());
    }
    while i < n
        invariant
            0 <= i <= n,
            n == lines@.len(),
            completion_fold(all, Seq::<char>::empty(), false, Seq::<Seq<char>>::empty())
                == completion_fold(
                all.skip(i as int),
                corrected@,
                in_corrected,
                string_views(inferred@),
            ),
        decreases n - i,
    {
        let line = &lines[i];
        let ghost rem = all.skip(i as int);
        proof {
            assert(rem[0] == lines@[i as int]@);
            assert(rem.drop_first() =~= all.skip(i + 1));
        }
        let ln = line.as_str().unicode_len();
        if str_starts_with(line.as_str(), "[CORRECTED]") {
            proof {
                reveal_strlit("[CORRECTED]");
                assert(ln >= 11);
            }
            corrected = trim_to_string(line.as_str().substring_char(11, ln));
            in_corrected = true;
            proof {
                assert(line@.subrange(11, ln as int) =~= line@.skip(11));
            }
        } else if str_starts_with(line.as_str(), "[INFERRED]") {
            proof {
                reveal_strlit("[CORRECTED]");
                reveal_strlit("[INFERRED]");
                assert(!"[CORRECTED]"@.is_prefix_of(line@)) by {
                    if "[CORRECTED]"@.is_prefix_of(line@) {
                        assert(line@.subrange(0, 11)[1] == line@[1]);
                        assert(line@.subrange(0, 10)[1] == line@[1]);
                    }
                }
                assert(ln >= 10);
            }
            in_corrected = false;
            let t = trim_to_string(line.as_str().substring_char(10, ln));
            proof {
                assert(line@.subrange(10, ln as int) =~= line@.skip(10));
            }
            if !str_eq(t.as_str(), "none") && t.as_str().unicode_len() > 0 {
                let items = trim_nonblank(split_char(t.as_str(), ','));
                inferred = items;
            }
        } else {
            proof {
                reveal_strlit("[CORRECTED]");
                reveal_strlit("[INFERRED]");
            }
            if in_corrected {
                let ghost pre = corrected@;
                if corrected.as_str().unicode_len() > 0 {
                    corrected.append("\n");
                    proof {
                        reveal_strlit("\n");
                        assert("\n"@ =~= seq!['\n']);
                        assert(corrected@ =~= pre + seq!['\n']);
                    }
                }
                corrected.append(line.as_str());
                proof {
                    if pre.len() > 0 {
                        assert(corrected@ =~= pre + seq!['\n'] + line@);
                    } else {
                        assert(corrected@ =~= pre + line@);
                    }
                }
            }
        }
        i = i + 1;
    }
    proof {
        assert(all.skip(n as int).len() == 0);
    }
    if corrected.as_str().unicode_len() == 0 {
        (response.to_owned(), inferred)
    } else {
        (corrected, inferred)
    }
}

/// Materialises the lines of a text.
fn lines_vec(s: &str) -> (r: Vec<String>)
    ensures
        string_views(r@) =~= lines_of(s@),
{
    let n = s.unicode_len();
    if n == 0 {
        let r: Vec<String> = Vec::new();
        proof {
            assert(string_views(r@) =~= Seq::<Seq<char>>::empty());
        }
        return r;
    }
    if s.get_char(n - 1) == '\n' {
        let body = s.substring_char(0, n - 1);
        proof {
            assert(body@ =~= s@.drop_last());
        }
        split_char(body, '\n')
    } else {
        split_char(s, '\n')
    }
}

/// Builds an owned `String` from a literal.
fn lit_string(s: &str) -> (r: String)
    ensures
        r@ == s@,
{
    let mut r = String::new();
    r.append(s);
    r
}

} // verus!
