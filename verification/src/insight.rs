//! Text-insight analysis: language detection and the structured
//! analysis prompt. Streaming the analysis itself is a chat call that
//! the caller drives.

use vstd::prelude::*;

use crate::chat::Message;
use crate::text::str_eq;

verus! {

broadcast use vstd::string::group_string_axioms;

/// One chunk of the text-insight stream handed to the event sink.
#[derive(Debug, Clone)]
pub struct TextInsightChunk {
    pub chunk_type: String,
    pub section: Option<String>,
    pub content: Option<String>,
    pub language: Option<String>,
}

/// The ISO-639-3 code of the language statistically detected in a text,
/// or nothing when no language can be told; a function of the text
/// alone.
pub uninterp spec fn detected_code(s: Seq<char>) -> Option<Seq<char>>;

/// Relies on whatlang::detect_lang and whatlang::Lang::code: the
/// detection is statistical over trigrams and scripts, a deterministic
/// function of the text alone, and `code` renders the detected language
/// as its ISO-639-3 code.
#[verifier::external_body]
fn detect_lang_code(text: &str) -> (r: Option<String>)
    ensures
        (r is Some) == (detected_code(text@) is Some),
        r matches Some(c) ==> detected_code(text@) == Some(c@),
{
    whatlang::detect_lang(text).map(|lang| lang.code().to_string())
}

/// The short code for a detected language: the common two-letter form
/// for the ten most frequent languages, the ISO-639-3 code otherwise.
pub open spec fn short_code_spec(code: Seq<char>) -> Seq<char> {
    if code == "eng"@ {
        "en"@
    } else if code == "cmn"@ {
        "zh"@
    } else if code == "jpn"@ {
        "ja"@
    } else if code == "kor"@ {
        "ko"@
    } else if code == "fra"@ {
        "fr"@
    } else if code == "deu"@ {
        "de"@
    } else if code == "spa"@ {
        "es"@
    } else if code == "por"@ {
        "pt"@
    } else if code == "rus"@ {
        "ru"@
    } else if code == "ita"@ {
        "it"@
    } else {
        code
    }
}

/// What `detect_language` returns for a text.
pub open spec fn detect_language_spec(s: Seq<char>) -> Seq<char> {
    match detected_code(s) {
        Some(code) => short_code_spec(code),
        None => "unknown"@,
    }
}

/// Detects the language of a text and returns its short code, or
/// `unknown` when detection fails.
pub fn detect_language(text: &str) -> (r: String)
    ensures
        r@ == detect_language_spec(text@),
{
    match detect_lang_code(text) {
        Some(code) => short_lang_code(code),
        None => lit_string("unknown"),
    }
}

/// Maps an ISO-639-3 code to its short form.
fn short_lang_code(code: String) -> (r: String)
    ensures
        r@ == short_code_spec(code@),
{
    if str_eq(code.as_str(), "eng") {
        lit_string("en")
    } else if str_eq(code.as_str(), "cmn") {
        lit_string("zh")
    } else if str_eq(code.as_str(), "jpn") {
        lit_string("ja")
    } else if str_eq(code.as_str(), "kor") {
        lit_string("ko")
    } else if str_eq(code.as_str(), "fra") {
        lit_string("fr")
    } else if str_eq(code.as_str(), "deu") {
        lit_string("de")
    } else if str_eq(code.as_str(), "spa") {
        lit_string("es")
    } else if str_eq(code.as_str(), "por") {
        lit_string("pt")
    } else if str_eq(code.as_str(), "rus") {
        lit_string("ru")
    } else if str_eq(code.as_str(), "ita") {
        lit_string("it")
    } else {
        code
    }
}

/// The system instruction of the structured analysis prompt.
pub open spec fn analysis_system_prompt_spec() -> Seq<char> {
    "You are a language analysis assistant. Analyze the given text and provide a structured response with exactly these six sections, each on its own line prefixed by the section tag:\n\n[ORIGINAL] The original text as-is\n[WORD_BY_WORD] Word-by-word or character-by-character explanation with meanings\n[STRUCTURE] Grammatical structure analysis (sentence patterns, parts of speech)\n[TRANSLATION] Accurate translation to the user's target language\n[COLLOQUIAL] A more colloquial/conversational version of the same meaning\n[SIMPLIFIED] A simplified version using easier vocabulary\n\nKeep each section concise but informative. Output all six sections in order.\nDo not add any extra commentary outside the section tags."@
}

/// Builds the two-message conversation that asks for a structured
/// analysis of a text in its detected language.
pub fn build_analysis_prompt(text: &str, detected_lang: &str) -> (r: Vec<Message>)
    ensures
        r@.len() == 2,
        r@[0].role@ == "system"@,
        r@[0].content@ == analysis_system_prompt_spec(),
        r@[1].role@ == "user"@,
        r@[1].content@ == "Detected language: "@ + detected_lang@ + "\n\nText to analyze:\n"@
            + text@,
{
    let mut user = String::new();
    user.append("Detected language: ");
    user.append(detected_lang);
    user.append("\n\nText to analyze:\n");
    user.append(text);
    let mut messages: Vec<Message> = Vec::new();
    messages.push(
        Message {
            role: lit_string("system"),
            content: lit_string(
                "You are a language analysis assistant. Analyze the given text and provide a structured response with exactly these six sections, each on its own line prefixed by the section tag:\n\n[ORIGINAL] The original text as-is\n[WORD_BY_WORD] Word-by-word or character-by-character explanation with meanings\n[STRUCTURE] Grammatical structure analysis (sentence patterns, parts of speech)\n[TRANSLATION] Accurate translation to the user's target language\n[COLLOQUIAL] A more colloquial/conversational version of the same meaning\n[SIMPLIFIED] A simplified version using easier vocabulary\n\nKeep each section concise but informative. Output all six sections in order.\nDo not add any extra commentary outside the section tags.",
            ),
        },
    );
    messages.push(Message { role: lit_string("user"), content: user });
    messages
}

/// Builds an owned `String` from a literal.
fn lit_string(s: &str) -> (r: String)
    ensures
        r@ == s@,
{
    let mut r = String::new();
    r.append(s);
    r
}

} // verus!
