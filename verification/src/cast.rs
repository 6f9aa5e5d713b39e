//! Content-generation pipeline: script generation, segmentation,
//! per-segment speech synthesis, concatenation, and ordered progress
//! reporting.
//!
//! The pipeline is a state machine over the events its collaborators
//! report back: the script result, one synthesis result per segment, and
//! the output-write result. Each transition returns the progress events
//! to emit and the next action to perform, so the whole decision logic
//! is verified; an asynchronous driver performs the network and file
//! work between transitions.

use vstd::prelude::*;

use crate::chat::Message;
use crate::error::VeyaError;
use crate::text::string_views;
use crate::text::find_pair_from;
use crate::text::lemma_find_pair_from_range;
use crate::text::nonblank_trimmed;
use crate::text::split_char;
use crate::text::split_on_pair;
use crate::text::split_on_pair_from;
use crate::text::split_on_one;
use crate::text::trim_nonblank;
use crate::text::trim_spec;
use crate::text::trim_to_string;

verus! {

broadcast use vstd::string::group_string_axioms;

/// Where the content to turn into a podcast came from.
#[derive(Debug, Clone, Copy, PartialEq, Eq, Structural)]
pub enum PodcastSource {
    TextInsight,
    VisionCapture,
    Custom,
}

impl PodcastSource {
    /// The canonical string form of this source tag.
    pub open spec fn spec_str(&self) -> Seq<char> {
        match self {
            PodcastSource::TextInsight => "text_insight"@,
            PodcastSource::VisionCapture => "vision_capture"@,
            PodcastSource::Custom => "custom"@,
        }
    }

    pub fn as_str(&self) -> (r: &'static str)
        ensures
            r@ == self.spec_str(),
    {
        match self {
            PodcastSource::TextInsight => "text_insight",
            PodcastSource::VisionCapture => "vision_capture",
            PodcastSource::Custom => "custom",
        }
    }
}

/// The pace axis of the generated script and audio.
#[derive(Debug, Clone, Copy, PartialEq, Eq, Structural)]
pub enum SpeedMode {
    Slow,
    Normal,
}

impl SpeedMode {
    /// The canonical string form of this speed tag.
    pub open spec fn spec_str(&self) -> Seq<char> {
        match self {
            SpeedMode::Slow => "slow"@,
            SpeedMode::Normal => "normal"@,
        }
    }

    pub fn as_str(&self) -> (r: &'static str)
        ensures
            r@ == self.spec_str(),
    {
        match self {
            SpeedMode::Slow => "slow",
            SpeedMode::Normal => "normal",
        }
    }

    /// The synthesis speed multiplier, in hundredths: 0.75x for slow,
    /// 1.0x for normal.
    pub fn tts_speed_hundredths(&self) -> (r: u32)
        ensures
            *self is Slow ==> r == 75,
            *self is Normal ==> r == 100,
    {
        match self {
            SpeedMode::Slow => 75,
            SpeedMode::Normal => 100,
        }
    }
}

/// The mode axis: bilingual alternation or target-language immersion.
#[derive(Debug, Clone, Copy, PartialEq, Eq, Structural)]
pub enum PodcastMode {
    Bilingual,
    Immersive,
}

impl PodcastMode {
    /// The canonical string form of this mode tag.
    pub open spec fn spec_str(&self) -> Seq<char> {
        match self {
            PodcastMode::Bilingual => "bilingual"@,
            PodcastMode::Immersive => "immersive"@,
        }
    }

    pub fn as_str(&self) -> (r: &'static str)
        ensures
            r@ == self.spec_str(),
    {
        match self {
            PodcastMode::Bilingual => "bilingual",
            PodcastMode::Immersive => "immersive",
        }
    }
}

/// The content a podcast is generated from.
#[derive(Debug, Clone)]
pub struct PodcastInput {
    pub content: String,
    pub source: PodcastSource,
}

/// How the podcast is generated.
#[derive(Debug, Clone)]
pub struct PodcastOptions {
    pub speed: SpeedMode,
    pub mode: PodcastMode,
    pub target_language: String,
}

/// One progress event of a pipeline run.
#[derive(Debug, Clone)]
pub struct CastEngineProgress {
    pub progress_type: String,
    pub progress: Option<u32>,
    pub script_preview: Option<String>,
    pub audio_path: Option<String>,
    pub error: Option<String>,
}

// ── Script prompt ────────────────────────────────────────────────

/// The mode axis of the generation instruction.
pub open spec fn mode_instruction_spec(mode: PodcastMode) -> Seq<char> {
    match mode {
        PodcastMode::Bilingual => "Generate a bilingual podcast script. Alternate between the original language and the target language. For each key phrase or sentence, first present it in the original language, then explain it in the target language."@,
        PodcastMode::Immersive => "Generate an immersive podcast script entirely in the target language. Explain the content naturally as if teaching a language learner, using only the target language."@,
    }
}

/// The pace axis of the generation instruction.
pub open spec fn speed_instruction_spec(speed: SpeedMode) -> Seq<char> {
    match speed {
        SpeedMode::Slow => "Use short, simple sentences. Pause between ideas. Speak slowly and clearly."@,
        SpeedMode::Normal => "Use natural conversational pace and sentence length."@,
    }
}

/// The system instruction for script generation: the fixed framing, the
/// target language, and the two instruction axes.
pub open spec fn script_system_prompt_spec(options: PodcastOptions) -> Seq<char> {
    "You are a language learning podcast host. Your job is to transform the given content into an engaging spoken explanation that helps learners understand the material.\n\nTarget language: "@
        + options.target_language@ + "\n"@ + mode_instruction_spec(options.mode) + "\n"@
        + speed_instruction_spec(options.speed)
        + "\n\nOutput ONLY the podcast script text, ready to be read aloud. Use paragraph breaks to separate segments. Do not include stage directions or metadata."@
}

/// Builds the two-message conversation that asks for a podcast script:
/// the system instruction built from the options, then the content as
/// the user turn.
pub fn build_script_prompt(input: &PodcastInput, options: &PodcastOptions) -> (r: Vec<Message>)
    ensures
        r@.len() == 2,
        r@[0].role@ == "system"@,
        r@[0].content@ == script_system_prompt_spec(*options),
        r@[1].role@ == "user"@,
        r@[1].content@ == input.content@,
{
    let mode_instruction = match options.mode {
        PodcastMode::Bilingual => "Generate a bilingual podcast script. Alternate between the original language and the target language. For each key phrase or sentence, first present it in the original language, then explain it in the target language.",
        PodcastMode::Immersive => "Generate an immersive podcast script entirely in the target language. Explain the content naturally as if teaching a language learner, using only the target language.",
    };
    let speed_instruction = match options.speed {
        SpeedMode::Slow => "Use short, simple sentences. Pause between ideas. Speak slowly and clearly.",
        SpeedMode::Normal => "Use natural conversational pace and sentence length.",
    };
    let mut system = String::new();
    system.append(
        "You are a language learning podcast host. Your job is to transform the given content into an engaging spoken explanation that helps learners understand the material.\n\nTarget language: ",
    );
    system.append(options.target_language.as_str());
    system.append("\n");
    system.append(mode_instruction);
    system.append("\n");
    system.append(speed_instruction);
    system.append(
        "\n\nOutput ONLY the podcast script text, ready to be read aloud. Use paragraph breaks to separate segments. Do not include stage directions or metadata.",
    );
    let mut role_system = String::new();
    role_system.append("system");
    let mut role_user = String::new();
    role_user.append("user");
    let mut messages: Vec<Message> = Vec::new();
    messages.push(Message { role: role_system, content: system });
    messages.push(Message { role: role_user, content: input.content.clone() });
    messages
}

// ── Segmentation ─────────────────────────────────────────────────

/// What `split_script_segments` returns: the blank-line split when it
/// yields at least two non-empty trimmed segments, else the line split
/// when it yields at least one, else the whole trimmed script as a
/// single segment.
pub open spec fn split_script_spec(s: Seq<char>) -> Seq<Seq<char>> {
    let two = nonblank_trimmed(split_on_pair(s, '\n', '\n'));
    if two.len() >= 2 {
        two
    } else {
        let one = nonblank_trimmed(split_on_one(s, '\n'));
        if one.len() == 0 {
            seq![trim_spec(s)]
        } else {
            one
        }
    }
}

/// Splits a script into the segments synthesised one by one: paragraphs
/// separated by blank lines, falling back to single lines, falling back
/// to the whole trimmed script.
pub fn split_script_segments(script: &str) -> (r: Vec<String>)
    ensures
        string_views(r@) =~= split_script_spec(script@),
        r@.len() >= 1,
{
    let parts = split_pair_char(script);
    let two = trim_nonblank(parts);
    if two.len() >= 2 {
        return two;
    }
    let parts = split_char(script, '\n');
    let one = trim_nonblank(parts);
    if one.len() == 0 {
        let mut r: Vec<String> = Vec::new();
        r.push(trim_to_string(script));
        proof {
            assert(string_views(r@) =~= seq![trim_spec(script@)]);
        }
        r
    } else {
        one
    }
}

/// Splits at each blank line (`\n\n`), keeping the raw pieces.
#[verifier::loop_isolation(false)]
fn split_pair_char(s: &str) -> (r: Vec<String>)
    ensures
        string_views(r@) =~= split_on_pair(s@, '\n', '\n'),
{
    let n = s.unicode_len();
    let mut parts: Vec<String> = Vec::new();
    let mut start: usize = 0;
    loop
        invariant
            0 <= start <= n,
            split_on_pair(s@, '\n', '\n') =~= string_views(parts@) + split_on_pair_from(
                s@,
                '\n',
                '\n',
                start as int,
            ),
        decreases n - start + 1,
    {
        proof {
            lemma_find_pair_from_range(s@, '\n', '\n', start as int);
        }
        let mut f: usize = start;
        while f < n && !(f + 1 < n && s.get_char(f) == '\n' && s.get_char(f + 1) == '\n')
            invariant
                start <= f <= n,
                find_pair_from(s@, '\n', '\n', start as int) == find_pair_from(
                    s@,
                    '\n',
                    '\n',
                    f as int,
                ),
            decreases n - f,
        {
            f = f + 1;
        }
        let ghost pre = parts@;
        if f < n {
            proof {
                assert(find_pair_from(s@, '\n', '\n', start as int) == f as int);
            }
            parts.push(s.substring_char(start, f).to_owned());
            proof {
                assert(string_views(parts@) =~= string_views(pre).push(
                    s@.subrange(start as int, f as int),
                ));
            }
            start = f + 2;
        } else {
            proof {
                assert(find_pair_from(s@, '\n', '\n', start as int) == s@.len());
            }
            parts.push(s.substring_char(start, n).to_owned());
            proof {
                assert(string_views(parts@) =~= string_views(pre).push(
                    s@.subrange(start as int, n as int),
                ));
                assert(string_views(pre).push(s@.subrange(start as int, n as int))
                    =~= string_views(pre) + seq![s@.subrange(start as int, n as int)]);
            }
            return parts;
        }
    }
}


// ── Pipeline state machine ───────────────────────────────────────

/// Where a pipeline run stands.
#[derive(Debug, Clone, Copy, PartialEq, Eq, Structural)]
pub enum EnginePhase {
    /// Waiting for the script-generation result.
    AwaitingScript,
    /// Waiting for the synthesis result of segment `next_segment`.
    Synthesizing,
    /// Waiting for the concatenated audio to be written out.
    AwaitingWrite,
    /// Terminal: the run succeeded.
    Finished,
    /// Terminal: the run failed.
    Failed,
}

/// What the driver must do next.
#[derive(Debug, Clone)]
pub enum EngineAction {
    /// Synthesize this segment text in the run's target language.
    RequestSynthesis(String),
    /// Write the concatenated audio to a temporary output file.
    WriteOutput(Vec<u8>),
    /// The run is over; nothing remains to do.
    Halt,
}

/// The progress percentage after `done` of `total` segments have been
/// synthesised: `30 + done*60/total`, clamped to at most 90.
pub open spec fn synthesis_percent(done: int, total: int) -> int {
    let t = if total < 1 {
        1
    } else {
        total
    };
    let p = 30 + done * 60 / t;
    if p > 90 {
        90
    } else {
        p
    }
}

/// Law: synthesis progress is bounded and monotone. Every synthesis
/// percentage lies between 30 and 90, and finishing one more segment
/// never lowers it — so a run's percentages are non-decreasing from
/// `script_generating` at 0 through `script_done` at 30 and the
/// synthesis steps up to `done` at 100.
pub proof fn lemma_synthesis_percent_bounds(done: int, total: int)
    requires
        0 <= done <= total,
        1 <= total,
    ensures
        30 <= synthesis_percent(done, total) <= 90,
        done < total ==> synthesis_percent(done, total) <= synthesis_percent(done + 1, total),
{
    vstd::arithmetic::div_mod::lemma_div_is_ordered(0, done * 60, total);
    vstd::arithmetic::div_mod::lemma_div_is_ordered(done * 60, (done + 1) * 60, total);
    assert(done * 60 >= 0) by (nonlinear_arith)
        requires
            done >= 0,
    ;
}

/// One content-generation run: a state machine over the results its
/// collaborators report back. Progress events come out of each
/// transition in order, with non-decreasing percentages, one
/// `tts_progress` event per synthesised segment, and a single terminal
/// `done` or `error`.
pub struct CastEngine {
    pub options: PodcastOptions,
    pub phase: EnginePhase,
    pub segments: Vec<String>,
    pub next_segment: usize,
    pub audio: Vec<u8>,
    pub last_percent: u32,
}

impl CastEngine {
    /// The machine's invariant, tying the last emitted percentage to the
    /// phase and the synthesis position.
    pub open spec fn wf(&self) -> bool {
        &&& self.last_percent <= 100
        &&& (self.phase is AwaitingScript ==> self.last_percent == 0 && self.audio@.len() == 0)
        &&& (self.phase is Synthesizing ==> {
            &&& self.next_segment < self.segments@.len()
            &&& self.last_percent == if self.next_segment == 0 {
                30int
            } else {
                synthesis_percent(self.next_segment as int, self.segments@.len() as int)
            }
            &&& 30 <= self.last_percent <= 90
        })
        &&& (self.phase is AwaitingWrite ==> 30 <= self.last_percent <= 90)
        &&& (self.phase is Finished ==> self.last_percent == 100)
    }

    /// Begins a run: validates that the input content is non-blank,
    /// yields the initial `script_generating` event at 0%, and the
    /// conversation to send for script generation.
    pub fn start(input: &PodcastInput, options: &PodcastOptions) -> (r: Result<
        (CastEngine, CastEngineProgress, Vec<Message>),
        VeyaError,
    >)
        ensures
            r is Err <==> trim_spec(input.content@).len() == 0,
            r is Err ==> r->Err_0 is Generic,
            r matches Ok((engine, ev, messages)) ==> {
                &&& engine.wf()
                &&& engine.phase is AwaitingScript
                &&& engine.options == *options
                &&& engine.audio@.len() == 0
                &&& ev.progress_type@ == "script_generating"@
                &&& ev.progress == Some(0u32)
                &&& ev.script_preview is None && ev.audio_path is None && ev.error is None
                &&& messages@.len() == 2
                &&& messages@[0].role@ == "system"@
                &&& messages@[0].content@ == script_system_prompt_spec(*options)
                &&& messages@[1].role@ == "user"@
                &&& messages@[1].content@ == input.content@
            },
    {
        let trimmed = trim_to_string(input.content.as_str());
        if trimmed.as_str().unicode_len() == 0 {
            let mut msg = String::new();
            msg.append("Podcast input content is empty");
            return Err(VeyaError::Generic(msg));
        }
        let messages = build_script_prompt(input, options);
        let mut ty = String::new();
        ty.append("script_generating");
        let ev = CastEngineProgress {
            progress_type: ty,
            progress: Some(0),
            script_preview: None,
            audio_path: None,
            error: None,
        };
        let options_copy = PodcastOptions {
            speed: options.speed,
            mode: options.mode,
            target_language: options.target_language.clone(),
        };
        let engine = CastEngine {
            options: options_copy,
            phase: EnginePhase::AwaitingScript,
            segments: Vec::new(),
            next_segment: 0,
            audio: Vec::new(),
            last_percent: 0,
        };
        Ok((engine, ev, messages))
    }

    /// Consumes the script-generation result. On success: the
    /// `script_done` event at 30% with the preview, the script split
    /// into segments, and a request to synthesise the first one. On
    /// failure: the terminal `error` event.
    pub fn on_script(&mut self, result: Result<String, VeyaError>) -> (r: (
        Vec<CastEngineProgress>,
        EngineAction,
    ))
        requires
            old(self).wf(),
            old(self).phase is AwaitingScript,
        ensures
            final(self).wf(),
            final(self).options == old(self).options,
            result matches Ok(script) ==> {
                &&& final(self).phase is Synthesizing
                &&& string_views(final(self).segments@) =~= split_script_spec(script@)
                &&& final(self).next_segment == 0
                &&& final(self).audio@.len() == 0
                &&& r.0@.len() == 1
                &&& r.0@[0].progress_type@ == "script_done"@
                &&& r.0@[0].progress == Some(30u32)
                &&& (r.0@[0].script_preview matches Some(p) && p@ == script_preview_spec(
                    script@,
                ))
                &&& r.0@[0].audio_path is None && r.0@[0].error is None
                &&& (r.1 matches EngineAction::RequestSynthesis(t) && t@ == split_script_spec(
                    script@,
                )[0])
            },
            result matches Err(e) ==> {
                &&& final(self).phase is Failed
                &&& r.0@.len() == 1
                &&& is_error_event(r.0@[0], e)
                &&& r.1 is Halt
            },
    {
        match result {
            Ok(script) => {
                let preview = script_preview(script.as_str());
                let segments = split_script_segments(script.as_str());
                proof {
                    assert(string_views(segments@).len() == segments@.len());
                }
                let first = segments[0].clone();
                proof {
                    assert(first@ == string_views(segments@)[0]);
                }
                self.segments = segments;
                self.next_segment = 0;
                self.phase = EnginePhase::Synthesizing;
                self.last_percent = 30;
                let mut ty = String::new();
                ty.append("script_done");
                let ev = CastEngineProgress {
                    progress_type: ty,
                    progress: Some(30),
                    script_preview: Some(preview),
                    audio_path: None,
                    error: None,
                };
                let mut events: Vec<CastEngineProgress> = Vec::new();
                events.push(ev);
                (events, EngineAction::RequestSynthesis(first))
            },
            Err(e) => {
                self.phase = EnginePhase::Failed;
                let mut events: Vec<CastEngineProgress> = Vec::new();
                events.push(error_event(&e));
                (events, EngineAction::Halt)
            },
        }
    }

    /// Consumes one synthesis result. On success the audio is appended,
    /// a `tts_progress` event between 30 and 90 comes out, and either
    /// the next segment is requested or, after the last one, the
    /// concatenated audio is handed over to be written. On failure: the
    /// terminal `error` event; audio already synthesised is discarded.
    pub fn on_audio(&mut self, result: Result<Vec<u8>, VeyaError>) -> (r: (
        Vec<CastEngineProgress>,
        EngineAction,
    ))
        requires
            old(self).wf(),
            old(self).phase is Synthesizing,
        ensures
            final(self).wf(),
            final(self).options == old(self).options,
            result matches Ok(bytes) ==> {
                &&& r.0@.len() == 1
                &&& r.0@[0].progress_type@ == "tts_progress"@
                &&& (r.0@[0].progress matches Some(p) && old(self).last_percent <= p <= 90 && p
                    == synthesis_percent(
                    old(self).next_segment + 1,
                    old(self).segments@.len() as int,
                ))
                &&& r.0@[0].script_preview is None && r.0@[0].audio_path is None && r.0@[0].error
                    is None
                &&& final(self).segments == old(self).segments
                &&& (old(self).next_segment + 1 < old(self).segments@.len() ==> {
                    &&& final(self).phase is Synthesizing
                    &&& final(self).next_segment == old(self).next_segment + 1
                    &&& final(self).audio@ =~= old(self).audio@ + bytes@
                    &&& (r.1 matches EngineAction::RequestSynthesis(t) && t@ == old(
                        self,
                    ).segments@[old(self).next_segment + 1]@)
                })
                &&& (old(self).next_segment + 1 == old(self).segments@.len() ==> {
                    &&& final(self).phase is AwaitingWrite
                    &&& (r.1 matches EngineAction::WriteOutput(a) && a@ =~= old(self).audio@
                        + bytes@)
                })
            },
            result matches Err(e) ==> {
                &&& final(self).phase is Failed
                &&& r.0@.len() == 1
                &&& is_error_event(r.0@[0], e)
                &&& r.1 is Halt
            },
    {
        match result {
            Ok(bytes) => {
                let total = self.segments.len();
                let done = self.next_segment + 1;
                proof {
                    lemma_synthesis_percent_bounds(done as int, total as int);
                    if self.next_segment > 0 {
                        lemma_synthesis_percent_bounds(self.next_segment as int, total as int);
                    }
                }
                let q: u128 = (done as u128) * 60 / (total as u128);
                proof {
                    assert(q == (done as int) * 60 / (total as int));
                    assert((done as int) * 60 <= (total as int) * 60) by (nonlinear_arith)
                        requires
                            done <= total,
                    ;
                    vstd::arithmetic::div_mod::lemma_div_is_ordered(
                        (done as int) * 60,
                        (total as int) * 60,
                        total as int,
                    );
                    vstd::arithmetic::div_mod::lemma_div_multiples_vanish(60, total as int);
                    assert(q <= 60);
                }
                let raw: u32 = 30 + (q as u32);
                let pct: u32 = if raw > 90 {
                    90
                } else {
                    raw
                };
                let mut ty = String::new();
                ty.append("tts_progress");
                let ev = CastEngineProgress {
                    progress_type: ty,
                    progress: Some(pct),
                    script_preview: None,
                    audio_path: None,
                    error: None,
                };
                let mut events: Vec<CastEngineProgress> = Vec::new();
                events.push(ev);
                let ghost pre_audio = self.audio@;
                append_bytes(&mut self.audio, bytes);
                self.last_percent = pct;
                if done < total {
                    self.next_segment = done;
                    let t = self.segments[done].clone();
                    (events, EngineAction::RequestSynthesis(t))
                } else {
                    self.phase = EnginePhase::AwaitingWrite;
                    let mut out: Vec<u8> = Vec::new();
                    core::mem::swap(&mut out, &mut self.audio);
                    (events, EngineAction::WriteOutput(out))
                }
            },
            Err(e) => {
                self.phase = EnginePhase::Failed;
                self.audio = Vec::new();
                let mut events: Vec<CastEngineProgress> = Vec::new();
                events.push(error_event(&e));
                (events, EngineAction::Halt)
            },
        }
    }

    /// Consumes the output-write result. On success: the terminal `done`
    /// event at 100% carrying the output reference. On failure: the
    /// terminal `error` event.
    pub fn on_written(&mut self, result: Result<String, VeyaError>) -> (r: (
        Vec<CastEngineProgress>,
        EngineAction,
    ))
        requires
            old(self).wf(),
            old(self).phase is AwaitingWrite,
        ensures
            final(self).wf(),
            final(self).options == old(self).options,
            result matches Ok(path) ==> {
                &&& final(self).phase is Finished
                &&& r.0@.len() == 1
                &&& r.0@[0].progress_type@ == "done"@
                &&& r.0@[0].progress == Some(100u32)
                &&& (r.0@[0].audio_path matches Some(p) && p@ == path@)
                &&& r.0@[0].script_preview is None && r.0@[0].error is None
                &&& r.1 is Halt
            },
            result matches Err(e) ==> {
                &&& final(self).phase is Failed
                &&& r.0@.len() == 1
                &&& is_error_event(r.0@[0], e)
                &&& r.1 is Halt
            },
    {
        match result {
            Ok(path) => {
                self.phase = EnginePhase::Finished;
                self.last_percent = 100;
                let mut ty = String::new();
                ty.append("done");
                let ev = CastEngineProgress {
                    progress_type: ty,
                    progress: Some(100),
                    script_preview: None,
                    audio_path: Some(path),
                    error: None,
                };
                let mut events: Vec<CastEngineProgress> = Vec::new();
                events.push(ev);
                (events, EngineAction::Halt)
            },
            Err(e) => {
                self.phase = EnginePhase::Failed;
                let mut events: Vec<CastEngineProgress> = Vec::new();
                events.push(error_event(&e));
                (events, EngineAction::Halt)
            },
        }
    }
}

/// The script preview shown in the `script_done` event: the first 200
/// characters, with an ellipsis when the script was longer.
pub open spec fn script_preview_spec(script: Seq<char>) -> Seq<char> {
    if script.len() > 200 {
        script.subrange(0, 200) + "…"@
    } else {
        script
    }
}

/// Truncates a script to its 200-character preview.
pub fn script_preview(script: &str) -> (r: String)
    ensures
        r@ == script_preview_spec(script@),
{
    let n = script.unicode_len();
    if n > 200 {
        let mut p = script.substring_char(0, 200).to_owned();
        p.append("…");
        p
    } else {
        script.to_owned()
    }
}

/// Whether an event is the terminal `error` event for a failure.
pub open spec fn is_error_event(ev: CastEngineProgress, e: VeyaError) -> bool {
    &&& ev.progress_type@ == "error"@
    &&& ev.progress is None
    &&& ev.script_preview is None
    &&& ev.audio_path is None
    &&& ev.error matches Some(m) && m@ == e.spec_message()
}

/// Builds the terminal `error` event carrying the stringified failure.
fn error_event(e: &VeyaError) -> (r: CastEngineProgress)
    ensures
        is_error_event(r, *e),
{
    let mut ty = String::new();
    ty.append("error");
    CastEngineProgress {
        progress_type: ty,
        progress: None,
        script_preview: None,
        audio_path: None,
        error: Some(e.message()),
    }
}

/// Appends `extra` to the end of `v`.
fn append_bytes(v: &mut Vec<u8>, extra: Vec<u8>)
    ensures
        final(v)@ =~= old(v)@ + extra@,
{
    let ghost src = extra@;
    let n = extra.len();
    let mut i: usize = 0;
    while i < n
        invariant
            0 <= i <= n,
            n == src.len(),
            extra@ == src,
            v@ =~= old(v)@ + src.take(i as int),
        decreases n - i,
    {
        v.push(extra[i]);
        proof {
            assert(old(v)@ + src.take(i as int) + seq![src[i as int]] =~= old(v)@ + src.take(
                i + 1,
            ));
        }
        i = i + 1;
    }
    proof {
        assert(src.take(n as int) =~= src);
    }
}


} // verus!
