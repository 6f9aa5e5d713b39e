//! Speech-synthesis provider adapter.
//!
//! Routes a synthesis request to the endpoint configured for the request
//! language, builds the provider-specific request description, and
//! classifies HTTP failures. The HTTP exchange itself is the caller's
//! I/O; everything decided here is verified.

use vstd::prelude::*;

use crate::config::ApiProvider;
use crate::error::VeyaError;
use crate::retry::RetryPolicy;
use crate::text::trim_end_char;
use crate::text::trim_end_char_spec;
use crate::text::str_eq;
use crate::text::str_starts_with;
use crate::text::u64_to_dec;
use crate::text::dec_spec;

verus! {

broadcast use vstd::string::group_string_axioms;

/// Configuration for a single speech-synthesis endpoint.
#[derive(Debug, Clone)]
pub struct TtsConfig {
    pub provider: ApiProvider,
    pub base_url: String,
    pub model_name: String,
    pub api_key: String,
    /// The language this endpoint serves (e.g. "en", "zh").
    pub language: String,
}

/// Options for one synthesis request. The speed multiplier is carried in
/// hundredths (75 means 0.75x) so that it stays an exact value.
#[derive(Debug, Clone)]
pub struct TtsOptions {
    pub voice: Option<String>,
    pub speed_hundredths: Option<u32>,
}

/// Unified speech client that routes requests by language.
pub struct TtsClient {
    pub configs: Vec<TtsConfig>,
    pub retry_policy: RetryPolicy,
}

/// An exact language match.
pub open spec fn lang_exact(c: TtsConfig, lang: Seq<char>) -> bool {
    c.language@ == lang
}

/// A prefix match in either direction: "en" serves "en-US" and the other
/// way round.
pub open spec fn lang_related(c: TtsConfig, lang: Seq<char>) -> bool {
    lang.is_prefix_of(c.language@) || c.language@.is_prefix_of(lang)
}

/// The smallest index at or after `i` whose config matches the language
/// exactly; `configs.len()` when none does.
pub open spec fn first_exact_from(configs: Seq<TtsConfig>, lang: Seq<char>, i: int) -> int
    decreases configs.len() - i,
{
    if i < 0 || i >= configs.len() {
        configs.len() as int
    } else if lang_exact(configs[i], lang) {
        i
    } else {
        first_exact_from(configs, lang, i + 1)
    }
}

/// The smallest index at or after `i` whose config is prefix-related to
/// the language; `configs.len()` when none is.
pub open spec fn first_related_from(configs: Seq<TtsConfig>, lang: Seq<char>, i: int) -> int
    decreases configs.len() - i,
{
    if i < 0 || i >= configs.len() {
        configs.len() as int
    } else if lang_related(configs[i], lang) {
        i
    } else {
        first_related_from(configs, lang, i + 1)
    }
}

/// Which configuration serves a language: the first exact match, else
/// the first prefix-related match, else the first configuration.
pub open spec fn route_index(configs: Seq<TtsConfig>, lang: Seq<char>) -> int {
    let e = first_exact_from(configs, lang, 0);
    let p = first_related_from(configs, lang, 0);
    if e < configs.len() {
        e
    } else if p < configs.len() {
        p
    } else {
        0
    }
}

impl TtsConfig {
    /// Assembles the synthesis configuration for a resolved endpoint and
    /// the API key fetched for it from the secret store; an endpoint
    /// without a language binding serves "en".
    pub fn from_api(config: &crate::config::ApiConfig, api_key: String) -> (r: TtsConfig)
        ensures
            r.provider == config.provider,
            r.base_url@ == config.base_url@,
            r.model_name@ == config.model_name@,
            r.api_key == api_key,
            (config.language matches Some(l) ==> r.language@ == l@),
            (config.language is None ==> r.language@ == "en"@),
    {
        let language = match &config.language {
            Some(l) => l.clone(),
            None => new_strlit_string("en"),
        };
        TtsConfig {
            provider: config.provider,
            base_url: config.base_url.clone(),
            model_name: config.model_name.clone(),
            api_key,
            language,
        }
    }
}

impl TtsClient {
    pub fn new(configs: Vec<TtsConfig>, retry_policy: RetryPolicy) -> (r: Self)
        ensures
            r.configs == configs,
            r.retry_policy == retry_policy,
    {
        Self { configs, retry_policy }
    }

    /// Returns the configuration that serves `language`: the exact
    /// match, else a prefix match in either direction, else the first
    /// configuration. Fails only when nothing is configured.
    #[verifier::loop_isolation(false)]
    pub fn find_config(&self, language: &str) -> (r: Result<&TtsConfig, VeyaError>)
        ensures
            self.configs@.len() == 0 ==> r is Err && r->Err_0 is TtsFailed,
            self.configs@.len() > 0 ==> (r matches Ok(c) && *c == self.configs@[route_index(
                self.configs@,
                language@,
            )]),
    {
        let n = self.configs.len();
        let mut i: usize = 0;
        while i < n
            invariant
                0 <= i <= n,
                first_exact_from(self.configs@, language@, 0) == first_exact_from(
                    self.configs@,
                    language@,
                    i as int,
                ),
            decreases n - i,
        {
            if str_eq(self.configs[i].language.as_str(), language) {
                return Ok(&self.configs[i]);
            }
            i = i + 1;
        }
        let mut j: usize = 0;
        while j < n
            invariant
                0 <= j <= n,
                first_exact_from(self.configs@, language@, 0) == self.configs@.len(),
                first_related_from(self.configs@, language@, 0) == first_related_from(
                    self.configs@,
                    language@,
                    j as int,
                ),
            decreases n - j,
        {
            let c = &self.configs[j];
            if str_starts_with(language, c.language.as_str()) || str_starts_with(
                c.language.as_str(),
                language,
            ) {
                return Ok(&self.configs[j]);
            }
            j = j + 1;
        }
        if n > 0 {
            Ok(&self.configs[0])
        } else {
            Err(VeyaError::TtsFailed(new_strlit_string("No TTS service configured")))
        }
    }

    /// The base URL of the endpoint that serves `language`.
    pub fn route_url(&self, language: &str) -> (r: Result<String, VeyaError>)
        ensures
            self.configs@.len() == 0 ==> r is Err && r->Err_0 is TtsFailed,
            self.configs@.len() > 0 ==> (r matches Ok(u) && u@ == self.configs@[route_index(
                self.configs@,
                language@,
            )].base_url@),
    {
        match self.find_config(language) {
            Ok(c) => Ok(c.base_url.clone()),
            Err(e) => Err(e),
        }
    }
}

/// Builds an owned `String` from a literal.
fn new_strlit_string(s: &str) -> (r: String)
    ensures
        r@ == s@,
{
    let mut r = String::new();
    r.append(s);
    r
}

/// The default voice for OpenAI-compatible endpoints.
pub const DEFAULT_OPENAI_VOICE: &'static str = "alloy";

/// The default ElevenLabs voice id.
pub const DEFAULT_ELEVENLABS_VOICE: &'static str = "21m00Tcm4TlvDq8ikWAM";

/// The JSON body of a synthesis request, as plain fields; the caller
/// serialises it on the way out.
#[derive(Debug, Clone)]
pub enum TtsRequestBody {
    /// OpenAI-compatible: `model`, `input`, `voice`, `response_format`
    /// ("mp3"), and an optional `speed` multiplier in hundredths.
    OpenAiSpeech { model: String, input: String, voice: String, speed_hundredths: Option<u32> },
    /// ElevenLabs: `text`, `model_id`, and optional voice settings with a
    /// `speed` multiplier in hundredths.
    ElevenLabs { text: String, model_id: String, speed_hundredths: Option<u32> },
}

/// Everything the HTTP layer needs to issue one synthesis POST.
#[derive(Debug, Clone)]
pub struct TtsRequestPlan {
    pub url: String,
    pub headers: Vec<(String, String)>,
    pub body: TtsRequestBody,
}

/// Builds the provider-specific synthesis request for one segment of
/// text. ElevenLabs gets a path-parameterised voice id and its own auth
/// header; every other provider gets the OpenAI-compatible form, with
/// the authorization header only when an API key is configured.
pub fn build_tts_request(config: &TtsConfig, text: &str, options: &TtsOptions) -> (r:
    TtsRequestPlan)
    ensures
        config.provider is Elevenlabs ==> ({
            let voice = match options.voice {
                Some(v) => v@,
                None => DEFAULT_ELEVENLABS_VOICE@,
            };
            &&& r.url@ == trim_end_char_spec(config.base_url@, '/') + "/v1/text-to-speech/"@
                + voice
            &&& r.headers@.len() == 2
            &&& r.headers@[0].0@ == "xi-api-key"@ && r.headers@[0].1@ == config.api_key@
            &&& r.headers@[1].0@ == "content-type"@ && r.headers@[1].1@
                == "application/json"@
            &&& r.body matches TtsRequestBody::ElevenLabs { text: t, model_id, speed_hundredths }
                && t@ == text@ && model_id@ == config.model_name@ && speed_hundredths
                == options.speed_hundredths
        }),
        !(config.provider is Elevenlabs) ==> ({
            let voice = match options.voice {
                Some(v) => v@,
                None => DEFAULT_OPENAI_VOICE@,
            };
            &&& r.url@ == trim_end_char_spec(config.base_url@, '/') + "/audio/speech"@
            &&& (config.api_key@.len() > 0 ==> r.headers@.len() == 1 && r.headers@[0].0@
                == "Authorization"@ && r.headers@[0].1@ == "Bearer "@ + config.api_key@)
            &&& (config.api_key@.len() == 0 ==> r.headers@.len() == 0)
            &&& r.body matches TtsRequestBody::OpenAiSpeech {
                model,
                input,
                voice: v,
                speed_hundredths,
            } && model@ == config.model_name@ && input@ == text@ && v@ == voice
                && speed_hundredths == options.speed_hundredths
        }),
{
    let mut headers: Vec<(String, String)> = Vec::new();
    match config.provider {
        ApiProvider::Elevenlabs => {
            let mut url = trim_end_char(config.base_url.as_str(), '/');
            url.append("/v1/text-to-speech/");
            match &options.voice {
                Some(v) => url.append(v.as_str()),
                None => url.append(DEFAULT_ELEVENLABS_VOICE),
            }
            headers.push((new_strlit_string("xi-api-key"), config.api_key.clone()));
            headers.push((
                new_strlit_string("content-type"),
                new_strlit_string("application/json"),
            ));
            TtsRequestPlan {
                url,
                headers,
                body: TtsRequestBody::ElevenLabs {
                    text: new_strlit_string(text),
                    model_id: config.model_name.clone(),
                    speed_hundredths: options.speed_hundredths,
                },
            }
        },
        _ => {
            let mut url = trim_end_char(config.base_url.as_str(), '/');
            url.append("/audio/speech");
            if config.api_key.unicode_len() > 0 {
                let mut auth = new_strlit_string("Bearer ");
                auth.append(config.api_key.as_str());
                headers.push((new_strlit_string("Authorization"), auth));
            }
            let voice = match &options.voice {
                Some(v) => v.clone(),
                None => new_strlit_string(DEFAULT_OPENAI_VOICE),
            };
            TtsRequestPlan {
                url,
                headers,
                body: TtsRequestBody::OpenAiSpeech {
                    model: config.model_name.clone(),
                    input: new_strlit_string(text),
                    voice,
                    speed_hundredths: options.speed_hundredths,
                },
            }
        },
    }
}

/// Classifies a non-success HTTP status from a speech endpoint: auth
/// failures are `InvalidApiKey`, quota failures `InsufficientBalance`,
/// everything else `TtsFailed`.
pub fn classify_tts_http_status(status: u16, body: &str) -> (r: VeyaError)
    ensures
        status == 401 || status == 403 ==> (r matches VeyaError::InvalidApiKey(d) && d@
            == "TTS auth failed: "@ + body@),
        status == 402 || status == 429 ==> (r matches VeyaError::InsufficientBalance(d) && d@
            == "TTS quota exceeded: "@ + body@),
        500 <= status <= 599 ==> (r matches VeyaError::TtsFailed(d) && d@
            == "TTS server error ("@ + dec_spec(status as nat) + "): "@ + body@),
        !(status == 401 || status == 403 || status == 402 || status == 429 || 500 <= status
            <= 599) ==> (r matches VeyaError::TtsFailed(d) && d@ == "TTS HTTP "@ + dec_spec(
            status as nat,
        ) + ": "@ + body@),
{
    if status == 401 || status == 403 {
        let mut d = new_strlit_string("TTS auth failed: ");
        d.append(body);
        VeyaError::InvalidApiKey(d)
    } else if status == 402 || status == 429 {
        let mut d = new_strlit_string("TTS quota exceeded: ");
        d.append(body);
        VeyaError::InsufficientBalance(d)
    } else if 500 <= status && status <= 599 {
        let mut d = new_strlit_string("TTS server error (");
        let num = u64_to_dec(status as u64);
        d.append(num.as_str());
        d.append("): ");
        d.append(body);
        VeyaError::TtsFailed(d)
    } else {
        let mut d = new_strlit_string("TTS HTTP ");
        let num = u64_to_dec(status as u64);
        d.append(num.as_str());
        d.append(": ");
        d.append(body);
        VeyaError::TtsFailed(d)
    }
}

/// Classifies a transport-level failure from a speech endpoint, from the
/// two distinctions the HTTP client reports: every such failure is a
/// retryable `TtsFailed`.
pub fn classify_tts_transport(was_timeout: bool, was_connect: bool, detail: &str) -> (r:
    VeyaError)
    ensures
        r is TtsFailed,
        was_timeout ==> r->TtsFailed_0@ == "TTS request timed out: "@ + detail@,
        !was_timeout && was_connect ==> r->TtsFailed_0@ == "TTS connection failed: "@ + detail@,
        !was_timeout && !was_connect ==> r->TtsFailed_0@ == "TTS request failed: "@ + detail@,
{
    let mut d = if was_timeout {
        new_strlit_string("TTS request timed out: ")
    } else if was_connect {
        new_strlit_string("TTS connection failed: ")
    } else {
        new_strlit_string("TTS request failed: ")
    };
    d.append(detail);
    VeyaError::TtsFailed(d)
}

/// Resolves a synthesis HTTP exchange: a success status yields the raw
/// audio bytes unchanged, anything else the classified error.
pub fn synthesize_result(status: u16, body: Vec<u8>, body_text: &str) -> (r: Result<
    Vec<u8>,
    VeyaError,
>)
    ensures
        200 <= status < 300 ==> r == Ok::<Vec<u8>, VeyaError>(body),
        !(200 <= status < 300) ==> r is Err && ({
            let e = r->Err_0;
            &&& (e is InvalidApiKey <==> status == 401 || status == 403)
            &&& (e is InsufficientBalance <==> status == 402 || status == 429)
            &&& (e is TtsFailed <==> !(status == 401 || status == 402 || status == 403
                || status == 429))
        }),
{
    if 200 <= status && status < 300 {
        Ok(body)
    } else {
        Err(classify_tts_http_status(status, body_text))
    }
}

} // verus!
