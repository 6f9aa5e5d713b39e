//! Text-generation provider adapter.
//!
//! Builds the provider-specific request for non-streaming and streaming
//! chat calls, classifies HTTP failures into the error taxonomy, and
//! extracts the completion text from a response body. The HTTP exchange
//! itself is the caller's I/O.

use vstd::prelude::*;

use crate::config::ApiProvider;
use crate::error::VeyaError;
use crate::retry::RetryPolicy;
use crate::sse::WireFormat;
use crate::text::contains_seq;
use crate::text::dec_spec;
use crate::text::lower_of;
use crate::text::str_contains;
use crate::text::to_lowercase;
use crate::text::trim_end_char;
use crate::text::trim_end_char_spec;
use crate::text::u64_to_dec;

verus! {

broadcast use vstd::string::group_string_axioms;

/// One turn of a conversation; the order of messages is significant and
/// a system message comes first.
#[derive(Debug, Clone)]
pub struct Message {
    pub role: String,
    pub content: String,
}

/// Configuration needed to issue chat requests against one endpoint.
#[derive(Debug, Clone)]
pub struct LlmConfig {
    pub provider: ApiProvider,
    pub base_url: String,
    pub model_name: String,
    pub api_key: String,
}

/// A chunk of the streaming envelope handed to the event sink:
/// `start`, then any number of `delta`s, then exactly one of
/// `done` or `error`.
#[derive(Debug, Clone)]
pub struct StreamChunk {
    pub chunk_type: String,
    pub content: Option<String>,
}

/// A chat client: one endpoint configuration plus the retry policy its
/// calls run under.
pub struct LlmClient {
    pub config: LlmConfig,
    pub retry_policy: RetryPolicy,
}

impl LlmConfig {
    /// Assembles the chat configuration for a resolved endpoint and the
    /// API key fetched for it from the secret store.
    pub fn from_api(config: &crate::config::ApiConfig, api_key: String) -> (r: LlmConfig)
        ensures
            r.provider == config.provider,
            r.base_url@ == config.base_url@,
            r.model_name@ == config.model_name@,
            r.api_key == api_key,
    {
        LlmConfig {
            provider: config.provider,
            base_url: config.base_url.clone(),
            model_name: config.model_name.clone(),
            api_key,
        }
    }
}

impl LlmClient {
    pub fn new(config: LlmConfig, retry_policy: RetryPolicy) -> (r: Self)
        ensures
            r.config == config,
            r.retry_policy == retry_policy,
    {
        Self { config, retry_policy }
    }
}

/// Everything the HTTP layer needs to issue one chat POST; the body
/// fields are serialised on the way out, in the OpenAI-compatible or
/// Anthropic schema according to `wire`.
#[derive(Debug, Clone)]
pub struct ChatRequestPlan {
    pub url: String,
    pub headers: Vec<(String, String)>,
    pub wire: WireFormat,
    pub model: String,
    pub messages: Vec<Message>,
    pub stream: bool,
    /// Sent only in the Anthropic schema.
    pub max_tokens: Option<u32>,
}

/// The `max_tokens` every Anthropic request carries.
pub const ANTHROPIC_MAX_TOKENS: u32 = 4096;

/// Builds the request for one chat call. Anthropic gets its own path,
/// schema and header pair; every other provider gets the
/// OpenAI-compatible form, with the authorization header only when an
/// API key is configured.
pub fn build_chat_request(config: &LlmConfig, messages: Vec<Message>, stream: bool) -> (r:
    ChatRequestPlan)
    ensures
        r.model@ == config.model_name@,
        r.messages == messages,
        r.stream == stream,
        config.provider is Anthropic ==> {
            &&& r.url@ == trim_end_char_spec(config.base_url@, '/') + "/messages"@
            &&& r.wire is Anthropic
            &&& r.max_tokens == Some(ANTHROPIC_MAX_TOKENS)
            &&& r.headers@.len() == 3
            &&& r.headers@[0].0@ == "x-api-key"@ && r.headers@[0].1@ == config.api_key@
            &&& r.headers@[1].0@ == "anthropic-version"@ && r.headers@[1].1@ == "2023-06-01"@
            &&& r.headers@[2].0@ == "content-type"@ && r.headers@[2].1@
                == "application/json"@
        },
        !(config.provider is Anthropic) ==> {
            &&& r.url@ == trim_end_char_spec(config.base_url@, '/') + "/chat/completions"@
            &&& r.wire is OpenAi
            &&& r.max_tokens is None
            &&& (config.api_key@.len() > 0 ==> r.headers@.len() == 1 && r.headers@[0].0@
                == "Authorization"@ && r.headers@[0].1@ == "Bearer "@ + config.api_key@)
            &&& (config.api_key@.len() == 0 ==> r.headers@.len() == 0)
        },
{
    let mut headers: Vec<(String, String)> = Vec::new();
    match config.provider {
        ApiProvider::Anthropic => {
            let mut url = trim_end_char(config.base_url.as_str(), '/');
            url.append("/messages");
            headers.push((lit_string("x-api-key"), config.api_key.clone()));
            headers.push((lit_string("anthropic-version"), lit_string("2023-06-01")));
            headers.push((lit_string("content-type"), lit_string("application/json")));
            ChatRequestPlan {
                url,
                headers,
                wire: WireFormat::Anthropic,
                model: config.model_name.clone(),
                messages,
                stream,
                max_tokens: Some(ANTHROPIC_MAX_TOKENS),
            }
        },
        _ => {
            let mut url = trim_end_char(config.base_url.as_str(), '/');
            url.append("/chat/completions");
            if config.api_key.unicode_len() > 0 {
                let mut auth = lit_string("Bearer ");
                auth.append(config.api_key.as_str());
                headers.push((lit_string("Authorization"), auth));
            }
            ChatRequestPlan {
                url,
                headers,
                wire: WireFormat::OpenAi,
                model: config.model_name.clone(),
                messages,
                stream,
                max_tokens: None,
            }
        },
    }
}

/// Whether a rate-limit style failure body names a quota problem:
/// case-insensitively contains "insufficient", "quota" or "balance".
pub open spec fn quota_exceeded_body(body: Seq<char>) -> bool {
    ||| contains_seq(lower_of(body), "insufficient"@)
    ||| contains_seq(lower_of(body), "quota"@)
    ||| contains_seq(lower_of(body), "balance"@)
}

/// Classifies a non-success HTTP status from a chat endpoint.
/// 401/403 are authentication failures; 402/429 are quota failures when
/// the body says so and retryable rate limiting otherwise; everything
/// else, including 404 and every server error, is `ModelUnavailable`.
pub fn classify_http_status(status: u16, body: &str) -> (r: VeyaError)
    ensures
        status == 401 ==> (r matches VeyaError::InvalidApiKey(d) && d@
            == "Authentication failed: "@ + body@),
        status == 403 ==> (r matches VeyaError::InvalidApiKey(d) && d@ == "Forbidden: "@
            + body@),
        status == 402 || status == 429 ==> (quota_exceeded_body(body@) ==> (r
            matches VeyaError::InsufficientBalance(d) && d@ == "Quota exceeded: "@ + body@)),
        status == 402 || status == 429 ==> (!quota_exceeded_body(body@) ==> (r
            matches VeyaError::NetworkTimeout(d) && d@ == "Rate limited: "@ + body@)),
        status == 404 ==> (r matches VeyaError::ModelUnavailable(d) && d@
            == "Model not found: "@ + body@),
        500 <= status <= 599 ==> (r matches VeyaError::ModelUnavailable(d) && d@
            == "Server error ("@ + dec_spec(status as nat) + "): "@ + body@),
        !(status == 401 || status == 402 || status == 403 || status == 404 || status == 429
            || 500 <= status <= 599) ==> (r matches VeyaError::ModelUnavailable(d) && d@
            == "HTTP "@ + dec_spec(status as nat) + ": "@ + body@),
{
    if status == 401 {
        let mut d = lit_string("Authentication failed: ");
        d.append(body);
        VeyaError::InvalidApiKey(d)
    } else if status == 403 {
        let mut d = lit_string("Forbidden: ");
        d.append(body);
        VeyaError::InvalidApiKey(d)
    } else if status == 402 || status == 429 {
        let lower = to_lowercase(body);
        if str_contains(lower.as_str(), "insufficient") || str_contains(lower.as_str(), "quota")
            || str_contains(lower.as_str(), "balance") {
            let mut d = lit_string("Quota exceeded: ");
            d.append(body);
            VeyaError::InsufficientBalance(d)
        } else {
            let mut d = lit_string("Rate limited: ");
            d.append(body);
            VeyaError::NetworkTimeout(d)
        }
    } else if status == 404 {
        let mut d = lit_string("Model not found: ");
        d.append(body);
        VeyaError::ModelUnavailable(d)
    } else if 500 <= status && status <= 599 {
        let mut d = lit_string("Server error (");
        let num = u64_to_dec(status as u64);
        d.append(num.as_str());
        d.append("): ");
        d.append(body);
        VeyaError::ModelUnavailable(d)
    } else {
        let mut d = lit_string("HTTP ");
        let num = u64_to_dec(status as u64);
        d.append(num.as_str());
        d.append(": ");
        d.append(body);
        VeyaError::ModelUnavailable(d)
    }
}

/// Classifies a transport-level chat failure from the two distinctions
/// the HTTP client reports: timeouts and connection failures are
/// retryable `NetworkTimeout`, anything else `ModelUnavailable`.
pub fn classify_transport_error(was_timeout: bool, was_connect: bool, detail: &str) -> (r:
    VeyaError)
    ensures
        was_timeout ==> (r matches VeyaError::NetworkTimeout(d) && d@
            == "Request timed out: "@ + detail@),
        !was_timeout && was_connect ==> (r matches VeyaError::NetworkTimeout(d) && d@
            == "Connection failed: "@ + detail@),
        !was_timeout && !was_connect ==> (r matches VeyaError::ModelUnavailable(d) && d@
            == "Request failed: "@ + detail@),
{
    if was_timeout {
        let mut d = lit_string("Request timed out: ");
        d.append(detail);
        VeyaError::NetworkTimeout(d)
    } else if was_connect {
        let mut d = lit_string("Connection failed: ");
        d.append(detail);
        VeyaError::NetworkTimeout(d)
    } else {
        let mut d = lit_string("Request failed: ");
        d.append(detail);
        VeyaError::ModelUnavailable(d)
    }
}

/// The completion text an OpenAI-compatible response body carries: the
/// string at `choices[0].message.content`, or nothing when the body is
/// malformed JSON, has another shape, or has no choices.
pub uninterp spec fn openai_content_of(body: Seq<u8>) -> Option<Seq<char>>;

/// The completion text an Anthropic response body carries: the string
/// at `content[0].text`, or nothing when the body is malformed JSON,
/// has another shape, or has no content blocks.
pub uninterp spec fn anthropic_content_of(body: Seq<u8>) -> Option<Seq<char>>;

/// Relies on serde_json: parses the response body and reads the string
/// at `choices[0].message.content`; the result is a function of the
/// body bytes alone.
#[verifier::external_body]
fn extract_openai_content(body: &[u8]) -> (r: Option<String>)
    ensures
        (r is Some) == (openai_content_of(body@) is Some),
        r matches Some(s) ==> openai_content_of(body@) == Some(s@),
{
    let v: serde_json::Value = match serde_json::from_slice(body) {
        Ok(v) => v,
        Err(_) => return None,
    };
    Some(v.get("choices")?.get(0)?.get("message")?.get("content")?.as_str()?.to_string())
}

/// Relies on serde_json: parses the response body and reads the string
/// at `content[0].text`; the result is a function of the body bytes
/// alone.
#[verifier::external_body]
fn extract_anthropic_content(body: &[u8]) -> (r: Option<String>)
    ensures
        (r is Some) == (anthropic_content_of(body@) is Some),
        r matches Some(s) ==> anthropic_content_of(body@) == Some(s@),
{
    let v: serde_json::Value = match serde_json::from_slice(body) {
        Ok(v) => v,
        Err(_) => return None,
    };
    Some(v.get("content")?.get(0)?.get("text")?.as_str()?.to_string())
}

/// The completion text of a successful response body under a wire
/// format.
pub open spec fn content_of(wire: WireFormat, body: Seq<u8>) -> Option<Seq<char>> {
    match wire {
        WireFormat::OpenAi => openai_content_of(body),
        WireFormat::Anthropic => anthropic_content_of(body),
    }
}

/// Resolves a non-streaming chat exchange: on a success status, the
/// first completion's text, or `ModelUnavailable` when the body decodes
/// to no completion; on any other status, the classified error.
pub fn parse_chat_response(wire: WireFormat, status: u16, body: &[u8], body_text: &str) -> (r:
    Result<String, VeyaError>)
    ensures
        200 <= status < 300 && content_of(wire, body@) is Some ==> (r matches Ok(s) && Some(s@)
            == content_of(wire, body@)),
        200 <= status < 300 && content_of(wire, body@) is None ==> (r matches Err(e) && e
            matches VeyaError::ModelUnavailable(d) && d@ == "Empty or invalid model response"@),
        !(200 <= status < 300) ==> r is Err && ({
            let e = r->Err_0;
            &&& (e is InvalidApiKey <==> status == 401 || status == 403)
            &&& (e is InsufficientBalance <==> (status == 402 || status == 429)
                && quota_exceeded_body(body_text@))
            &&& (e is NetworkTimeout <==> (status == 402 || status == 429)
                && !quota_exceeded_body(body_text@))
            &&& (e is ModelUnavailable <==> !(status == 401 || status == 402 || status == 403
                || status == 429))
        }),
{
    if 200 <= status && status < 300 {
        let extracted = match wire {
            WireFormat::OpenAi => extract_openai_content(body),
            WireFormat::Anthropic => extract_anthropic_content(body),
        };
        match extracted {
            Some(s) => Ok(s),
            None => Err(VeyaError::ModelUnavailable(lit_string("Empty or invalid model response"))),
        }
    } else {
        Err(classify_http_status(status, body_text))
    }
}

/// Builds an owned `String` from a literal.
fn lit_string(s: &str) -> (r: String)
    ensures
        r@ == s@,
{
    let mut r = String::new();
    r.append(s);
    r
}

/// The envelope chunk emitted before the streaming call.
pub fn start_chunk() -> (r: StreamChunk)
    ensures
        r.chunk_type@ == "start"@,
        r.content is None,
{
    StreamChunk { chunk_type: lit_string("start"), content: None }
}

/// The envelope chunk carrying one streamed fragment.
pub fn delta_chunk(content: String) -> (r: StreamChunk)
    ensures
        r.chunk_type@ == "delta"@,
        r.content == Some(content),
{
    StreamChunk { chunk_type: lit_string("delta"), content: Some(content) }
}

/// The single terminal chunk of a successful stream.
pub fn done_chunk() -> (r: StreamChunk)
    ensures
        r.chunk_type@ == "done"@,
        r.content is None,
{
    StreamChunk { chunk_type: lit_string("done"), content: None }
}

/// The single terminal chunk of a failed stream, carrying the
/// stringified failure.
pub fn error_chunk(detail: String) -> (r: StreamChunk)
    ensures
        r.chunk_type@ == "error"@,
        r.content == Some(detail),
{
    StreamChunk { chunk_type: lit_string("error"), content: Some(detail) }
}

} // verus!
