//! Provider endpoint configuration: provider and model-type tags with
//! their canonical string forms, and the typed view of a stored
//! configuration row.

use vstd::prelude::*;

use crate::error::VeyaError;
use crate::text::str_eq;

verus! {

broadcast use vstd::string::group_string_axioms;

/// The provider a configured endpoint speaks to.
#[derive(Debug, Clone, Copy, PartialEq, Eq, Structural)]
pub enum ApiProvider {
    Openai,
    Anthropic,
    Elevenlabs,
    Ollama,
    Custom,
}

impl ApiProvider {
    /// The canonical string form of this provider tag.
    pub open spec fn spec_str(&self) -> Seq<char> {
        match self {
            ApiProvider::Openai => "openai"@,
            ApiProvider::Anthropic => "anthropic"@,
            ApiProvider::Elevenlabs => "elevenlabs"@,
            ApiProvider::Ollama => "ollama"@,
            ApiProvider::Custom => "custom"@,
        }
    }

    pub fn as_str(&self) -> (r: &'static str)
        ensures
            r@ == self.spec_str(),
    {
        match self {
            ApiProvider::Openai => "openai",
            ApiProvider::Anthropic => "anthropic",
            ApiProvider::Elevenlabs => "elevenlabs",
            ApiProvider::Ollama => "ollama",
            ApiProvider::Custom => "custom",
        }
    }

    /// Parses a canonical provider string; any other string is a
    /// `StorageError`.
    pub fn from_str(s: &str) -> (r: Result<Self, VeyaError>)
        ensures
            s@ == "openai"@ ==> r == Ok::<Self, VeyaError>(ApiProvider::Openai),
            s@ == "anthropic"@ ==> r == Ok::<Self, VeyaError>(ApiProvider::Anthropic),
            s@ == "elevenlabs"@ ==> r == Ok::<Self, VeyaError>(ApiProvider::Elevenlabs),
            s@ == "ollama"@ ==> r == Ok::<Self, VeyaError>(ApiProvider::Ollama),
            s@ == "custom"@ ==> r == Ok::<Self, VeyaError>(ApiProvider::Custom),
            r is Ok ==> s@ == r->Ok_0.spec_str(),
            r is Err ==> r->Err_0 is StorageError,
    {
        proof {
            reveal_strlit("openai");
            reveal_strlit("anthropic");
            reveal_strlit("elevenlabs");
            reveal_strlit("ollama");
            reveal_strlit("custom");
            assert("openai"@ !~= "anthropic"@);
            assert("openai"@ !~= "elevenlabs"@);
            assert("openai"@[1] != "ollama"@[1]);
            assert("openai"@ != "ollama"@);
            assert("openai"@ !~= "custom"@);
            assert("anthropic"@ !~= "elevenlabs"@);
            assert("anthropic"@ !~= "ollama"@);
            assert("anthropic"@ !~= "custom"@);
            assert("elevenlabs"@ !~= "ollama"@);
            assert("elevenlabs"@ !~= "custom"@);
            assert("ollama"@ !~= "custom"@);
        }
        if str_eq(s, "openai") {
            Ok(ApiProvider::Openai)
        } else if str_eq(s, "anthropic") {
            Ok(ApiProvider::Anthropic)
        } else if str_eq(s, "elevenlabs") {
            Ok(ApiProvider::Elevenlabs)
        } else if str_eq(s, "ollama") {
            Ok(ApiProvider::Ollama)
        } else if str_eq(s, "custom") {
            Ok(ApiProvider::Custom)
        } else {
            let mut msg = String::new();
            msg.append("Unknown provider: ");
            msg.append(s);
            Err(VeyaError::StorageError(msg))
        }
    }
}

/// What kind of model an endpoint serves.
#[derive(Debug, Clone, Copy, PartialEq, Eq, Structural)]
pub enum ModelType {
    Text,
    Vision,
    Tts,
}

impl ModelType {
    /// The canonical string form of this model-type tag.
    pub open spec fn spec_str(&self) -> Seq<char> {
        match self {
            ModelType::Text => "text"@,
            ModelType::Vision => "vision"@,
            ModelType::Tts => "tts"@,
        }
    }

    pub fn as_str(&self) -> (r: &'static str)
        ensures
            r@ == self.spec_str(),
    {
        match self {
            ModelType::Text => "text",
            ModelType::Vision => "vision",
            ModelType::Tts => "tts",
        }
    }

    /// Parses a canonical model-type string; any other string is a
    /// `StorageError`.
    pub fn from_str(s: &str) -> (r: Result<Self, VeyaError>)
        ensures
            s@ == "text"@ ==> r == Ok::<Self, VeyaError>(ModelType::Text),
            s@ == "vision"@ ==> r == Ok::<Self, VeyaError>(ModelType::Vision),
            s@ == "tts"@ ==> r == Ok::<Self, VeyaError>(ModelType::Tts),
            r is Ok ==> s@ == r->Ok_0.spec_str(),
            r is Err ==> r->Err_0 is StorageError,
    {
        proof {
            reveal_strlit("text");
            reveal_strlit("vision");
            reveal_strlit("tts");
            assert("text"@ !~= "vision"@);
            assert("text"@ !~= "tts"@);
            assert("vision"@ !~= "tts"@);
        }
        if str_eq(s, "text") {
            Ok(ModelType::Text)
        } else if str_eq(s, "vision") {
            Ok(ModelType::Vision)
        } else if str_eq(s, "tts") {
            Ok(ModelType::Tts)
        } else {
            let mut msg = String::new();
            msg.append("Unknown model type: ");
            msg.append(s);
            Err(VeyaError::StorageError(msg))
        }
    }
}

/// A configuration row as the metadata store hands it over: every field
/// still in its stored string form.
#[derive(Debug, Clone)]
pub struct ApiConfigRow {
    pub id: String,
    pub name: String,
    pub provider: String,
    pub model_type: String,
    pub base_url: String,
    pub model_name: String,
    pub api_key_ref: String,
    pub language: Option<String>,
    pub is_local: bool,
    pub is_active: bool,
    pub created_at: String,
}

/// A typed endpoint configuration.
#[derive(Debug, Clone)]
pub struct ApiConfig {
    pub id: String,
    pub name: String,
    pub provider: ApiProvider,
    pub model_type: ModelType,
    pub base_url: String,
    pub model_name: String,
    /// When saving, the caller puts the raw API key here. When read
    /// back from the store this stays `None`: only the reference below
    /// is persisted.
    pub api_key: Option<String>,
    /// Reference under which the secret store holds the key.
    pub api_key_ref: Option<String>,
    /// Language binding for speech-synthesis configurations.
    pub language: Option<String>,
    pub is_local: bool,
    pub is_active: bool,
    pub created_at: Option<String>,
}

impl ApiConfig {
    /// Whether a typed configuration is a faithful view of a stored row,
    /// without the plaintext key.
    pub open spec fn wf_from_row(&self, row: &ApiConfigRow) -> bool {
        &&& self.id@ == row.id@
        &&& self.name@ == row.name@
        &&& self.provider.spec_str() == row.provider@
        &&& self.model_type.spec_str() == row.model_type@
        &&& self.base_url@ == row.base_url@
        &&& self.model_name@ == row.model_name@
        &&& self.api_key is None
        &&& self.api_key_ref matches Some(k) && k@ == row.api_key_ref@
        &&& match (self.language, row.language) {
            (Some(a), Some(b)) => a@ == b@,
            (None, None) => true,
            _ => false,
        }
        &&& self.is_local == row.is_local
        &&& self.is_active == row.is_active
        &&& self.created_at matches Some(c) && c@ == row.created_at@
    }

    /// Converts a stored row into a typed configuration (without the
    /// plaintext key). Fails with the parse error when the row's
    /// provider or model-type string is not canonical.
    pub fn from_row(row: &ApiConfigRow) -> (r: Result<Self, VeyaError>)
        ensures
            r matches Ok(c) ==> c.wf_from_row(row),
            r is Err ==> r->Err_0 is StorageError,
            r is Ok <==> (exists|p: ApiProvider| p.spec_str() == row.provider@) && (exists|
                m: ModelType,
            | m.spec_str() == row.model_type@),
    {
        let provider = match ApiProvider::from_str(row.provider.as_str()) {
            Ok(p) => p,
            Err(e) => {
                proof {
                    lemma_provider_strings_cover(row.provider@);
                }
                return Err(e);
            },
        };
        let model_type = match ModelType::from_str(row.model_type.as_str()) {
            Ok(m) => m,
            Err(e) => {
                proof {
                    lemma_model_type_strings_cover(row.model_type@);
                }
                return Err(e);
            },
        };
        let language = match &row.language {
            Some(l) => Some(l.clone()),
            None => None,
        };
        Ok(Self {
            id: row.id.clone(),
            name: row.name.clone(),
            provider,
            model_type,
            base_url: row.base_url.clone(),
            model_name: row.model_name.clone(),
            api_key: None,
            api_key_ref: Some(row.api_key_ref.clone()),
            language,
            is_local: row.is_local,
            is_active: row.is_active,
            created_at: Some(row.created_at.clone()),
        })
    }
}

/// Whether a stored row offers the wanted kind of model: its type
/// string matches, and, when demanded, it is marked active.
pub open spec fn row_offers(row: ApiConfigRow, ty: Seq<char>, require_active: bool) -> bool {
    row.model_type@ == ty && (require_active ==> row.is_active)
}

/// The smallest index at or after `i` of a row offering the wanted
/// kind; `rows.len()` when none does.
pub open spec fn first_row_from(
    rows: Seq<ApiConfigRow>,
    ty: Seq<char>,
    require_active: bool,
    i: int,
) -> int
    decreases rows.len() - i,
{
    if i < 0 || i >= rows.len() {
        rows.len() as int
    } else if row_offers(rows[i], ty, require_active) {
        i
    } else {
        first_row_from(rows, ty, require_active, i + 1)
    }
}

/// Finds the first row offering the wanted kind of model.
#[verifier::loop_isolation(false)]
fn find_row(rows: &Vec<ApiConfigRow>, ty: &str, require_active: bool) -> (r: Option<usize>)
    ensures
        r matches Some(i) ==> i == first_row_from(rows@, ty@, require_active, 0) && i
            < rows@.len(),
        r is None ==> first_row_from(rows@, ty@, require_active, 0) == rows@.len(),
{
    let n = rows.len();
    let mut i: usize = 0;
    while i < n
        invariant
            0 <= i <= n,
            first_row_from(rows@, ty@, require_active, 0) == first_row_from(
                rows@,
                ty@,
                require_active,
                i as int,
            ),
        decreases n - i,
    {
        if str_eq(rows[i].model_type.as_str(), ty) && (!require_active || rows[i].is_active) {
            return Some(i);
        }
        i = i + 1;
    }
    None
}

/// Resolves the text-generation configuration the pipeline uses: the
/// first stored row of type `text`, active or not. Fails with
/// `ModelUnavailable` when there is none, or with the row's parse error.
pub fn resolve_text_config(rows: &Vec<ApiConfigRow>) -> (r: Result<ApiConfig, VeyaError>)
    ensures
        first_row_from(rows@, "text"@, false, 0) == rows@.len() ==> (r matches Err(e) && e
            is ModelUnavailable),
        first_row_from(rows@, "text"@, false, 0) < rows@.len() ==> ({
            let row = rows@[first_row_from(rows@, "text"@, false, 0)];
            &&& (r matches Ok(c) ==> c.wf_from_row(&row))
            &&& (r matches Err(e) ==> e is StorageError)
        }),
{
    match find_row(rows, "text", false) {
        Some(i) => ApiConfig::from_row(&rows[i]),
        None => {
            let mut msg = String::new();
            msg.append("No text model configured");
            Err(VeyaError::ModelUnavailable(msg))
        },
    }
}

/// Resolves the active text-generation configuration for text analysis.
/// Fails with `ModelUnavailable` when no text row is active, or with the
/// row's parse error.
pub fn resolve_active_text_config(rows: &Vec<ApiConfigRow>) -> (r: Result<ApiConfig, VeyaError>)
    ensures
        first_row_from(rows@, "text"@, true, 0) == rows@.len() ==> (r matches Err(e) && e
            is ModelUnavailable),
        first_row_from(rows@, "text"@, true, 0) < rows@.len() ==> ({
            let row = rows@[first_row_from(rows@, "text"@, true, 0)];
            &&& (r matches Ok(c) ==> c.wf_from_row(&row))
            &&& (r matches Err(e) ==> e is StorageError)
        }),
{
    match find_row(rows, "text", true) {
        Some(i) => ApiConfig::from_row(&rows[i]),
        None => {
            let mut msg = String::new();
            msg.append("No active text model configured. Please add one in Settings.");
            Err(VeyaError::ModelUnavailable(msg))
        },
    }
}

/// Resolves the configuration for vision post-processing: the first
/// active `vision` row, else the first active `text` row. Fails with
/// `ModelUnavailable` when neither exists, or with the row's parse
/// error.
pub fn resolve_active_vision_config(rows: &Vec<ApiConfigRow>) -> (r: Result<
    ApiConfig,
    VeyaError,
>)
    ensures
        ({
            let v = first_row_from(rows@, "vision"@, true, 0);
            let t = first_row_from(rows@, "text"@, true, 0);
            &&& (v == rows@.len() && t == rows@.len() ==> (r matches Err(e) && e
                is ModelUnavailable))
            &&& (v < rows@.len() ==> (r matches Ok(c) ==> c.wf_from_row(&rows@[v])))
            &&& (v == rows@.len() && t < rows@.len() ==> (r matches Ok(c) ==> c.wf_from_row(
                &rows@[t],
            )))
            &&& (v < rows@.len() || t < rows@.len() ==> (r matches Err(e) ==> e
                is StorageError))
        }),
{
    match find_row(rows, "vision", true) {
        Some(i) => ApiConfig::from_row(&rows[i]),
        None => {
            match find_row(rows, "text", true) {
                Some(i) => ApiConfig::from_row(&rows[i]),
                None => {
                    let mut msg = String::new();
                    msg.append(
                        "No active vision or text model configured. Please add one in Settings.",
                    );
                    Err(VeyaError::ModelUnavailable(msg))
                },
            }
        },
    }
}

/// Resolves every speech-synthesis configuration, in stored order.
/// Fails with `TtsFailed` when none is stored, or with the first row's
/// parse error.
#[verifier::loop_isolation(false)]
pub fn resolve_tts_configs(rows: &Vec<ApiConfigRow>) -> (r: Result<Vec<ApiConfig>, VeyaError>)
    ensures
        r matches Ok(cs) ==> cs@.len() > 0,
        r matches Err(e) ==> e is TtsFailed || e is StorageError,
        (exists|i: int|
            0 <= i < rows@.len() && (#[trigger] rows@[i]).model_type@ == "tts"@) ==> !(r
            matches Err(e) && e is TtsFailed),
        r matches Err(e) && e is TtsFailed ==> (forall|i: int|
            0 <= i < rows@.len() ==> (#[trigger] rows@[i]).model_type@ != "tts"@),
{
    let n = rows.len();
    let mut out: Vec<ApiConfig> = Vec::new();
    let mut i: usize = 0;
    while i < n
        invariant
            0 <= i <= n,
            out@.len() > 0 ==> (exists|k: int|
                0 <= k < rows@.len() && (#[trigger] rows@[k]).model_type@ == "tts"@),
            out@.len() == 0 ==> (forall|k: int|
                0 <= k < i ==> (#[trigger] rows@[k]).model_type@ != "tts"@),
        decreases n - i,
    {
        if str_eq(rows[i].model_type.as_str(), "tts") {
            match ApiConfig::from_row(&rows[i]) {
                Ok(c) => {
                    out.push(c);
                },
                Err(e) => {
                    return Err(e);
                },
            }
        }
        i = i + 1;
    }
    if out.len() == 0 {
        let mut msg = String::new();
        msg.append("No TTS service configured");
        Err(VeyaError::TtsFailed(msg))
    } else {
        Ok(out)
    }
}

proof fn lemma_provider_strings_cover(s: Seq<char>)
    requires
        s != "openai"@,
        s != "anthropic"@,
        s != "elevenlabs"@,
        s != "ollama"@,
        s != "custom"@,
    ensures
        forall|p: ApiProvider| p.spec_str() != s,
{
    assert forall|p: ApiProvider| p.spec_str() != s by {
        match p {
            ApiProvider::Openai => {},
            ApiProvider::Anthropic => {},
            ApiProvider::Elevenlabs => {},
            ApiProvider::Ollama => {},
            ApiProvider::Custom => {},
        }
    }
}

proof fn lemma_model_type_strings_cover(s: Seq<char>)
    requires
        s != "text"@,
        s != "vision"@,
        s != "tts"@,
    ensures
        forall|m: ModelType| m.spec_str() != s,
{
    assert forall|m: ModelType| m.spec_str() != s by {
        match m {
            ModelType::Text => {},
            ModelType::Vision => {},
            ModelType::Tts => {},
        }
    }
}

} // verus!
