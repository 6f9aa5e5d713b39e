//! Application settings: defaults, and the pure merge of stored string
//! values over those defaults. Reading the stored values from, and
//! writing them to, the metadata store is the caller's I/O.

use vstd::prelude::*;

use crate::text::all_digits;
use crate::text::dec_spec;
use crate::text::digits_val;
use crate::text::parse_u64;
use crate::text::str_eq;
use crate::text::u64_to_dec;

verus! {

broadcast use vstd::string::group_string_axioms;

/// The settings every command invocation runs under.
#[derive(Debug, Clone)]
pub struct AppSettings {
    pub ai_completion_enabled: bool,
    pub cache_max_size_mb: u64,
    pub cache_auto_clean_days: u32,
    pub retry_count: u32,
    pub shortcut_capture: String,
    pub locale: String,
}

impl AppSettings {
    /// The built-in defaults.
    pub open spec fn spec_default(&self) -> bool {
        &&& self.ai_completion_enabled == true
        &&& self.cache_max_size_mb == 500
        &&& self.cache_auto_clean_days == 30
        &&& self.retry_count == 3
        &&& self.shortcut_capture@ == "CommandOrControl+Shift+S"@
        &&& self.locale@ == "zh-CN"@
    }

    /// Merges the stored string values over the defaults: a missing or
    /// unparseable value falls back to its default. Booleans are stored
    /// as `true`/`false`, numbers in decimal.
    pub fn from_stored(
        ai_completion_enabled: Option<String>,
        cache_max_size_mb: Option<String>,
        cache_auto_clean_days: Option<String>,
        retry_count: Option<String>,
        shortcut_capture: Option<String>,
        locale: Option<String>,
    ) -> (r: AppSettings)
        ensures
            ({
                match ai_completion_enabled {
                    Some(v) => r.ai_completion_enabled == (v@ == "true"@),
                    None => r.ai_completion_enabled == true,
                }
            }),
            ({
                match cache_max_size_mb {
                    Some(v) => r.cache_max_size_mb as int == spec_parsed_u64(v@, 500),
                    None => r.cache_max_size_mb == 500,
                }
            }),
            ({
                match cache_auto_clean_days {
                    Some(v) => r.cache_auto_clean_days as int == spec_parsed_u32(v@, 30),
                    None => r.cache_auto_clean_days == 30,
                }
            }),
            ({
                match retry_count {
                    Some(v) => r.retry_count as int == spec_parsed_u32(v@, 3),
                    None => r.retry_count == 3,
                }
            }),
            ({
                match shortcut_capture {
                    Some(v) => r.shortcut_capture@ == v@,
                    None => r.shortcut_capture@ == "CommandOrControl+Shift+S"@,
                }
            }),
            ({
                match locale {
                    Some(v) => r.locale@ == v@,
                    None => r.locale@ == "zh-CN"@,
                }
            }),
    {
        let ai = match &ai_completion_enabled {
            Some(v) => str_eq(v.as_str(), "true"),
            None => true,
        };
        let size: u64 = match &cache_max_size_mb {
            Some(v) => {
                proof {
                    if all_digits(v@) {
                        crate::text::lemma_digits_val_nonneg(v@);
                    }
                }
                match parse_u64(v.as_str()) {
                    Some(n) => n,
                    None => 500,
                }
            },
            None => 500,
        };
        let days: u32 = match &cache_auto_clean_days {
            Some(v) => parse_u32_or(v.as_str(), 30),
            None => 30,
        };
        let retries: u32 = match &retry_count {
            Some(v) => parse_u32_or(v.as_str(), 3),
            None => 3,
        };
        let shortcut = match shortcut_capture {
            Some(v) => v,
            None => lit_string("CommandOrControl+Shift+S"),
        };
        let loc = match locale {
            Some(v) => v,
            None => lit_string("zh-CN"),
        };
        AppSettings {
            ai_completion_enabled: ai,
            cache_max_size_mb: size,
            cache_auto_clean_days: days,
            retry_count: retries,
            shortcut_capture: shortcut,
            locale: loc,
        }
    }

    /// The key/value string pairs under which these settings persist:
    /// `ai_completion_enabled`, `cache_max_size_mb`,
    /// `cache_auto_clean_days`, `retry_count`, `shortcut_capture`,
    /// `locale`, in that order.
    pub fn to_pairs(&self) -> (r: Vec<(String, String)>)
        ensures
            r@.len() == 6,
            r@[0].0@ == "ai_completion_enabled"@ && r@[0].1@ == (if self.ai_completion_enabled {
                "true"@
            } else {
                "false"@
            }),
            r@[1].0@ == "cache_max_size_mb"@ && r@[1].1@ == dec_spec(
                self.cache_max_size_mb as nat,
            ),
            r@[2].0@ == "cache_auto_clean_days"@ && r@[2].1@ == dec_spec(
                self.cache_auto_clean_days as nat,
            ),
            r@[3].0@ == "retry_count"@ && r@[3].1@ == dec_spec(self.retry_count as nat),
            r@[4].0@ == "shortcut_capture"@ && r@[4].1@ == self.shortcut_capture@,
            r@[5].0@ == "locale"@ && r@[5].1@ == self.locale@,
    {
        let mut r: Vec<(String, String)> = Vec::new();
        let flag = if self.ai_completion_enabled {
            lit_string("true")
        } else {
            lit_string("false")
        };
        r.push((lit_string("ai_completion_enabled"), flag));
        r.push((lit_string("cache_max_size_mb"), u64_to_dec(self.cache_max_size_mb)));
        r.push((lit_string("cache_auto_clean_days"), u64_to_dec(self.cache_auto_clean_days as u64)));
        r.push((lit_string("retry_count"), u64_to_dec(self.retry_count as u64)));
        r.push((lit_string("shortcut_capture"), self.shortcut_capture.clone()));
        r.push((lit_string("locale"), self.locale.clone()));
        r
    }
}

impl Default for AppSettings {
    /// The defaults used before anything is stored.
    fn default() -> (r: Self)
        ensures
            r.spec_default(),
    {
        AppSettings {
            ai_completion_enabled: true,
            cache_max_size_mb: 500,
            cache_auto_clean_days: 30,
            retry_count: 3,
            shortcut_capture: lit_string("CommandOrControl+Shift+S"),
            locale: lit_string("zh-CN"),
        }
    }
}

/// The value a stored decimal string denotes, or the default when it is
/// not a decimal or does not fit in `u64`.
pub open spec fn spec_parsed_u64(s: Seq<char>, default: int) -> int {
    if s.len() > 0 && all_digits(s) && digits_val(s) <= u64::MAX {
        digits_val(s)
    } else {
        default
    }
}

/// As `spec_parsed_u64`, against the `u32` range.
pub open spec fn spec_parsed_u32(s: Seq<char>, default: int) -> int {
    if s.len() > 0 && all_digits(s) && digits_val(s) <= u32::MAX {
        digits_val(s)
    } else {
        default
    }
}

/// Parses a decimal `u32`, falling back to a default.
fn parse_u32_or(s: &str, default: u32) -> (r: u32)
    ensures
        r as int == spec_parsed_u32(s@, default as int),
{
    proof {
        if all_digits(s@) {
            crate::text::lemma_digits_val_nonneg(s@);
        }
    }
    match parse_u64(s) {
        Some(n) => {
            if n <= u32::MAX as u64 {
                n as u32
            } else {
                default
            }
        },
        None => default,
    }
}

/// Builds an owned `String` from a literal.
fn lit_string(s: &str) -> (r: String)
    ensures
        r@ == s@,
{
    let mut r = String::new();
    r.append(s);
    r
}

} // verus!
