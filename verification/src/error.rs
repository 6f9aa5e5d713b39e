//! Closed failure taxonomy shared by every component.
//!
//! Each variant carries a human-readable detail string. Whether an error
//! may be retried is a pure function of the variant alone.

use vstd::prelude::*;

verus! {

/// The closed set of error kinds every failure path resolves to.
#[derive(Debug, Clone)]
pub enum VeyaError {
    InvalidApiKey(String),
    InsufficientBalance(String),
    NetworkTimeout(String),
    ModelUnavailable(String),
    OcrFailed(String),
    TtsFailed(String),
    StorageError(String),
    PermissionDenied(String),
    Generic(String),
}

impl VeyaError {
    /// Retryability as a spec-level predicate on the variant tag.
    pub open spec fn spec_is_retryable(&self) -> bool {
        match self {
            VeyaError::NetworkTimeout(_) => true,
            VeyaError::ModelUnavailable(_) => true,
            VeyaError::TtsFailed(_) => true,
            _ => false,
        }
    }

    /// Two errors carry the same variant tag (detail strings may differ).
    pub open spec fn same_tag(&self, other: &VeyaError) -> bool {
        match (self, other) {
            (VeyaError::InvalidApiKey(_), VeyaError::InvalidApiKey(_)) => true,
            (VeyaError::InsufficientBalance(_), VeyaError::InsufficientBalance(_)) => true,
            (VeyaError::NetworkTimeout(_), VeyaError::NetworkTimeout(_)) => true,
            (VeyaError::ModelUnavailable(_), VeyaError::ModelUnavailable(_)) => true,
            (VeyaError::OcrFailed(_), VeyaError::OcrFailed(_)) => true,
            (VeyaError::TtsFailed(_), VeyaError::TtsFailed(_)) => true,
            (VeyaError::StorageError(_), VeyaError::StorageError(_)) => true,
            (VeyaError::PermissionDenied(_), VeyaError::PermissionDenied(_)) => true,
            (VeyaError::Generic(_), VeyaError::Generic(_)) => true,
            _ => false,
        }
    }

    /// The detail string carried by the variant.
    pub open spec fn spec_detail(&self) -> Seq<char> {
        match self {
            VeyaError::InvalidApiKey(s) => s@,
            VeyaError::InsufficientBalance(s) => s@,
            VeyaError::NetworkTimeout(s) => s@,
            VeyaError::ModelUnavailable(s) => s@,
            VeyaError::OcrFailed(s) => s@,
            VeyaError::TtsFailed(s) => s@,
            VeyaError::StorageError(s) => s@,
            VeyaError::PermissionDenied(s) => s@,
            VeyaError::Generic(s) => s@,
        }
    }

    /// The user-visible rendering: a fixed per-kind prefix followed by
    /// the detail string.
    pub open spec fn spec_message(&self) -> Seq<char> {
        match self {
            VeyaError::InvalidApiKey(s) => "API Key 无效: "@ + s@,
            VeyaError::InsufficientBalance(s) => "余额不足: "@ + s@,
            VeyaError::NetworkTimeout(s) => "网络超时: "@ + s@,
            VeyaError::ModelUnavailable(s) => "模型不可用: "@ + s@,
            VeyaError::OcrFailed(s) => "OCR 识别失败: "@ + s@,
            VeyaError::TtsFailed(s) => "TTS 生成失败: "@ + s@,
            VeyaError::StorageError(s) => "存储错误: "@ + s@,
            VeyaError::PermissionDenied(s) => "系统权限不足: "@ + s@,
            VeyaError::Generic(s) => s@,
        }
    }

    /// Renders the error for display.
    pub fn message(&self) -> (r: String)
        ensures
            r@ == self.spec_message(),
    {
        let (prefix, detail) = match self {
            VeyaError::InvalidApiKey(s) => ("API Key 无效: ", s),
            VeyaError::InsufficientBalance(s) => ("余额不足: ", s),
            VeyaError::NetworkTimeout(s) => ("网络超时: ", s),
            VeyaError::ModelUnavailable(s) => ("模型不可用: ", s),
            VeyaError::OcrFailed(s) => ("OCR 识别失败: ", s),
            VeyaError::TtsFailed(s) => ("TTS 生成失败: ", s),
            VeyaError::StorageError(s) => ("存储错误: ", s),
            VeyaError::PermissionDenied(s) => ("系统权限不足: ", s),
            VeyaError::Generic(s) => ("", s),
        };
        let mut r = String::new();
        r.append(prefix);
        r.append(detail.as_str());
        proof {
            if self is Generic {
                reveal_strlit("");
                assert(""@.len() == 0);
                assert(r@ =~= self.spec_message());
            }
        }
        r
    }

    /// Returns true if this error kind is eligible for automatic retry.
    /// `NetworkTimeout`, `ModelUnavailable` and `TtsFailed` are retryable;
    /// all other kinds are terminal.
    pub fn is_retryable(&self) -> (r: bool)
        ensures
            r == self.spec_is_retryable(),
    {
        match self {
            VeyaError::NetworkTimeout(_) => true,
            VeyaError::ModelUnavailable(_) => true,
            VeyaError::TtsFailed(_) => true,
            _ => false,
        }
    }
}

} // verus!
