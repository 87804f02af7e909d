//! Request-level failures: what can go wrong before any upstream call.

use vstd::prelude::*;

verus! {

/// Why a request was turned away before the upstream provider was called.
#[derive(Debug, Clone, PartialEq, Eq)]
pub enum ApiError {
    /// A required header is not there.
    MissingHeader { header: String },
    /// The request is malformed.
    BadRequest { message: String },
    /// The system prompt is given in more than one place.
    InvalidSystemPrompt,
}

/// An [`ApiError`] as plain values.
pub enum ApiErrorView {
    MissingHeader { header: Seq<char> },
    BadRequest { message: Seq<char> },
    InvalidSystemPrompt,
}

impl DeepView for ApiError {
    type V = ApiErrorView;

    open spec fn deep_view(&self) -> ApiErrorView {
        match self {
            ApiError::MissingHeader { header } => ApiErrorView::MissingHeader { header: header@ },
            ApiError::BadRequest { message } => ApiErrorView::BadRequest { message: message@ },
            ApiError::InvalidSystemPrompt => ApiErrorView::InvalidSystemPrompt,
        }
    }
}

} // verus!
