//! The aggregated response of a request that is not streamed: one upstream
//! call, one document.

use crate::content::{convert_blocks, BlockView, ContentBlock, UpstreamBlock};
use crate::events::Timestamp;
use crate::json::{json_model, JsonModel};
use crate::pricing::{Config, PricingTableView};
use crate::usage::{priced_usage, CombinedUsage, CombinedUsageView, UpstreamUsage};
use vstd::prelude::*;

verus! {

/// The status reported for an upstream response that arrived: the call
/// that delivers it hands over no status of its own.
pub const UPSTREAM_STATUS: u16 = 200;

/// The complete response of the upstream provider.
#[derive(Debug, Clone, PartialEq, Eq)]
pub struct UpstreamResponse {
    pub model: String,
    pub content: Vec<UpstreamBlock>,
    pub usage: UpstreamUsage,
}

/// An [`UpstreamResponse`] as plain values.
pub struct UpstreamResponseView {
    pub model: Seq<char>,
    pub content: Seq<BlockView>,
    pub usage: UpstreamUsage,
}

impl DeepView for UpstreamResponse {
    type V = UpstreamResponseView;

    open spec fn deep_view(&self) -> UpstreamResponseView {
        UpstreamResponseView {
            model: self.model@,
            content: self.content.deep_view(),
            usage: self.usage,
        }
    }
}

/// The upstream response as it came, for a caller who asked to see it.
#[derive(Debug, Clone, PartialEq, Eq)]
pub struct ProviderResponse {
    pub status: u16,
    pub headers: Vec<(String, String)>,
    pub body: serde_json::Value,
}

/// A [`ProviderResponse`] as plain values; the body by what the document
/// holds.
pub struct ProviderResponseView {
    pub status: u16,
    pub headers: Seq<(Seq<char>, Seq<char>)>,
    pub body: JsonModel,
}

impl DeepView for ProviderResponse {
    type V = ProviderResponseView;

    open spec fn deep_view(&self) -> ProviderResponseView {
        ProviderResponseView {
            status: self.status,
            headers: self.headers.deep_view(),
            body: json_model(self.body),
        }
    }
}

/// The one document that answers a request that is not streamed.
#[derive(Debug, Clone, PartialEq, Eq)]
pub struct ApiResponse {
    pub created: Timestamp,
    pub content: Vec<ContentBlock>,
    pub provider_response: Option<ProviderResponse>,
    pub usage: CombinedUsage,
}

/// An [`ApiResponse`] as plain values.
pub struct ApiResponseView {
    pub created: Timestamp,
    pub content: Seq<BlockView>,
    pub provider_response: Option<ProviderResponseView>,
    pub usage: CombinedUsageView,
}

impl DeepView for ApiResponse {
    type V = ApiResponseView;

    open spec fn deep_view(&self) -> ApiResponseView {
        ApiResponseView {
            created: self.created,
            content: self.content.deep_view(),
            provider_response: self.provider_response.deep_view(),
            usage: self.usage.deep_view(),
        }
    }
}

/// The document for a complete upstream response.
///
/// Every content block is carried over as it is, in order. The usage is the
/// response's final counts, priced once, as the model that the response
/// names. The raw response is attached if and only if the caller asked for
/// verbose output; it comes with the status of an answered call and without
/// headers, which the call that delivers the response does not hand over.
pub open spec fn aggregate_spec(
    created: Timestamp,
    response: UpstreamResponseView,
    raw_body: JsonModel,
    verbose: bool,
    table: PricingTableView,
) -> ApiResponseView {
    ApiResponseView {
        created,
        content: response.content,
        provider_response: if verbose {
            Some(
                ProviderResponseView {
                    status: UPSTREAM_STATUS,
                    headers: Seq::empty(),
                    body: raw_body,
                },
            )
        } else {
            None
        },
        usage: priced_usage(response.model, response.usage, table),
    }
}

/// Builds the document that answers a request that is not streamed.
///
/// `created` is the time of the answer and `raw_body` the upstream response
/// as a JSON document; the latter is used only when `verbose` is set.
pub fn aggregate_response(
    created: Timestamp,
    response: &UpstreamResponse,
    raw_body: serde_json::Value,
    verbose: bool,
    config: &Config,
) -> (out: ApiResponse)
    ensures
        out.deep_view() == aggregate_spec(
            created,
            response.deep_view(),
            json_model(raw_body),
            verbose,
            config.pricing.deep_view(),
        ),
{
    let usage = CombinedUsage::from_anthropic(response.model.as_str(), response.usage, config);
    let content = convert_blocks(&response.content);
    let provider_response = if verbose {
        let headers: Vec<(String, String)> = Vec::new();
        assert(headers.deep_view() =~= Seq::empty());
        Some(ProviderResponse { status: UPSTREAM_STATUS, headers, body: raw_body })
    } else {
        None
    };
    ApiResponse { created, content, provider_response, usage }
}

} // verus!
