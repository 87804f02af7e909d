//! Usage records: the token counts of one request and what they cost.

use crate::pricing::{
    calculate_anthropic_cost, cost_spec, format_cost, format_cost_spec, Config, PricingTableView,
};
use vstd::prelude::*;

verus! {

/// Token counts as the upstream provider reports them.
#[derive(Debug, Clone, Copy, PartialEq, Eq)]
pub struct UpstreamUsage {
    pub input_tokens: u32,
    pub output_tokens: u32,
    pub cache_creation_input_tokens: u32,
    pub cache_read_input_tokens: u32,
}

/// The token counts of one request, their total and their cost as written for
/// the client. Built once and never changed.
#[derive(Debug, Clone, PartialEq, Eq)]
pub struct UsageRecord {
    pub input_tokens: u32,
    pub output_tokens: u32,
    pub cached_write_tokens: u32,
    pub cached_read_tokens: u32,
    pub total_tokens: u64,
    pub total_cost: String,
}

/// A [`UsageRecord`] as plain values.
pub struct UsageRecordView {
    pub input_tokens: nat,
    pub output_tokens: nat,
    pub cached_write_tokens: nat,
    pub cached_read_tokens: nat,
    pub total_tokens: nat,
    pub total_cost: Seq<char>,
}

impl DeepView for UsageRecord {
    type V = UsageRecordView;

    open spec fn deep_view(&self) -> UsageRecordView {
        UsageRecordView {
            input_tokens: self.input_tokens as nat,
            output_tokens: self.output_tokens as nat,
            cached_write_tokens: self.cached_write_tokens as nat,
            cached_read_tokens: self.cached_read_tokens as nat,
            total_tokens: self.total_tokens as nat,
            total_cost: self.total_cost@,
        }
    }
}

/// The usage object of the downstream protocol: the cost, and the record it
/// was computed from.
#[derive(Debug, Clone, PartialEq, Eq)]
pub struct CombinedUsage {
    pub total_cost: String,
    pub breakdown: UsageRecord,
}

/// A [`CombinedUsage`] as plain values.
pub struct CombinedUsageView {
    pub total_cost: Seq<char>,
    pub breakdown: UsageRecordView,
}

impl DeepView for CombinedUsage {
    type V = CombinedUsageView;

    open spec fn deep_view(&self) -> CombinedUsageView {
        CombinedUsageView {
            total_cost: self.total_cost@,
            breakdown: self.breakdown.deep_view(),
        }
    }
}

/// The usage object for the counts `usage`, priced as `model`.
///
/// The counts are carried over, the total is input plus output, and both cost
/// fields hold the cost of the four counts under the prices of `model`,
/// written as [`format_cost_spec`] says.
pub open spec fn priced_usage(
    model: Seq<char>,
    usage: UpstreamUsage,
    table: PricingTableView,
) -> CombinedUsageView {
    let cost = format_cost_spec(
        cost_spec(
            model,
            usage.input_tokens as nat,
            usage.output_tokens as nat,
            usage.cache_creation_input_tokens as nat,
            usage.cache_read_input_tokens as nat,
            table,
        ),
    );
    CombinedUsageView {
        total_cost: cost,
        breakdown: UsageRecordView {
            input_tokens: usage.input_tokens as nat,
            output_tokens: usage.output_tokens as nat,
            cached_write_tokens: usage.cache_creation_input_tokens as nat,
            cached_read_tokens: usage.cache_read_input_tokens as nat,
            total_tokens: (usage.input_tokens + usage.output_tokens) as nat,
            total_cost: cost,
        },
    }
}

impl CombinedUsage {
    /// Builds the usage object for upstream counts, priced as `model`.
    pub fn from_anthropic(model: &str, usage: UpstreamUsage, config: &Config) -> (out:
        CombinedUsage)
        ensures
            out.deep_view() == priced_usage(model@, usage, config.pricing.deep_view()),
    {
        let cost: u128 = calculate_anthropic_cost(
            model,
            usage.input_tokens,
            usage.output_tokens,
            usage.cache_creation_input_tokens,
            usage.cache_read_input_tokens,
            config,
        );
        let written: String = format_cost(cost);
        CombinedUsage {
            total_cost: written.clone(),
            breakdown: UsageRecord {
                input_tokens: usage.input_tokens,
                output_tokens: usage.output_tokens,
                cached_write_tokens: usage.cache_creation_input_tokens,
                cached_read_tokens: usage.cache_read_input_tokens,
                total_tokens: usage.input_tokens as u64 + usage.output_tokens as u64,
                total_cost: written,
            },
        }
    }
}

} // verus!
