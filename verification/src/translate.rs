//! The event translator: one upstream event in, at most one downstream event
//! out.

use crate::content::{convert_blocks, copy_optional, BlockView, ContentBlock};
use crate::events::{
    DeltaView, DownstreamEvent, DownstreamEventView, UpstreamDelta, UpstreamEvent,
    UpstreamEventView,
};
use crate::pricing::{Config, ConfigView};
use crate::usage::{priced_usage, CombinedUsage};
use vstd::prelude::*;
use vstd::string::StringExecFns;

verus! {

/// The type tag of a delta that carries reasoning.
pub open spec fn thinking_tag() -> Seq<char> {
    "thinking"@
}

/// The block that a delta becomes.
///
/// A delta tagged as thinking fills thinking, signature and data, and leaves
/// the text empty. A delta with any other tag fills text, signature and data,
/// and leaves thinking absent.
pub open spec fn block_of_delta(delta: DeltaView) -> BlockView {
    if delta.delta_type == thinking_tag() {
        BlockView {
            content_type: delta.delta_type,
            text: Seq::empty(),
            thinking: delta.thinking,
            signature: delta.signature_delta,
            data: delta.data,
        }
    } else {
        BlockView {
            content_type: delta.delta_type,
            text: delta.text,
            thinking: None,
            signature: delta.signature_delta,
            data: delta.data,
        }
    }
}

/// What an upstream event becomes downstream, if anything.
///
/// - A message start with content becomes one content event with all its
///   blocks; one without content becomes nothing.
/// - A block delta always becomes one content event with one block.
/// - A message delta with usage becomes one usage event; one without becomes
///   nothing. The upstream provider does not restate the model on these
///   events, so the usage is priced as the model that the configuration
///   names as the latest one: the cost of a usage event is an estimate.
/// - A message stop becomes a message stop.
/// - Any other kind becomes nothing.
pub open spec fn translate_spec(event: UpstreamEventView, config: ConfigView) -> Option<
    DownstreamEventView,
> {
    match event {
        UpstreamEventView::MessageStart { content } => if content.len() == 0 {
            None
        } else {
            Some(DownstreamEventView::Content { content })
        },
        UpstreamEventView::ContentBlockDelta { delta } => Some(
            DownstreamEventView::Content { content: seq![block_of_delta(delta)] },
        ),
        UpstreamEventView::MessageDelta { usage: Some(usage) } => Some(
            DownstreamEventView::Usage {
                usage: priced_usage(config.latest_model, usage, config.pricing),
            },
        ),
        UpstreamEventView::MessageDelta { usage: None } => None,
        UpstreamEventView::MessageStop => Some(DownstreamEventView::MessageStop),
        UpstreamEventView::Other => None,
    }
}

/// Builds the block that a delta becomes.
pub fn delta_block(delta: &UpstreamDelta) -> (block: ContentBlock)
    ensures
        block.deep_view() == block_of_delta(delta.deep_view()),
{
    let tag: String = String::from_str("thinking");
    if delta.delta_type == tag {
        ContentBlock {
            content_type: delta.delta_type.clone(),
            text: String::new(),
            thinking: copy_optional(&delta.thinking),
            signature: copy_optional(&delta.signature_delta),
            data: copy_optional(&delta.data),
        }
    } else {
        ContentBlock {
            content_type: delta.delta_type.clone(),
            text: delta.text.clone(),
            thinking: None,
            signature: copy_optional(&delta.signature_delta),
            data: copy_optional(&delta.data),
        }
    }
}

/// Translates one upstream event.
pub fn translate(event: &UpstreamEvent, config: &Config) -> (out: Option<DownstreamEvent>)
    ensures
        out.deep_view() == translate_spec(event.deep_view(), config.deep_view()),
{
    match event {
        UpstreamEvent::MessageStart { content } => {
            if content.len() == 0 {
                None
            } else {
                Some(DownstreamEvent::Content { content: convert_blocks(content) })
            }
        },
        UpstreamEvent::ContentBlockDelta { delta } => {
            let mut content: Vec<ContentBlock> = Vec::new();
            content.push(delta_block(delta));
            assert(content.deep_view() =~= seq![block_of_delta(delta.deep_view())]);
            Some(DownstreamEvent::Content { content })
        },
        UpstreamEvent::MessageDelta { usage: Some(usage) } => {
            Some(
                DownstreamEvent::Usage {
                    usage: CombinedUsage::from_anthropic(
                        config.latest_model.as_str(),
                        *usage,
                        config,
                    ),
                },
            )
        },
        UpstreamEvent::MessageDelta { usage: None } => None,
        UpstreamEvent::MessageStop => Some(DownstreamEvent::MessageStop),
        UpstreamEvent::Other => None,
    }
}

/// A message start without content becomes no event.
pub proof fn lemma_empty_message_start_is_silent(config: ConfigView)
    ensures
        translate_spec(UpstreamEventView::MessageStart { content: Seq::empty() }, config) is None,
{
}

/// A message start with content becomes exactly one content event, which
/// carries each of its blocks: one block in, one event with one block out.
pub proof fn lemma_message_start_carries_its_blocks(content: Seq<BlockView>, config: ConfigView)
    requires
        content.len() > 0,
    ensures
        translate_spec(UpstreamEventView::MessageStart { content }, config) == Some(
            DownstreamEventView::Content { content },
        ),
{
}

/// A delta always becomes one content event with one block. If the delta is
/// tagged as thinking, the block's text is empty; if it has any other tag,
/// the block's thinking is absent.
pub proof fn lemma_delta_fills_text_or_thinking(delta: DeltaView, config: ConfigView)
    ensures
        translate_spec(UpstreamEventView::ContentBlockDelta { delta }, config) == Some(
            DownstreamEventView::Content { content: seq![block_of_delta(delta)] },
        ),
        delta.delta_type == thinking_tag() ==> block_of_delta(delta).text.len() == 0,
        delta.delta_type != thinking_tag() ==> block_of_delta(delta).thinking is None,
{
}

} // verus!
