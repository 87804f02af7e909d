//! Content blocks: one unit of generated output, on either side of the
//! gateway.

use vstd::prelude::*;

verus! {

/// What a content block holds, as plain text: the model both sides share.
///
/// A block carries a type tag and the payload fields that belong to that
/// tag. A field that does not belong is empty (`text`) or absent.
pub struct BlockView {
    pub content_type: Seq<char>,
    pub text: Seq<char>,
    pub thinking: Option<Seq<char>>,
    pub signature: Option<Seq<char>>,
    pub data: Option<Seq<char>>,
}

/// A content block as the gateway publishes it.
#[derive(Debug, Clone, PartialEq, Eq)]
pub struct ContentBlock {
    pub content_type: String,
    pub text: String,
    pub thinking: Option<String>,
    pub signature: Option<String>,
    pub data: Option<String>,
}

impl DeepView for ContentBlock {
    type V = BlockView;

    open spec fn deep_view(&self) -> BlockView {
        BlockView {
            content_type: self.content_type@,
            text: self.text@,
            thinking: self.thinking.deep_view(),
            signature: self.signature.deep_view(),
            data: self.data.deep_view(),
        }
    }
}

/// A content block as the upstream provider sends it.
#[derive(Debug, Clone, PartialEq, Eq)]
pub struct UpstreamBlock {
    pub content_type: String,
    pub text: String,
    pub thinking: Option<String>,
    pub signature: Option<String>,
    pub data: Option<String>,
}

impl DeepView for UpstreamBlock {
    type V = BlockView;

    open spec fn deep_view(&self) -> BlockView {
        BlockView {
            content_type: self.content_type@,
            text: self.text@,
            thinking: self.thinking.deep_view(),
            signature: self.signature.deep_view(),
            data: self.data.deep_view(),
        }
    }
}

/// A copy of an optional text.
pub fn copy_optional(text: &Option<String>) -> (copy: Option<String>)
    ensures
        copy.deep_view() == text.deep_view(),
{
    match text {
        Some(t) => Some(t.clone()),
        None => None,
    }
}

impl ContentBlock {
    /// The downstream block for an upstream one: every field is carried over
    /// as it is.
    pub fn from_anthropic(block: &UpstreamBlock) -> (out: ContentBlock)
        ensures
            out.deep_view() == block.deep_view(),
    {
        ContentBlock {
            content_type: block.content_type.clone(),
            text: block.text.clone(),
            thinking: copy_optional(&block.thinking),
            signature: copy_optional(&block.signature),
            data: copy_optional(&block.data),
        }
    }
}

/// The downstream blocks for a list of upstream ones, in the same order.
pub fn convert_blocks(blocks: &Vec<UpstreamBlock>) -> (out: Vec<ContentBlock>)
    ensures
        out.deep_view() == blocks.deep_view(),
{
    let mut out: Vec<ContentBlock> = Vec::new();
    let mut i: usize = 0;
    while i < blocks.len()
        invariant
            i <= blocks.len(),
            out.len() == i,
            forall|j: int| 0 <= j < i ==> out@[j].deep_view() == blocks@[j].deep_view(),
        decreases blocks.len() - i,
    {
        out.push(ContentBlock::from_anthropic(&blocks[i]));
        i = i + 1;
    }
    assert(out.deep_view() =~= blocks.deep_view());
    out
}

} // verus!
