//! The two event protocols: what the upstream provider sends while it
//! streams, and what the gateway publishes to its client.

use crate::content::{BlockView, ContentBlock, UpstreamBlock};
use crate::usage::{CombinedUsage, CombinedUsageView, UpstreamUsage};
use vstd::prelude::*;

verus! {

/// A point in time: whole seconds since the Unix epoch, in UTC, and the
/// nanoseconds past that second.
#[derive(Debug, Clone, Copy, PartialEq, Eq)]
pub struct Timestamp {
    pub seconds: i64,
    pub nanos: u32,
}

/// An incremental update to a content block.
#[derive(Debug, Clone, PartialEq, Eq)]
pub struct UpstreamDelta {
    pub delta_type: String,
    pub text: String,
    pub thinking: Option<String>,
    pub signature_delta: Option<String>,
    pub data: Option<String>,
}

/// An [`UpstreamDelta`] as plain values.
pub struct DeltaView {
    pub delta_type: Seq<char>,
    pub text: Seq<char>,
    pub thinking: Option<Seq<char>>,
    pub signature_delta: Option<Seq<char>>,
    pub data: Option<Seq<char>>,
}

impl DeepView for UpstreamDelta {
    type V = DeltaView;

    open spec fn deep_view(&self) -> DeltaView {
        DeltaView {
            delta_type: self.delta_type@,
            text: self.text@,
            thinking: self.thinking.deep_view(),
            signature_delta: self.signature_delta.deep_view(),
            data: self.data.deep_view(),
        }
    }
}

/// One event of the upstream provider's streaming protocol. Every kind the
/// gateway has no use for is `Other`.
#[derive(Debug, Clone, PartialEq, Eq)]
pub enum UpstreamEvent {
    MessageStart { content: Vec<UpstreamBlock> },
    ContentBlockDelta { delta: UpstreamDelta },
    MessageDelta { usage: Option<UpstreamUsage> },
    MessageStop,
    Other,
}

/// An [`UpstreamEvent`] as plain values.
pub enum UpstreamEventView {
    MessageStart { content: Seq<BlockView> },
    ContentBlockDelta { delta: DeltaView },
    MessageDelta { usage: Option<UpstreamUsage> },
    MessageStop,
    Other,
}

impl DeepView for UpstreamEvent {
    type V = UpstreamEventView;

    open spec fn deep_view(&self) -> UpstreamEventView {
        match self {
            UpstreamEvent::MessageStart { content } => UpstreamEventView::MessageStart {
                content: content.deep_view(),
            },
            UpstreamEvent::ContentBlockDelta { delta } => UpstreamEventView::ContentBlockDelta {
                delta: delta.deep_view(),
            },
            UpstreamEvent::MessageDelta { usage } => UpstreamEventView::MessageDelta {
                usage: *usage,
            },
            UpstreamEvent::MessageStop => UpstreamEventView::MessageStop,
            UpstreamEvent::Other => UpstreamEventView::Other,
        }
    }
}

/// What the upstream event source yields: an event, or the failure of the
/// transport or of the protocol, already put into words.
#[derive(Debug, Clone, PartialEq, Eq)]
pub enum UpstreamItem {
    Event(UpstreamEvent),
    Failure(String),
}

/// An [`UpstreamItem`] as plain values.
pub enum UpstreamItemView {
    Event(UpstreamEventView),
    Failure(Seq<char>),
}

impl DeepView for UpstreamItem {
    type V = UpstreamItemView;

    open spec fn deep_view(&self) -> UpstreamItemView {
        match self {
            UpstreamItem::Event(event) => UpstreamItemView::Event(event.deep_view()),
            UpstreamItem::Failure(message) => UpstreamItemView::Failure(message@),
        }
    }
}

/// One event of the downstream protocol.
///
/// A stream opens with `Start` and closes with exactly one of `Done` and
/// `Error`; `Content`, `Usage` and `MessageStop` come between them.
#[derive(Debug, Clone, PartialEq, Eq)]
pub enum DownstreamEvent {
    Start { created: Timestamp },
    Content { content: Vec<ContentBlock> },
    Usage { usage: CombinedUsage },
    MessageStop,
    Error { message: String, code: u16 },
    Done,
}

/// A [`DownstreamEvent`] as plain values.
pub enum DownstreamEventView {
    Start { created: Timestamp },
    Content { content: Seq<BlockView> },
    Usage { usage: CombinedUsageView },
    MessageStop,
    Error { message: Seq<char>, code: u16 },
    Done,
}

impl DeepView for DownstreamEvent {
    type V = DownstreamEventView;

    open spec fn deep_view(&self) -> DownstreamEventView {
        match self {
            DownstreamEvent::Start { created } => DownstreamEventView::Start { created: *created },
            DownstreamEvent::Content { content } => DownstreamEventView::Content {
                content: content.deep_view(),
            },
            DownstreamEvent::Usage { usage } => DownstreamEventView::Usage {
                usage: usage.deep_view(),
            },
            DownstreamEvent::MessageStop => DownstreamEventView::MessageStop,
            DownstreamEvent::Error { message, code } => DownstreamEventView::Error {
                message: message@,
                code: *code,
            },
            DownstreamEvent::Done => DownstreamEventView::Done,
        }
    }
}

/// The name under which an event travels.
pub open spec fn event_name(event: DownstreamEventView) -> Seq<char> {
    match event {
        DownstreamEventView::Start { .. } => "start"@,
        DownstreamEventView::Content { .. } => "content"@,
        DownstreamEventView::Usage { .. } => "usage"@,
        DownstreamEventView::MessageStop => "message_stop"@,
        DownstreamEventView::Error { .. } => "error"@,
        DownstreamEventView::Done => "done"@,
    }
}

/// An event that closes a stream.
pub open spec fn is_terminal(event: DownstreamEventView) -> bool {
    event is Done || event is Error
}

impl DownstreamEvent {
    /// The name under which this event travels.
    pub fn name(&self) -> (name: &'static str)
        ensures
            name@ == event_name(self.deep_view()),
    {
        match self {
            DownstreamEvent::Start { .. } => "start",
            DownstreamEvent::Content { .. } => "content",
            DownstreamEvent::Usage { .. } => "usage",
            DownstreamEvent::MessageStop => "message_stop",
            DownstreamEvent::Error { .. } => "error",
            DownstreamEvent::Done => "done",
        }
    }

    /// Whether this event closes a stream.
    pub fn closes_stream(&self) -> (closes: bool)
        ensures
            closes == is_terminal(self.deep_view()),
    {
        match self {
            DownstreamEvent::Done => true,
            DownstreamEvent::Error { .. } => true,
            _ => false,
        }
    }
}

} // verus!
