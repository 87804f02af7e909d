//! The stream orchestrator: the lifecycle of one client-facing stream.
//!
//! The orchestrator is a state machine. It is told that the stream opens,
//! then of each item the upstream source yields, then that the source is
//! exhausted, and answers each time with the event to publish, if any. Waiting
//! for the upstream source and delivering to the client are the caller's part.

use crate::events::{
    DownstreamEvent, DownstreamEventView, Timestamp, UpstreamEventView, UpstreamItem,
    UpstreamItemView,
};
use crate::pricing::{Config, ConfigView};
use crate::translate::{translate, translate_spec};
use vstd::prelude::*;

verus! {

/// The code that an error event carries when the upstream source fails.
pub const UPSTREAM_FAILURE_CODE: u16 = 500;

/// Where a stream stands in its life.
#[derive(Debug, Clone, Copy, PartialEq, Eq)]
pub enum StreamPhase {
    /// Nothing was published yet.
    Idle,
    /// The start event was published; no upstream event was seen.
    Started,
    /// At least one upstream event was seen.
    Streaming,
    /// The upstream source ended and the done event was published.
    Completed,
    /// The upstream source failed and the error event was published.
    Failed,
}

/// The stream is open: it takes upstream items and can still be closed.
pub open spec fn is_live(phase: StreamPhase) -> bool {
    phase is Started || phase is Streaming
}

/// An event that travels between the start and the end of a stream.
pub open spec fn is_payload(event: DownstreamEventView) -> bool {
    event is Content || event is Usage || event is MessageStop
}

/// The events published for one answer of the machine: one or none.
pub open spec fn emitted(event: Option<DownstreamEventView>) -> Seq<DownstreamEventView> {
    match event {
        Some(e) => seq![e],
        None => Seq::empty(),
    }
}

/// Opening: an idle stream starts and publishes the start event. In any other
/// phase nothing happens.
pub open spec fn on_open(phase: StreamPhase, created: Timestamp) -> (
    StreamPhase,
    Option<DownstreamEventView>,
) {
    if phase is Idle {
        (StreamPhase::Started, Some(DownstreamEventView::Start { created }))
    } else {
        (phase, None)
    }
}

/// One upstream item: a live stream translates an event and goes on, and
/// answers a failure with the error event and fails. In any other phase
/// nothing happens.
pub open spec fn on_item(phase: StreamPhase, item: UpstreamItemView, config: ConfigView) -> (
    StreamPhase,
    Option<DownstreamEventView>,
) {
    if is_live(phase) {
        match item {
            UpstreamItemView::Event(event) => (StreamPhase::Streaming, translate_spec(event, config)),
            UpstreamItemView::Failure(message) => (
                StreamPhase::Failed,
                Some(DownstreamEventView::Error { message, code: UPSTREAM_FAILURE_CODE }),
            ),
        }
    } else {
        (phase, None)
    }
}

/// Exhaustion of the upstream source: a live stream publishes the done event
/// and is complete. In any other phase nothing happens.
pub open spec fn on_exhausted(phase: StreamPhase) -> (StreamPhase, Option<DownstreamEventView>) {
    if is_live(phase) {
        (StreamPhase::Completed, Some(DownstreamEventView::Done))
    } else {
        (phase, None)
    }
}

/// The phase of a started stream after `items`, and what it published for
/// them, in order.
pub open spec fn after_items(items: Seq<UpstreamItemView>, config: ConfigView) -> (
    StreamPhase,
    Seq<DownstreamEventView>,
)
    decreases items.len(),
{
    if items.len() == 0 {
        (StreamPhase::Started, Seq::empty())
    } else {
        let before = after_items(items.drop_last(), config);
        let step = on_item(before.0, items.last(), config);
        (step.0, before.1 + emitted(step.1))
    }
}

/// Everything one stream publishes when the upstream source yields `items`
/// and then ends: the start event, what the items give, and the answer to
/// exhaustion.
pub open spec fn transcript(
    created: Timestamp,
    items: Seq<UpstreamItemView>,
    config: ConfigView,
) -> Seq<DownstreamEventView> {
    let run = after_items(items, config);
    seq![DownstreamEventView::Start { created }] + run.1 + emitted(on_exhausted(run.0).1)
}

/// What a run of upstream events becomes downstream, in arrival order.
pub open spec fn translated(events: Seq<UpstreamEventView>, config: ConfigView) -> Seq<
    DownstreamEventView,
>
    decreases events.len(),
{
    if events.len() == 0 {
        Seq::empty()
    } else {
        translated(events.drop_last(), config) + emitted(translate_spec(events.last(), config))
    }
}

/// A run of upstream events as items of a source that does not fail.
pub open spec fn as_items(events: Seq<UpstreamEventView>) -> Seq<UpstreamItemView> {
    events.map_values(|event: UpstreamEventView| UpstreamItemView::Event(event))
}

/// The orchestrator of one stream. It holds its own copy of the
/// configuration: nothing is shared between streams.
#[derive(Debug, Clone, PartialEq, Eq)]
pub struct StreamOrchestrator {
    phase: StreamPhase,
    config: Config,
}

impl StreamOrchestrator {
    /// The phase the stream is in.
    pub closed spec fn spec_phase(&self) -> StreamPhase {
        self.phase
    }

    /// The configuration under which events are translated.
    pub closed spec fn settings(&self) -> ConfigView {
        self.config.deep_view()
    }

    /// An orchestrator for a stream that was not opened yet.
    pub fn new(config: Config) -> (orchestrator: StreamOrchestrator)
        ensures
            orchestrator.spec_phase() is Idle,
            orchestrator.settings() == config.deep_view(),
    {
        StreamOrchestrator { phase: StreamPhase::Idle, config }
    }

    /// The phase the stream is in.
    #[verifier::when_used_as_spec(spec_phase)]
    pub fn phase(&self) -> (phase: StreamPhase)
        ensures
            phase == self.spec_phase(),
    {
        self.phase
    }

    fn live(&self) -> (live: bool)
        ensures
            live == is_live(self.phase),
    {
        match self.phase {
            StreamPhase::Started => true,
            StreamPhase::Streaming => true,
            _ => false,
        }
    }

    /// Opens the stream at the time `created`.
    pub fn open(&mut self, created: Timestamp) -> (out: Option<DownstreamEvent>)
        ensures
            (final(self).spec_phase(), out.deep_view()) == on_open(old(self).spec_phase(), created),
            final(self).settings() == old(self).settings(),
    {
        match self.phase {
            StreamPhase::Idle => {
                self.phase = StreamPhase::Started;
                Some(DownstreamEvent::Start { created })
            },
            _ => None,
        }
    }

    /// Takes the next item of the upstream source.
    pub fn accept(&mut self, item: &UpstreamItem) -> (out: Option<DownstreamEvent>)
        ensures
            (final(self).spec_phase(), out.deep_view()) == on_item(
                old(self).spec_phase(),
                item.deep_view(),
                old(self).settings(),
            ),
            final(self).settings() == old(self).settings(),
    {
        if !self.live() {
            return None;
        }
        match item {
            UpstreamItem::Event(event) => {
                self.phase = StreamPhase::Streaming;
                translate(event, &self.config)
            },
            UpstreamItem::Failure(message) => {
                self.phase = StreamPhase::Failed;
                Some(DownstreamEvent::Error { message: message.clone(), code: UPSTREAM_FAILURE_CODE })
            },
        }
    }

    /// Takes the end of the upstream source.
    pub fn finish(&mut self) -> (out: Option<DownstreamEvent>)
        ensures
            (final(self).spec_phase(), out.deep_view()) == on_exhausted(old(self).spec_phase()),
            final(self).settings() == old(self).settings(),
    {
        if !self.live() {
            return None;
        }
        self.phase = StreamPhase::Completed;
        Some(DownstreamEvent::Done)
    }
}

fn publish(out: &mut Vec<DownstreamEvent>, event: Option<DownstreamEvent>)
    ensures
        final(out).deep_view() == old(out).deep_view() + emitted(event.deep_view()),
{
    match event {
        Some(e) => {
            out.push(e);
        },
        None => {},
    }
    assert(out.deep_view() =~= old(out).deep_view() + emitted(event.deep_view()));
}

/// Once a stream has failed, further items change nothing.
proof fn lemma_failed_is_final(items: Seq<UpstreamItemView>, n: int, config: ConfigView)
    requires
        0 <= n <= items.len(),
        after_items(items.take(n), config).0 is Failed,
    ensures
        after_items(items, config) == after_items(items.take(n), config),
    decreases items.len(),
{
    if n == items.len() {
        assert(items.take(n) =~= items);
    } else {
        assert(items.drop_last().take(n) =~= items.take(n));
        lemma_failed_is_final(items.drop_last(), n, config);
        assert(after_items(items, config).1 =~= after_items(items.take(n), config).1);
    }
}

/// Runs one whole stream over the items that the upstream source yielded,
/// and returns everything it publishes, in order. Items after a failure are
/// not looked at.
pub fn drive_stream(created: Timestamp, items: &Vec<UpstreamItem>, config: &Config) -> (out: Vec<
    DownstreamEvent,
>)
    ensures
        out.deep_view() == transcript(created, items.deep_view(), config.deep_view()),
{
    let ghost all = items.deep_view();
    let ghost settings = config.deep_view();
    let mut orchestrator = StreamOrchestrator::new(config.clone());
    let mut out: Vec<DownstreamEvent> = Vec::new();
    let opened = orchestrator.open(created);
    publish(&mut out, opened);
    assert(all.take(0) =~= Seq::empty());
    let mut i: usize = 0;
    while i < items.len()
        invariant
            i <= items.len(),
            all == items.deep_view(),
            settings == config.deep_view(),
            orchestrator.settings() == settings,
            orchestrator.spec_phase() == after_items(all.take(i as int), settings).0,
            is_live(orchestrator.spec_phase()),
            out.deep_view() =~= seq![DownstreamEventView::Start { created }] + after_items(
                all.take(i as int),
                settings,
            ).1,
        decreases items.len() - i,
    {
        let answer = orchestrator.accept(&items[i]);
        publish(&mut out, answer);
        proof {
            let next = all.take(i + 1);
            assert(next.drop_last() =~= all.take(i as int));
            assert(next.last() == items@[i as int].deep_view());
        }
        i = i + 1;
        match orchestrator.phase() {
            StreamPhase::Failed => {
                proof {
                    lemma_failed_is_final(all, i as int, settings);
                }
                assert(out.deep_view() =~= transcript(created, all, settings));
                return out;
            },
            _ => {},
        }
    }
    assert(all.take(i as int) =~= all);
    let closed = orchestrator.finish();
    publish(&mut out, closed);
    out
}

/// A source that does not fail keeps the stream live, and the stream
/// publishes for its events exactly what they translate to.
proof fn lemma_run_without_failure(events: Seq<UpstreamEventView>, config: ConfigView)
    ensures
        is_live(after_items(as_items(events), config).0),
        after_items(as_items(events), config).1 == translated(events, config),
    decreases events.len(),
{
    if events.len() > 0 {
        assert(as_items(events).drop_last() =~= as_items(events.drop_last()));
        lemma_run_without_failure(events.drop_last(), config);
    }
}

/// Translation yields content, usage and message-stop events only.
pub proof fn lemma_translated_is_payload(events: Seq<UpstreamEventView>, config: ConfigView)
    ensures
        forall|k: int|
            0 <= k < translated(events, config).len() ==> is_payload(
                #[trigger] translated(events, config)[k],
            ),
    decreases events.len(),
{
    if events.len() > 0 {
        lemma_translated_is_payload(events.drop_last(), config);
        let before = translated(events.drop_last(), config);
        let last = translate_spec(events.last(), config);
        assert forall|k: int| 0 <= k < translated(events, config).len() implies is_payload(
            #[trigger] translated(events, config)[k],
        ) by {
            if k < before.len() {
                assert(translated(events, config)[k] == before[k]);
            } else {
                assert(translated(events, config)[k] == last->0);
            }
        }
    }
}

/// What a started stream has published after any items: payload events only
/// while it is live, and payload events closed by one error event once it
/// has failed. It is never idle again and never complete before exhaustion.
pub open spec fn run_is_well_formed(phase: StreamPhase, published: Seq<DownstreamEventView>) -> bool {
    if is_live(phase) {
        forall|k: int| 0 <= k < published.len() ==> is_payload(#[trigger] published[k])
    } else {
        &&& phase is Failed
        &&& published.len() > 0
        &&& published.last() is Error
        &&& forall|k: int| 0 <= k < published.len() - 1 ==> is_payload(#[trigger] published[k])
    }
}

proof fn lemma_run_is_well_formed(items: Seq<UpstreamItemView>, config: ConfigView)
    ensures
        run_is_well_formed(after_items(items, config).0, after_items(items, config).1),
    decreases items.len(),
{
    if items.len() > 0 {
        lemma_run_is_well_formed(items.drop_last(), config);
    }
}

/// For every sequence of upstream events that ends with the source ending,
/// the stream publishes one start event, then what the events translate to,
/// in arrival order, then one done event. What stands between the two is
/// content, usage and message-stop events only.
pub proof fn lemma_stream_ends_with_done(
    created: Timestamp,
    events: Seq<UpstreamEventView>,
    config: ConfigView,
)
    ensures
        transcript(created, as_items(events), config) == seq![
            DownstreamEventView::Start { created },
        ] + translated(events, config) + seq![DownstreamEventView::Done],
        forall|k: int|
            0 <= k < translated(events, config).len() ==> is_payload(
                #[trigger] translated(events, config)[k],
            ),
{
    lemma_run_without_failure(events, config);
    lemma_translated_is_payload(events, config);
}

/// When the upstream source fails after `events`, the stream publishes one
/// start event, then what those events translate to, then one error event
/// with the failure's message and the fixed code, and nothing after it:
/// no done event follows, whatever the source would have yielded next.
pub proof fn lemma_stream_ends_with_error(
    created: Timestamp,
    events: Seq<UpstreamEventView>,
    message: Seq<char>,
    rest: Seq<UpstreamItemView>,
    config: ConfigView,
)
    ensures
        transcript(
            created,
            as_items(events) + seq![UpstreamItemView::Failure(message)] + rest,
            config,
        ) == seq![DownstreamEventView::Start { created }] + translated(events, config) + seq![
            DownstreamEventView::Error { message, code: UPSTREAM_FAILURE_CODE },
        ],
        forall|k: int|
            0 <= k < translated(events, config).len() ==> is_payload(
                #[trigger] translated(events, config)[k],
            ),
{
    let head = as_items(events) + seq![UpstreamItemView::Failure(message)];
    let items = head + rest;
    lemma_run_without_failure(events, config);
    lemma_translated_is_payload(events, config);
    assert(head.drop_last() =~= as_items(events));
    assert(head.last() == UpstreamItemView::Failure(message));
    assert(after_items(head, config).0 is Failed);
    assert(items.take(head.len() as int) =~= head);
    lemma_failed_is_final(items, head.len() as int, config);
}

/// Of every stream: the first event is the start event, the last is one of
/// done and error, and every event between them is a content, usage or
/// message-stop event. So exactly one start opens a stream and exactly one
/// terminal event closes it.
pub proof fn lemma_transcript_shape(
    created: Timestamp,
    items: Seq<UpstreamItemView>,
    config: ConfigView,
)
    ensures
        ({
            let t = transcript(created, items, config);
            &&& t.len() >= 2
            &&& t[0] == DownstreamEventView::Start { created }
            &&& t.last() is Done || t.last() is Error
            &&& t.last() is Done <==> is_live(after_items(items, config).0)
            &&& forall|k: int| 0 < k < t.len() - 1 ==> is_payload(#[trigger] t[k])
        }),
{
    lemma_run_is_well_formed(items, config);
}

} // verus!
