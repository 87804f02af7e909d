use chat_gateway::content::{ContentBlock, UpstreamBlock};
use chat_gateway::events::{
    DownstreamEvent, Timestamp, UpstreamDelta, UpstreamEvent, UpstreamItem,
};
use chat_gateway::pricing::{Config, FamilyPricing, ModelPricing, PricingTable};
use chat_gateway::stream::{drive_stream, StreamOrchestrator, StreamPhase, UPSTREAM_FAILURE_CODE};
use chat_gateway::translate::translate;
use chat_gateway::usage::UpstreamUsage;

fn family(pattern: &str, input: u64, output: u64, cache_write: u64, cache_read: u64) -> FamilyPricing {
    FamilyPricing {
        pattern: pattern.to_string(),
        prices: ModelPricing {
            input_price: input,
            output_price: output,
            cache_write_price: cache_write,
            cache_read_price: cache_read,
        },
    }
}

fn table() -> PricingTable {
    PricingTable {
        sonnet: family("sonnet-v3", 3_000_000, 15_000_000, 3_750_000, 300_000),
        haiku: family("haiku-v3", 800_000, 4_000_000, 1_000_000, 80_000),
        opus: family("opus-v3", 15_000_000, 75_000_000, 18_750_000, 1_500_000),
    }
}

fn config() -> Config {
    Config { pricing: table(), latest_model: "sonnet-v4-latest".to_string() }
}

fn at() -> Timestamp {
    Timestamp { seconds: 1_700_000_000, nanos: 123_456_789 }
}

fn delta(text: &str) -> UpstreamItem {
    UpstreamItem::Event(UpstreamEvent::ContentBlockDelta {
        delta: UpstreamDelta {
            delta_type: "text_delta".to_string(),
            text: text.to_string(),
            thinking: None,
            signature_delta: None,
            data: None,
        },
    })
}

fn content(text: &str) -> DownstreamEvent {
    DownstreamEvent::Content {
        content: vec![ContentBlock {
            content_type: "text_delta".to_string(),
            text: text.to_string(),
            thinking: None,
            signature: None,
            data: None,
        }],
    }
}

fn usage_item() -> UpstreamItem {
    UpstreamItem::Event(UpstreamEvent::MessageDelta {
        usage: Some(UpstreamUsage {
            input_tokens: 10,
            output_tokens: 20,
            cache_creation_input_tokens: 0,
            cache_read_input_tokens: 0,
        }),
    })
}

#[test]
fn empty_stream_is_start_then_done() {
    let out = drive_stream(at(), &Vec::new(), &config());
    assert_eq!(out, vec![DownstreamEvent::Start { created: at() }, DownstreamEvent::Done]);
}

#[test]
fn clean_stream_is_start_translated_events_done() {
    let items = vec![
        UpstreamItem::Event(UpstreamEvent::MessageStart { content: Vec::new() }),
        delta("Hel"),
        UpstreamItem::Event(UpstreamEvent::Other),
        delta("lo"),
        UpstreamItem::Event(UpstreamEvent::MessageDelta { usage: None }),
        usage_item(),
        UpstreamItem::Event(UpstreamEvent::MessageStop),
    ];
    let out = drive_stream(at(), &items, &config());
    assert_eq!(out.len(), 6);
    assert_eq!(out[0], DownstreamEvent::Start { created: at() });
    assert_eq!(out[1], content("Hel"));
    assert_eq!(out[2], content("lo"));
    assert_eq!(out[3].name(), "usage");
    assert_eq!(out[4], DownstreamEvent::MessageStop);
    assert_eq!(out[5], DownstreamEvent::Done);
    assert_eq!(out.iter().filter(|e| e.name() == "start").count(), 1);
    assert_eq!(out.iter().filter(|e| e.closes_stream()).count(), 1);
}

#[test]
fn clean_stream_publishes_what_the_translator_gives_in_arrival_order() {
    let events = vec![
        UpstreamEvent::MessageStart {
            content: vec![UpstreamBlock {
                content_type: "text".to_string(),
                text: "seed".to_string(),
                thinking: None,
                signature: None,
                data: None,
            }],
        },
        UpstreamEvent::MessageStop,
        UpstreamEvent::Other,
        UpstreamEvent::MessageDelta { usage: None },
    ];
    let mut expected = vec![DownstreamEvent::Start { created: at() }];
    for event in &events {
        if let Some(out) = translate(event, &config()) {
            expected.push(out);
        }
    }
    expected.push(DownstreamEvent::Done);
    let items: Vec<UpstreamItem> = events.into_iter().map(UpstreamItem::Event).collect();
    assert_eq!(drive_stream(at(), &items, &config()), expected);
}

#[test]
fn failure_after_two_events_is_start_two_events_error() {
    let items = vec![delta("a"), delta("b"), UpstreamItem::Failure("connection reset".to_string())];
    let out = drive_stream(at(), &items, &config());
    assert_eq!(
        out,
        vec![
            DownstreamEvent::Start { created: at() },
            content("a"),
            content("b"),
            DownstreamEvent::Error { message: "connection reset".to_string(), code: 500 },
        ]
    );
}

#[test]
fn nothing_follows_an_error() {
    let items = vec![
        delta("a"),
        UpstreamItem::Failure("boom".to_string()),
        delta("never seen"),
        UpstreamItem::Failure("second".to_string()),
        UpstreamItem::Event(UpstreamEvent::MessageStop),
    ];
    let out = drive_stream(at(), &items, &config());
    assert_eq!(
        out,
        vec![
            DownstreamEvent::Start { created: at() },
            content("a"),
            DownstreamEvent::Error { message: "boom".to_string(), code: 500 },
        ]
    );
    assert!(out.iter().all(|e| e.name() != "done"));
}

#[test]
fn failure_at_once_is_start_then_error() {
    let out = drive_stream(at(), &vec![UpstreamItem::Failure(String::new())], &config());
    assert_eq!(
        out,
        vec![
            DownstreamEvent::Start { created: at() },
            DownstreamEvent::Error { message: String::new(), code: UPSTREAM_FAILURE_CODE },
        ]
    );
    assert_eq!(UPSTREAM_FAILURE_CODE, 500);
}

#[test]
fn orchestrator_walks_through_its_phases() {
    let mut o = StreamOrchestrator::new(config());
    assert_eq!(o.phase(), StreamPhase::Idle);
    assert_eq!(o.open(at()), Some(DownstreamEvent::Start { created: at() }));
    assert_eq!(o.phase(), StreamPhase::Started);
    assert_eq!(o.accept(&UpstreamItem::Event(UpstreamEvent::Other)), None);
    assert_eq!(o.phase(), StreamPhase::Streaming);
    assert_eq!(o.accept(&delta("x")), Some(content("x")));
    assert_eq!(o.phase(), StreamPhase::Streaming);
    assert_eq!(o.finish(), Some(DownstreamEvent::Done));
    assert_eq!(o.phase(), StreamPhase::Completed);
}

#[test]
fn orchestrator_fails_on_an_upstream_failure() {
    let mut o = StreamOrchestrator::new(config());
    o.open(at());
    assert_eq!(
        o.accept(&UpstreamItem::Failure("timeout".to_string())),
        Some(DownstreamEvent::Error { message: "timeout".to_string(), code: 500 })
    );
    assert_eq!(o.phase(), StreamPhase::Failed);
    assert_eq!(o.accept(&delta("late")), None);
    assert_eq!(o.finish(), None);
    assert_eq!(o.open(at()), None);
    assert_eq!(o.phase(), StreamPhase::Failed);
}

#[test]
fn orchestrator_can_be_closed_right_after_it_was_opened() {
    let mut o = StreamOrchestrator::new(config());
    o.open(at());
    assert_eq!(o.finish(), Some(DownstreamEvent::Done));
    assert_eq!(o.phase(), StreamPhase::Completed);
}

#[test]
fn orchestrator_answers_nothing_out_of_turn() {
    let mut idle = StreamOrchestrator::new(config());
    assert_eq!(idle.accept(&delta("early")), None);
    assert_eq!(idle.finish(), None);
    assert_eq!(idle.phase(), StreamPhase::Idle);

    let mut done = StreamOrchestrator::new(config());
    done.open(at());
    assert_eq!(done.open(at()), None);
    assert_eq!(done.phase(), StreamPhase::Started);
    done.finish();
    assert_eq!(done.accept(&delta("late")), None);
    assert_eq!(done.accept(&UpstreamItem::Failure("late".to_string())), None);
    assert_eq!(done.finish(), None);
    assert_eq!(done.open(at()), None);
    assert_eq!(done.phase(), StreamPhase::Completed);
}

#[test]
fn stepping_the_orchestrator_gives_what_driving_the_stream_gives() {
    let items = vec![delta("a"), usage_item(), UpstreamItem::Event(UpstreamEvent::MessageStop)];
    let mut o = StreamOrchestrator::new(config());
    let mut stepped = Vec::new();
    stepped.extend(o.open(at()));
    for item in &items {
        stepped.extend(o.accept(item));
    }
    stepped.extend(o.finish());
    assert_eq!(stepped, drive_stream(at(), &items, &config()));
}
