use axum::http::{HeaderMap, HeaderValue};
use chat_gateway::content::{ContentBlock, UpstreamBlock};
use chat_gateway::error::ApiError;
use chat_gateway::events::Timestamp;
use chat_gateway::handlers::{dispatch, handle_chat, prepare_call, AppState, Dispatch};
use chat_gateway::headers::{extract_api_token, token_from_header};
use chat_gateway::pricing::{
    calculate_anthropic_cost, format_cost, Config, FamilyPricing, ModelPricing, PricingTable,
};
use chat_gateway::request::{ChatRequest, Message, ProviderConfig, Role};
use chat_gateway::response::{aggregate_response, ProviderResponse, UpstreamResponse, UPSTREAM_STATUS};
use chat_gateway::stream::StreamPhase;
use chat_gateway::usage::UpstreamUsage;
use serde_json::{Number, Value};

fn family(pattern: &str, input: u64, output: u64, cache_write: u64, cache_read: u64) -> FamilyPricing {
    FamilyPricing {
        pattern: pattern.to_string(),
        prices: ModelPricing {
            input_price: input,
            output_price: output,
            cache_write_price: cache_write,
            cache_read_price: cache_read,
        },
    }
}

fn table() -> PricingTable {
    PricingTable {
        sonnet: family("sonnet-v3", 3_000_000, 15_000_000, 3_750_000, 300_000),
        haiku: family("haiku-v3", 800_000, 4_000_000, 1_000_000, 80_000),
        opus: family("opus-v3", 15_000_000, 75_000_000, 18_750_000, 1_500_000),
    }
}

fn config() -> Config {
    Config { pricing: table(), latest_model: "sonnet-v4-latest".to_string() }
}

fn state() -> AppState {
    AppState { config: config() }
}

fn object(members: Vec<(&str, Value)>) -> Value {
    let mut map = serde_json::Map::new();
    for (key, value) in members {
        map.insert(key.to_string(), value);
    }
    Value::Object(map)
}

fn merged_empty_config() -> Value {
    object(vec![(
        "reasoning",
        object(vec![
            ("type", Value::String("enabled".to_string())),
            ("budget", Value::Number(Number::from(16000u64))),
        ]),
    )])
}

fn hi(stream: bool, verbose: bool) -> ChatRequest {
    ChatRequest {
        messages: vec![Message { role: Role::User, content: "hi".to_string() }],
        system: None,
        provider_config: ProviderConfig { body: object(Vec::new()) },
        stream,
        verbose,
    }
}

fn headers_with(value: &[u8]) -> HeaderMap {
    let mut headers = HeaderMap::new();
    headers.insert("X-Anthropic-API-Token", HeaderValue::from_bytes(value).unwrap());
    headers
}

#[test]
fn token_is_read_from_its_header() {
    assert_eq!(extract_api_token(&headers_with(b"sk-ant-123")), Ok("sk-ant-123".to_string()));
    assert_eq!(extract_api_token(&headers_with(b"a b\tc~")), Ok("a b\tc~".to_string()));
    assert_eq!(extract_api_token(&headers_with(b"")), Ok(String::new()));
}

#[test]
fn token_header_is_found_whatever_its_case() {
    let mut headers = HeaderMap::new();
    headers.insert("x-anthropic-api-token", HeaderValue::from_static("secret"));
    headers.insert("content-type", HeaderValue::from_static("application/json"));
    assert_eq!(extract_api_token(&headers), Ok("secret".to_string()));
}

#[test]
fn first_value_of_the_token_header_counts() {
    let mut headers = HeaderMap::new();
    headers.append("x-anthropic-api-token", HeaderValue::from_static("first"));
    headers.append("x-anthropic-api-token", HeaderValue::from_static("second"));
    assert_eq!(extract_api_token(&headers), Ok("first".to_string()));
}

#[test]
fn missing_token_header_is_reported_by_name() {
    let mut headers = HeaderMap::new();
    assert_eq!(
        extract_api_token(&headers),
        Err(ApiError::MissingHeader { header: "X-Anthropic-API-Token".to_string() })
    );
    headers.insert("authorization", HeaderValue::from_static("Bearer x"));
    assert_eq!(
        extract_api_token(&headers),
        Err(ApiError::MissingHeader { header: "X-Anthropic-API-Token".to_string() })
    );
}

#[test]
fn token_that_is_not_text_is_a_bad_request() {
    let bad = Err(ApiError::BadRequest { message: "Invalid Anthropic API token".to_string() });
    assert_eq!(extract_api_token(&headers_with(&[0xff, 0xfe])), bad);
    assert_eq!(extract_api_token(&headers_with("clé".as_bytes())), bad);
    assert_eq!(extract_api_token(&headers_with(&[b'a', 0x80])), bad);
}

#[test]
fn token_from_header_value_follows_the_same_rules() {
    assert_eq!(token_from_header(Some(b"abc".to_vec())), Ok("abc".to_string()));
    assert_eq!(token_from_header(Some(vec![32, 126, 9])), Ok(" ~\t".to_string()));
    assert_eq!(
        token_from_header(None),
        Err(ApiError::MissingHeader { header: "X-Anthropic-API-Token".to_string() })
    );
    let bad = Err(ApiError::BadRequest { message: "Invalid Anthropic API token".to_string() });
    assert_eq!(token_from_header(Some(vec![b'a', 127])), bad);
    assert_eq!(token_from_header(Some(vec![b'a', 31])), bad);
    assert_eq!(token_from_header(Some(vec![0])), bad);
    assert_eq!(token_from_header(Some(vec![b'a', 10])), bad);
    assert_eq!(token_from_header(Some(vec![200])), bad);
}

#[test]
fn request_leads_to_an_upstream_call() {
    let request = ChatRequest {
        messages: vec![
            Message { role: Role::System, content: "be brief".to_string() },
            Message { role: Role::User, content: "hi".to_string() },
        ],
        system: None,
        provider_config: ProviderConfig {
            body: object(vec![("max_tokens", Value::Number(Number::from(64u64)))]),
        },
        stream: false,
        verbose: false,
    };
    let call = prepare_call(&request, Some(b"tok".to_vec())).unwrap();
    assert_eq!(call.token, "tok");
    assert_eq!(call.messages, vec![Message { role: Role::User, content: "hi".to_string() }]);
    assert_eq!(call.system, Some("be brief".to_string()));
    assert_eq!(
        call.config.body,
        object(vec![
            ("max_tokens", Value::Number(Number::from(64u64))),
            (
                "reasoning",
                object(vec![
                    ("type", Value::String("enabled".to_string())),
                    ("budget", Value::Number(Number::from(16000u64))),
                ])
            ),
        ])
    );
    assert_eq!(
        request.provider_config.body,
        object(vec![("max_tokens", Value::Number(Number::from(64u64)))])
    );
}

#[test]
fn invalid_system_prompt_is_reported_before_the_token_is_read() {
    let request = ChatRequest {
        messages: vec![Message { role: Role::System, content: "a".to_string() }],
        system: Some("b".to_string()),
        provider_config: ProviderConfig { body: object(Vec::new()) },
        stream: true,
        verbose: false,
    };
    assert_eq!(prepare_call(&request, None), Err(ApiError::InvalidSystemPrompt));
    assert_eq!(prepare_call(&request, Some(vec![0xff])), Err(ApiError::InvalidSystemPrompt));
    assert_eq!(prepare_call(&request, Some(b"ok".to_vec())), Err(ApiError::InvalidSystemPrompt));
    assert_eq!(
        handle_chat(&state(), &HeaderMap::new(), &request),
        Err(ApiError::InvalidSystemPrompt)
    );
}

#[test]
fn request_without_token_is_turned_away() {
    for stream in [false, true] {
        assert_eq!(
            handle_chat(&state(), &HeaderMap::new(), &hi(stream, false)),
            Err(ApiError::MissingHeader { header: "X-Anthropic-API-Token".to_string() })
        );
        assert_eq!(
            handle_chat(&state(), &headers_with(&[0xff]), &hi(stream, false)),
            Err(ApiError::BadRequest { message: "Invalid Anthropic API token".to_string() })
        );
    }
}

#[test]
fn streaming_request_goes_to_the_streaming_path() {
    match handle_chat(&state(), &headers_with(b"tok"), &hi(true, true)) {
        Ok(Dispatch::Stream { call, orchestrator }) => {
            assert_eq!(call.token, "tok");
            assert_eq!(call.messages, hi(true, true).messages);
            assert_eq!(call.system, None);
            assert_eq!(call.config.body, merged_empty_config());
            assert_eq!(orchestrator.phase(), StreamPhase::Idle);
        }
        other => panic!("{:?}", other),
    }
}

#[test]
fn other_request_goes_to_the_aggregating_path() {
    for verbose in [false, true] {
        match handle_chat(&state(), &headers_with(b"tok"), &hi(false, verbose)) {
            Ok(Dispatch::Aggregate { call, verbose: asked }) => {
                assert_eq!(call.token, "tok");
                assert_eq!(call.config.body, merged_empty_config());
                assert_eq!(asked, verbose);
            }
            other => panic!("{:?}", other),
        }
    }
}

#[test]
fn dispatch_on_a_header_value_is_what_handle_chat_does() {
    let request = hi(true, false);
    assert_eq!(
        dispatch(&state(), &request, Some(b"tok".to_vec())),
        handle_chat(&state(), &headers_with(b"tok"), &request)
    );
    assert_eq!(
        dispatch(&state(), &request, None),
        handle_chat(&state(), &HeaderMap::new(), &request)
    );
}

fn upstream_response() -> UpstreamResponse {
    UpstreamResponse {
        model: "haiku-v3-20241022".to_string(),
        content: vec![
            UpstreamBlock {
                content_type: "thinking".to_string(),
                text: String::new(),
                thinking: Some("greeting".to_string()),
                signature: Some("sig".to_string()),
                data: None,
            },
            UpstreamBlock {
                content_type: "text".to_string(),
                text: "hello".to_string(),
                thinking: None,
                signature: None,
                data: None,
            },
        ],
        usage: UpstreamUsage {
            input_tokens: 1200,
            output_tokens: 340,
            cache_creation_input_tokens: 50,
            cache_read_input_tokens: 60,
        },
    }
}

#[test]
fn request_that_is_not_streamed_is_answered_with_one_document() {
    let app = state();
    let request = hi(false, false);
    let route = handle_chat(&app, &headers_with(b"valid-token"), &request).unwrap();
    let verbose = match route {
        Dispatch::Aggregate { verbose, .. } => verbose,
        other => panic!("{:?}", other),
    };
    let upstream = upstream_response();
    let created = Timestamp { seconds: 1_700_000_000, nanos: 5 };
    let out = aggregate_response(created, &upstream, Value::Null, verbose, &app.config);

    assert_eq!(out.created, created);
    assert!(!out.content.is_empty());
    assert_eq!(out.content.len(), 2);
    assert_eq!(out.content[0], ContentBlock::from_anthropic(&upstream.content[0]));
    assert_eq!(out.content[1].text, "hello");
    assert_eq!(out.provider_response, None);
    assert_eq!(out.usage.breakdown.input_tokens, 1200);
    assert_eq!(out.usage.breakdown.output_tokens, 340);
    assert_eq!(out.usage.breakdown.cached_write_tokens, 50);
    assert_eq!(out.usage.breakdown.cached_read_tokens, 60);
    assert_eq!(out.usage.breakdown.total_tokens, 1200 + 340);
    let cost = calculate_anthropic_cost(&upstream.model, 1200, 340, 50, 60, &app.config);
    assert_eq!(cost, 1200 * 800_000 + 340 * 4_000_000 + 50 * 1_000_000 + 60 * 80_000);
    assert_eq!(out.usage.total_cost, format_cost(cost));
    assert_eq!(out.usage.total_cost, "$0.002");
    assert_eq!(out.usage.breakdown.total_cost, "$0.002");
}

#[test]
fn verbose_answer_carries_the_upstream_response() {
    let raw = object(vec![("id", Value::String("msg_1".to_string()))]);
    let created = Timestamp { seconds: 0, nanos: 0 };
    let out = aggregate_response(created, &upstream_response(), raw.clone(), true, &state().config);
    assert_eq!(
        out.provider_response,
        Some(ProviderResponse { status: 200, headers: Vec::new(), body: raw })
    );
    assert_eq!(UPSTREAM_STATUS, 200);
}

#[test]
fn answer_to_an_upstream_response_without_content_has_none() {
    let upstream = UpstreamResponse { content: Vec::new(), ..upstream_response() };
    let created = Timestamp { seconds: 0, nanos: 0 };
    let out = aggregate_response(created, &upstream, Value::Null, false, &state().config);
    assert!(out.content.is_empty());
}
