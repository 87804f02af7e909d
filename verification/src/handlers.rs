//! The request dispatcher: what is decided about a chat request before the
//! upstream provider is called.
//!
//! A request is checked, the provider's token is read from the headers, the
//! default reasoning configuration is merged in, and the request is routed to
//! the streaming or to the aggregating path. Calling the provider and
//! delivering the answer are the caller's part.

use crate::error::{ApiError, ApiErrorView};
use crate::headers::{header_get, header_lookup, token_from_header, token_header, token_of};
use crate::json::{json_model, JsonModel};
use crate::pricing::{Config, ConfigView};
use crate::request::{
    apply_default_reasoning, messages_with_system, system_prompt, system_prompt_is_valid,
    with_default_reasoning, ChatRequest, ChatRequestView, Message, MessageView, ProviderConfig,
};
use crate::stream::{StreamOrchestrator, StreamPhase};
use vstd::prelude::*;

verus! {

/// State shared by all request handlers. It is built once and only read.
#[derive(Debug, Clone, PartialEq, Eq)]
pub struct AppState {
    pub config: Config,
}

/// Everything the upstream call of one request is made with.
#[derive(Debug, Clone, PartialEq, Eq)]
pub struct UpstreamCall {
    pub token: String,
    pub messages: Vec<Message>,
    pub system: Option<String>,
    pub config: ProviderConfig,
}

/// An [`UpstreamCall`] as plain values; the configuration by what the document
/// holds.
pub struct UpstreamCallView {
    pub token: Seq<char>,
    pub messages: Seq<MessageView>,
    pub system: Option<Seq<char>>,
    pub config: JsonModel,
}

impl DeepView for UpstreamCall {
    type V = UpstreamCallView;

    open spec fn deep_view(&self) -> UpstreamCallView {
        UpstreamCallView {
            token: self.token@,
            messages: self.messages.deep_view(),
            system: self.system.deep_view(),
            config: json_model(self.config.body),
        }
    }
}

/// The upstream call that a request leads to, or why it leads to none.
///
/// The placement of the system prompt is checked first, then the token is
/// read. A request that passes both is forwarded with the messages and the
/// system prompt that it settles on, and with its provider configuration
/// after the default reasoning configuration was merged in.
pub open spec fn call_of(request: ChatRequestView, token_value: Option<Seq<u8>>) -> Result<
    UpstreamCallView,
    ApiErrorView,
> {
    if !system_prompt_is_valid(request) {
        Err(ApiErrorView::InvalidSystemPrompt)
    } else {
        match token_of(token_value) {
            Err(error) => Err(error),
            Ok(token) => Ok(
                UpstreamCallView {
                    token,
                    messages: messages_with_system(request),
                    system: system_prompt(request),
                    config: with_default_reasoning(request.provider_config),
                },
            ),
        }
    }
}

/// A call or an error, as plain values.
pub open spec fn call_view(outcome: Result<UpstreamCall, ApiError>) -> Result<
    UpstreamCallView,
    ApiErrorView,
> {
    match outcome {
        Ok(call) => Ok(call.deep_view()),
        Err(error) => Err(error.deep_view()),
    }
}

/// Settles the upstream call of a request, given the value that the request
/// carries in the token header, if it carries one.
pub fn prepare_call(request: &ChatRequest, token_value: Option<Vec<u8>>) -> (outcome: Result<
    UpstreamCall,
    ApiError,
>)
    ensures
        call_view(outcome) == call_of(request.deep_view(), token_value.deep_view()),
{
    if !request.validate_system_prompt() {
        return Err(ApiError::InvalidSystemPrompt);
    }
    let token = match token_from_header(token_value) {
        Ok(token) => token,
        Err(error) => {
            return Err(error);
        },
    };
    let messages = request.get_messages_with_system();
    let system = request.get_system_prompt();
    let mut body = request.provider_config.body.clone();
    apply_default_reasoning(&mut body);
    Ok(UpstreamCall { token, messages, system, config: ProviderConfig { body } })
}

/// Where a request goes.
#[derive(Debug, Clone, PartialEq, Eq)]
pub enum Dispatch {
    /// To the streaming path, with the orchestrator of its stream, not yet
    /// opened.
    Stream { call: UpstreamCall, orchestrator: StreamOrchestrator },
    /// To the aggregating path.
    Aggregate { call: UpstreamCall, verbose: bool },
}

/// A [`Dispatch`] as plain values: the orchestrator by its phase and its
/// configuration.
pub enum DispatchView {
    Stream { call: UpstreamCallView, phase: StreamPhase, settings: ConfigView },
    Aggregate { call: UpstreamCallView, verbose: bool },
}

impl DeepView for Dispatch {
    type V = DispatchView;

    open spec fn deep_view(&self) -> DispatchView {
        match self {
            Dispatch::Stream { call, orchestrator } => DispatchView::Stream {
                call: call.deep_view(),
                phase: orchestrator.spec_phase(),
                settings: orchestrator.settings(),
            },
            Dispatch::Aggregate { call, verbose } => DispatchView::Aggregate {
                call: call.deep_view(),
                verbose: *verbose,
            },
        }
    }
}

/// Where a request goes, or why it goes nowhere.
///
/// A request that leads to an upstream call goes to the streaming path if it
/// asks for a stream, with an idle orchestrator that works under `config`,
/// and to the aggregating path otherwise, with its wish for verbose output.
pub open spec fn dispatch_of(
    request: ChatRequestView,
    token_value: Option<Seq<u8>>,
    config: ConfigView,
) -> Result<DispatchView, ApiErrorView> {
    match call_of(request, token_value) {
        Err(error) => Err(error),
        Ok(call) => if request.stream {
            Ok(DispatchView::Stream { call, phase: StreamPhase::Idle, settings: config })
        } else {
            Ok(DispatchView::Aggregate { call, verbose: request.verbose })
        },
    }
}

/// A route or an error, as plain values.
pub open spec fn dispatch_view(outcome: Result<Dispatch, ApiError>) -> Result<
    DispatchView,
    ApiErrorView,
> {
    match outcome {
        Ok(dispatch) => Ok(dispatch.deep_view()),
        Err(error) => Err(error.deep_view()),
    }
}

/// Routes a request, given the value that it carries in the token header,
/// if it carries one.
pub fn dispatch(state: &AppState, request: &ChatRequest, token_value: Option<Vec<u8>>) -> (outcome:
    Result<Dispatch, ApiError>)
    ensures
        dispatch_view(outcome) == dispatch_of(
            request.deep_view(),
            token_value.deep_view(),
            state.config.deep_view(),
        ),
{
    match prepare_call(request, token_value) {
        Err(error) => Err(error),
        Ok(call) => {
            if request.stream {
                Ok(
                    Dispatch::Stream {
                        call,
                        orchestrator: StreamOrchestrator::new(state.config.clone()),
                    },
                )
            } else {
                Ok(Dispatch::Aggregate { call, verbose: request.verbose })
            }
        },
    }
}

/// Handles a chat request up to the upstream call: checks it, reads the
/// token from `headers` and routes it.
pub fn handle_chat(
    state: &AppState,
    headers: &axum::http::HeaderMap<axum::http::HeaderValue>,
    request: &ChatRequest,
) -> (outcome: Result<Dispatch, ApiError>)
    ensures
        dispatch_view(outcome) == dispatch_of(
            request.deep_view(),
            header_lookup(*headers, token_header()),
            state.config.deep_view(),
        ),
{
    dispatch(state, request, header_get(headers, "X-Anthropic-API-Token"))
}

} // verus!
