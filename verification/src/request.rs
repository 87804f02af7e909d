//! The unified chat request and what is settled about it before any upstream
//! call: where its system prompt stands, and which provider configuration it
//! is forwarded with.

use crate::json::{
    has_member, json_empty_object, json_has_member, json_insert_member, json_model, json_string,
    json_unsigned, with_member, JsonModel,
};
use vstd::prelude::*;

verus! {

/// Who speaks in a message.
#[derive(Debug, Clone, Copy, PartialEq, Eq)]
pub enum Role {
    System,
    User,
    Assistant,
}

/// One message of a conversation.
#[derive(Debug, Clone, PartialEq, Eq)]
pub struct Message {
    pub role: Role,
    pub content: String,
}

/// A [`Message`] as plain values.
pub struct MessageView {
    pub role: Role,
    pub content: Seq<char>,
}

impl DeepView for Message {
    type V = MessageView;

    open spec fn deep_view(&self) -> MessageView {
        MessageView { role: self.role, content: self.content@ }
    }
}

/// The provider-specific part of a request: a free-form JSON document that
/// is forwarded to the upstream provider.
#[derive(Debug, Clone, PartialEq, Eq)]
pub struct ProviderConfig {
    pub body: serde_json::Value,
}

/// A unified chat request. It is not changed once it is accepted.
#[derive(Debug, Clone, PartialEq, Eq)]
pub struct ChatRequest {
    pub messages: Vec<Message>,
    pub system: Option<String>,
    pub provider_config: ProviderConfig,
    pub stream: bool,
    pub verbose: bool,
}

/// A [`ChatRequest`] as plain values; the provider configuration by what the
/// document holds.
pub struct ChatRequestView {
    pub messages: Seq<MessageView>,
    pub system: Option<Seq<char>>,
    pub provider_config: JsonModel,
    pub stream: bool,
    pub verbose: bool,
}

impl DeepView for ChatRequest {
    type V = ChatRequestView;

    open spec fn deep_view(&self) -> ChatRequestView {
        ChatRequestView {
            messages: self.messages.deep_view(),
            system: self.system.deep_view(),
            provider_config: json_model(self.provider_config.body),
            stream: self.stream,
            verbose: self.verbose,
        }
    }
}

/// Some message of the conversation speaks as the system.
pub open spec fn has_system_message(messages: Seq<MessageView>) -> bool {
    exists|i: int| 0 <= i < messages.len() && (#[trigger] messages[i]).role is System
}

/// The system prompt is well placed unless it is given twice: in the
/// request's own field and in a system message of the conversation.
pub open spec fn system_prompt_is_valid(request: ChatRequestView) -> bool {
    !(request.system is Some && has_system_message(request.messages))
}

/// The conversation without its system messages, the rest in order.
pub open spec fn without_system(messages: Seq<MessageView>) -> Seq<MessageView> {
    messages.filter(|message: MessageView| !(message.role is System))
}

/// The messages that are sent upstream: the system prompt of the request's
/// own field first, as a system message, if there is one; then the
/// conversation without its system messages.
pub open spec fn messages_with_system(request: ChatRequestView) -> Seq<MessageView> {
    match request.system {
        Some(prompt) => seq![MessageView { role: Role::System, content: prompt }] + without_system(
            request.messages,
        ),
        None => without_system(request.messages),
    }
}

/// The text of the first system message of the conversation.
pub open spec fn first_system_message(messages: Seq<MessageView>) -> Option<Seq<char>>
    decreases messages.len(),
{
    if messages.len() == 0 {
        None
    } else if messages[0].role is System {
        Some(messages[0].content)
    } else {
        first_system_message(messages.drop_first())
    }
}

/// The system prompt of a request: the one of its own field, else the first
/// system message of the conversation.
pub open spec fn system_prompt(request: ChatRequestView) -> Option<Seq<char>> {
    match request.system {
        Some(prompt) => Some(prompt),
        None => first_system_message(request.messages),
    }
}

fn speaks_as_system(message: &Message) -> (system: bool)
    ensures
        system == (message.deep_view().role is System),
{
    match message.role {
        Role::System => true,
        _ => false,
    }
}

proof fn lemma_first_system_message_skips(messages: Seq<MessageView>, n: int)
    requires
        0 <= n <= messages.len(),
        forall|j: int| 0 <= j < n ==> !((#[trigger] messages[j]).role is System),
    ensures
        first_system_message(messages) == first_system_message(messages.skip(n)),
    decreases n,
{
    if n == 0 {
        assert(messages.skip(0) =~= messages);
    } else {
        let rest = messages.drop_first();
        assert forall|j: int| 0 <= j < n - 1 implies !((#[trigger] rest[j]).role is System) by {
            assert(rest[j] == messages[j + 1]);
        }
        lemma_first_system_message_skips(rest, n - 1);
        assert(rest.skip(n - 1) =~= messages.skip(n));
    }
}

impl ChatRequest {
    /// Whether the system prompt is well placed.
    pub fn validate_system_prompt(&self) -> (valid: bool)
        ensures
            valid == system_prompt_is_valid(self.deep_view()),
    {
        if self.system.is_none() {
            return true;
        }
        let mut i: usize = 0;
        while i < self.messages.len()
            invariant
                i <= self.messages.len(),
                self.system is Some,
                forall|j: int|
                    0 <= j < i ==> !((#[trigger] self.messages.deep_view()[j]).role is System),
            decreases self.messages.len() - i,
        {
            if speaks_as_system(&self.messages[i]) {
                assert(self.messages.deep_view()[i as int].role is System);
                return false;
            }
            i = i + 1;
        }
        true
    }

    /// The messages that are sent upstream.
    pub fn get_messages_with_system(&self) -> (out: Vec<Message>)
        ensures
            out.deep_view() == messages_with_system(self.deep_view()),
    {
        let ghost all = self.messages.deep_view();
        let mut out: Vec<Message> = Vec::new();
        let mut kept: Vec<Message> = Vec::new();
        let mut i: usize = 0;
        proof {
            reveal(Seq::filter);
            assert(all.take(0) =~= Seq::empty());
        }
        while i < self.messages.len()
            invariant
                i <= self.messages.len(),
                all == self.messages.deep_view(),
                kept.deep_view() =~= without_system(all.take(i as int)),
            decreases self.messages.len() - i,
        {
            proof {
                reveal(Seq::filter);
                let next = all.take(i + 1);
                assert(next.drop_last() =~= all.take(i as int));
                assert(next.last() == self.messages@[i as int].deep_view());
            }
            if !speaks_as_system(&self.messages[i]) {
                kept.push(
                    Message {
                        role: self.messages[i].role,
                        content: self.messages[i].content.clone(),
                    },
                );
            }
            i = i + 1;
        }
        assert(all.take(i as int) =~= all);
        match &self.system {
            Some(prompt) => {
                out.push(Message { role: Role::System, content: prompt.clone() });
            },
            None => {},
        }
        let ghost head = out.deep_view();
        out.append(&mut kept);
        assert(out.deep_view() =~= head + without_system(all));
        out
    }

    /// The system prompt, if the request has one.
    pub fn get_system_prompt(&self) -> (out: Option<String>)
        ensures
            out.deep_view() == system_prompt(self.deep_view()),
    {
        match &self.system {
            Some(prompt) => {
                return Some(prompt.clone());
            },
            None => {},
        }
        let ghost all = self.messages.deep_view();
        let mut i: usize = 0;
        while i < self.messages.len()
            invariant
                i <= self.messages.len(),
                self.system is None,
                all == self.messages.deep_view(),
                forall|j: int| 0 <= j < i ==> !((#[trigger] all[j]).role is System),
            decreases self.messages.len() - i,
        {
            if speaks_as_system(&self.messages[i]) {
                proof {
                    lemma_first_system_message_skips(all, i as int);
                    assert(all.skip(i as int)[0] == all[i as int]);
                }
                return Some(self.messages[i].content.clone());
            }
            i = i + 1;
        }
        proof {
            lemma_first_system_message_skips(all, i as int);
        }
        None
    }
}

/// The key of the reasoning configuration in a provider payload.
pub open spec fn reasoning_key() -> Seq<char> {
    "reasoning"@
}

/// The reasoning configuration that a request gets when it sets none:
/// `{"type": "enabled", "budget": 16000}`.
pub open spec fn default_reasoning() -> JsonModel {
    JsonModel::Object(
        Map::empty().insert("type"@, JsonModel::String("enabled"@)).insert(
            "budget"@,
            JsonModel::Integer(16000),
        ),
    )
}

/// A provider payload with the default reasoning configuration merged in.
///
/// The default is added only to an object that has no member under the
/// reasoning key at all. A payload that sets the key keeps its value,
/// whatever it is, and a payload that is no object is not touched.
pub open spec fn with_default_reasoning(body: JsonModel) -> JsonModel {
    if body is Object && !has_member(body, reasoning_key()) {
        with_member(body, reasoning_key(), default_reasoning())
    } else {
        body
    }
}

/// Merges the default reasoning configuration into a provider payload.
pub fn apply_default_reasoning(body: &mut serde_json::Value)
    ensures
        json_model(*final(body)) == with_default_reasoning(json_model(*old(body))),
{
    if !json_has_member(body, "reasoning") {
        let mut reasoning = json_empty_object();
        json_insert_member(&mut reasoning, "type", json_string("enabled"));
        json_insert_member(&mut reasoning, "budget", json_unsigned(16000));
        json_insert_member(body, "reasoning", reasoning);
    }
}

/// A payload that sets the reasoning key is not changed by the merge: the
/// caller's value stays as it is.
pub proof fn lemma_explicit_reasoning_is_kept(body: JsonModel)
    requires
        has_member(body, reasoning_key()),
    ensures
        with_default_reasoning(body) == body,
{
}

/// Merging twice is merging once.
pub proof fn lemma_merge_is_idempotent(body: JsonModel)
    ensures
        with_default_reasoning(with_default_reasoning(body)) == with_default_reasoning(body),
{
}

} // verus!
