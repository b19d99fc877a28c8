//! The values that travel: messages, the request payload, the response.

use crate::error::{reply_view, CallError, CallErrorView};
use vstd::prelude::*;

verus! {

/// The model that every request names.
pub const MODEL: &'static str = "gpt-4";

/// The sampling temperature of every request, in tenths: `1` stands for 0.1.
pub const TEMPERATURE_TENTHS: u8 = 1;

/// The highest temperature that the provider accepts, in tenths.
pub const MAX_TEMPERATURE_TENTHS: u8 = 20;

/// One turn of a conversation.
#[derive(Debug, Clone, PartialEq, Eq)]
pub struct Message {
    /// Who speaks, as a free label such as "user".
    pub role: String,
    /// What is said.
    pub content: String,
}

/// The mathematical value of a [`Message`].
pub struct MessageView {
    pub role: Seq<char>,
    pub content: Seq<char>,
}

impl View for Message {
    type V = MessageView;

    open spec fn view(&self) -> MessageView {
        MessageView { role: self.role@, content: self.content@ }
    }
}

/// The values of a run of messages, in order.
pub open spec fn messages_view(messages: Seq<Message>) -> Seq<MessageView> {
    Seq::new(messages.len(), |i: int| messages[i]@)
}

/// The payload of a request.
#[derive(Debug, Clone, PartialEq, Eq)]
pub struct CompletionRequest {
    /// The model asked.
    pub model: String,
    /// The conversation so far; the order is the order of the turns.
    pub messages: Vec<Message>,
    /// The sampling temperature in tenths, from 0 (0.0) to 20 (2.0).
    pub temperature_tenths: u8,
}

/// The mathematical value of a [`CompletionRequest`].
pub struct CompletionRequestView {
    pub model: Seq<char>,
    pub messages: Seq<MessageView>,
    pub temperature_tenths: nat,
}

impl View for CompletionRequest {
    type V = CompletionRequestView;

    open spec fn view(&self) -> CompletionRequestView {
        CompletionRequestView {
            model: self.model@,
            messages: messages_view(self.messages@),
            temperature_tenths: self.temperature_tenths as nat,
        }
    }
}

/// The payload that carries `messages`: the fixed model, the messages as
/// given, the fixed temperature.
pub open spec fn request_for(messages: Seq<MessageView>) -> CompletionRequestView {
    CompletionRequestView {
        model: MODEL@,
        messages,
        temperature_tenths: TEMPERATURE_TENTHS as nat,
    }
}

impl CompletionRequest {
    /// Whether the temperature lies in the range that the provider accepts.
    pub open spec fn well_formed(&self) -> bool {
        self.temperature_tenths <= MAX_TEMPERATURE_TENTHS
    }

    /// The payload for a conversation. The messages are passed on as they
    /// are, in their order; an empty conversation is passed on too, though
    /// the provider rejects it.
    pub fn new(messages: Vec<Message>) -> (request: CompletionRequest)
        ensures
            request@ == request_for(messages_view(messages@)),
            request.messages == messages,
            request.well_formed(),
    {
        CompletionRequest { model: MODEL.to_owned(), messages, temperature_tenths: TEMPERATURE_TENTHS }
    }
}

/// One candidate reply of a response.
#[derive(Debug, Clone, PartialEq, Eq)]
pub struct Choice {
    /// The message that the provider offers.
    pub message: Message,
}

/// The mathematical value of a [`Choice`].
pub struct ChoiceView {
    pub message: MessageView,
}

impl View for Choice {
    type V = ChoiceView;

    open spec fn view(&self) -> ChoiceView {
        ChoiceView { message: self.message@ }
    }
}

/// What is read of a response: its choices, in the order in which they came.
#[derive(Debug, Clone, PartialEq, Eq)]
pub struct CompletionResponse {
    /// The candidate replies.
    pub choices: Vec<Choice>,
}

/// The mathematical value of a [`CompletionResponse`].
pub struct CompletionResponseView {
    pub choices: Seq<ChoiceView>,
}

impl View for CompletionResponse {
    type V = CompletionResponseView;

    open spec fn view(&self) -> CompletionResponseView {
        CompletionResponseView {
            choices: Seq::new(self.choices@.len(), |i: int| self.choices@[i]@),
        }
    }
}

/// The reply that a response gives: the text of its first choice, or
/// `EmptyChoices` where it has none.
pub open spec fn first_content(response: CompletionResponseView) -> Result<
    Seq<char>,
    CallErrorView,
> {
    if response.choices.len() == 0 {
        Err(CallErrorView::EmptyChoices)
    } else {
        Ok(response.choices[0].message.content)
    }
}

impl CompletionResponse {
    /// The text of the first choice. A response without choices is an
    /// error, never a fault.
    pub fn first_reply(&self) -> (r: Result<String, CallError>)
        ensures
            reply_view(r) == first_content(self@),
    {
        if self.choices.len() == 0 {
            Err(CallError::EmptyChoices)
        } else {
            Ok(self.choices[0].message.content.clone())
        }
    }
}

} // verus!
