//! One exchange with the provider, as two plain values: what is to be sent,
//! and what came of sending it.

use crate::config::ConfigView;
use crate::error::{reply_view, CallError, CallErrorView};
use crate::headers::{credential_entries, header_map_entries};
use crate::message::{
    first_content, request_for, CompletionRequest, CompletionResponse, CompletionResponseView,
    MessageView,
};
use vstd::prelude::*;

verus! {

/// Where every request goes.
pub const ENDPOINT: &'static str = "https://api.openai.com/v1/chat/completions";

/// The one request of a call: a POST of `payload`, as JSON, to `url`, under
/// `headers`.
pub struct Outbound {
    /// The address to post to.
    pub url: &'static str,
    /// The headers that carry the credentials.
    pub headers: reqwest::header::HeaderMap,
    /// The body, before it is written as JSON.
    pub payload: CompletionRequest,
}

/// Whether `outbound` is the request of a call with `messages` under
/// `config`: it goes to the fixed endpoint, carries the two credential
/// headers and nothing else, and holds the fixed model, the messages in
/// their order and the fixed temperature.
pub open spec fn prepared(
    config: ConfigView,
    messages: Seq<MessageView>,
    outbound: Outbound,
) -> bool {
    &&& outbound.url@ == ENDPOINT@
    &&& header_map_entries(outbound.headers) == credential_entries(config.api_key, config.api_org)
    &&& outbound.payload@ == request_for(messages)
}

/// What came of sending a request.
#[derive(Debug, Clone, PartialEq, Eq)]
pub enum Exchange {
    /// No response arrived: the name did not resolve, the connection was
    /// refused or timed out, TLS failed. The text says which.
    Unreachable(String),
    /// A response arrived whose body is not JSON of the expected shape. The
    /// text says what is wrong with it.
    Unreadable(String),
    /// A response arrived and was read.
    Answered(CompletionResponse),
}

/// The mathematical value of an [`Exchange`].
pub enum ExchangeView {
    Unreachable(Seq<char>),
    Unreadable(Seq<char>),
    Answered(CompletionResponseView),
}

impl View for Exchange {
    type V = ExchangeView;

    open spec fn view(&self) -> ExchangeView {
        match *self {
            Exchange::Unreachable(details) => ExchangeView::Unreachable(details@),
            Exchange::Unreadable(details) => ExchangeView::Unreadable(details@),
            Exchange::Answered(response) => ExchangeView::Answered(response@),
        }
    }
}

/// What a call returns for each outcome of the exchange: a transport error
/// or a decode error with the details as they came, else the text of the
/// first choice, or `EmptyChoices` where there is none.
pub open spec fn result_of(exchange: ExchangeView) -> Result<Seq<char>, CallErrorView> {
    match exchange {
        ExchangeView::Unreachable(details) => Err(CallErrorView::Transport(details)),
        ExchangeView::Unreadable(details) => Err(CallErrorView::Decode(details)),
        ExchangeView::Answered(response) => first_content(response),
    }
}

/// Each result of a call has one cause. A reply comes of a response with at
/// least one choice, and is the text of the first; a transport error comes
/// of an exchange that reached nobody, a decode error of a body that could
/// not be read, each with the details as they were reported; `EmptyChoices`
/// comes of a response without choices; and no outcome of an exchange gives
/// `InvalidCredentialEncoding`.
pub proof fn lemma_result_causes(exchange: ExchangeView, text: Seq<char>)
    ensures
        result_of(exchange) == Ok::<Seq<char>, CallErrorView>(text) <==> exchange is Answered
            && exchange->Answered_0.choices.len() > 0
            && exchange->Answered_0.choices[0].message.content == text,
        result_of(exchange) == Err::<Seq<char>, CallErrorView>(CallErrorView::Transport(text))
            <==> exchange == ExchangeView::Unreachable(text),
        result_of(exchange) == Err::<Seq<char>, CallErrorView>(CallErrorView::Decode(text))
            <==> exchange == ExchangeView::Unreadable(text),
        result_of(exchange) == Err::<Seq<char>, CallErrorView>(CallErrorView::EmptyChoices)
            <==> exchange is Answered && exchange->Answered_0.choices.len() == 0,
        result_of(exchange) != Err::<Seq<char>, CallErrorView>(
            CallErrorView::InvalidCredentialEncoding,
        ),
{
}

/// Judges the outcome of an exchange. Nothing is tried again: one outcome
/// gives one result.
pub fn conclude(exchange: Exchange) -> (r: Result<String, CallError>)
    ensures
        reply_view(r) == result_of(exchange@),
{
    match exchange {
        Exchange::Unreachable(details) => Err(CallError::Transport(details)),
        Exchange::Unreadable(details) => Err(CallError::Decode(details)),
        Exchange::Answered(response) => response.first_reply(),
    }
}

} // verus!
