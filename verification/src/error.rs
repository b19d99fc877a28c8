//! The ways in which a call can fail.

use vstd::prelude::*;

verus! {

/// Why a call did not yield a reply.
#[derive(Debug, Clone, PartialEq, Eq)]
pub enum CallError {
    /// A secret holds a byte that no HTTP header value may carry.
    InvalidCredentialEncoding,
    /// The endpoint could not be reached; the text says why.
    Transport(String),
    /// The response body was not the JSON that was expected; the text says why.
    Decode(String),
    /// The response was well formed but offered no choice.
    EmptyChoices,
}

/// The mathematical value of a [`CallError`].
pub enum CallErrorView {
    InvalidCredentialEncoding,
    Transport(Seq<char>),
    Decode(Seq<char>),
    EmptyChoices,
}

impl View for CallError {
    type V = CallErrorView;

    open spec fn view(&self) -> CallErrorView {
        match *self {
            CallError::InvalidCredentialEncoding => CallErrorView::InvalidCredentialEncoding,
            CallError::Transport(details) => CallErrorView::Transport(details@),
            CallError::Decode(details) => CallErrorView::Decode(details@),
            CallError::EmptyChoices => CallErrorView::EmptyChoices,
        }
    }
}

/// The mathematical value of what a call returns.
pub open spec fn reply_view(reply: Result<String, CallError>) -> Result<Seq<char>, CallErrorView> {
    match reply {
        Ok(text) => Ok(text@),
        Err(error) => Err(error@),
    }
}

impl CallError {
    /// A sentence for logs and messages, led by the kind of failure.
    pub fn describe(&self) -> (text: String)
        ensures
            text@ == describe_spec(self@),
    {
        match self {
            CallError::InvalidCredentialEncoding => {
                "a credential cannot be encoded as an HTTP header value".to_owned()
            },
            CallError::Transport(details) => {
                "the endpoint could not be reached: ".to_owned().concat(details.as_str())
            },
            CallError::Decode(details) => {
                "the response could not be decoded: ".to_owned().concat(details.as_str())
            },
            CallError::EmptyChoices => "the response holds no choices".to_owned(),
        }
    }
}

/// The sentence that [`CallError::describe`] gives for an error.
pub open spec fn describe_spec(error: CallErrorView) -> Seq<char> {
    match error {
        CallErrorView::InvalidCredentialEncoding => {
            "a credential cannot be encoded as an HTTP header value"@
        },
        CallErrorView::Transport(details) => "the endpoint could not be reached: "@ + details,
        CallErrorView::Decode(details) => "the response could not be decoded: "@ + details,
        CallErrorView::EmptyChoices => "the response holds no choices"@,
    }
}

} // verus!
