//! The client: one request and one result per call.

use crate::config::Config;
use crate::error::{reply_view, CallError, CallErrorView};
use crate::exchange::{conclude, prepared, result_of, Exchange, Outbound, ENDPOINT};
use crate::headers::credential_headers;
use crate::message::{messages_view, CompletionRequest, Message};
use vstd::prelude::*;

verus! {

/// A client of the completions endpoint. It holds the secrets and no other
/// state: calls do not affect one another.
#[derive(Clone, PartialEq, Eq)]
pub struct CompletionClient {
    /// The secrets that every request carries.
    pub config: Config,
}

impl CompletionClient {
    /// A client with the given secrets.
    pub fn new(config: Config) -> (client: CompletionClient)
        ensures
            client.config == config,
    {
        CompletionClient { config }
    }

    /// The request of a call with `messages`, or the reason why none can be
    /// made: `InvalidCredentialEncoding`, exactly when a secret cannot
    /// travel as a header value. The secrets are checked first, so that
    /// nothing is sent under credentials that cannot be encoded.
    pub fn prepare(&self, messages: Vec<Message>) -> (r: Result<Outbound, CallError>)
        ensures
            r is Ok <==> self.config@.encodable(),
            r matches Ok(outbound) ==> prepared(self.config@, messages_view(messages@), outbound),
            r matches Err(error) ==> error@ == CallErrorView::InvalidCredentialEncoding,
    {
        let headers = match credential_headers(
            self.config.api_key.as_str(),
            self.config.api_org.as_str(),
        ) {
            Ok(headers) => headers,
            Err(error) => {
                return Err(error);
            },
        };
        Ok(Outbound { url: ENDPOINT, headers, payload: CompletionRequest::new(messages) })
    }

    /// One call: prepares the request, hands it to `transport` once, and
    /// judges what `transport` reports.
    ///
    /// Where a secret cannot be encoded the result is
    /// `InvalidCredentialEncoding` and nothing is asked of `transport`, so
    /// it is not called. Otherwise `transport` is called with the prepared
    /// request, and the result is the one that `conclude` gives for its
    /// outcome. The conversation should not be empty, since the provider
    /// rejects an empty one; it is passed on as it is either way.
    pub fn complete<F: FnOnce(Outbound) -> Exchange>(
        &self,
        messages: Vec<Message>,
        transport: F,
    ) -> (r: Result<String, CallError>)
        requires
            self.config@.encodable() ==> forall|outbound: Outbound|
                prepared(self.config@, messages_view(messages@), outbound)
                    ==> #[trigger] transport.requires((outbound,)),
        ensures
            !self.config@.encodable() <==> reply_view(r) == Err::<Seq<char>, CallErrorView>(
                CallErrorView::InvalidCredentialEncoding,
            ),
            self.config@.encodable() ==> exists|outbound: Outbound, exchange: Exchange|
                prepared(self.config@, messages_view(messages@), outbound)
                    && #[trigger] transport.ensures((outbound,), exchange) && reply_view(r)
                    == result_of(exchange@),
    {
        match self.prepare(messages) {
            Ok(outbound) => {
                let exchange = transport(outbound);
                conclude(exchange)
            },
            Err(error) => Err(error),
        }
    }
}

} // verus!
