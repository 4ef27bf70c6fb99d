//! Transport policy that an agent carries until its service is built.
use crate::config::{
    ModelConfig, OpenAiAuthMode, ResponsesHistory, ResponsesTransport,
};
use std::sync::Arc;
use vstd::prelude::*;

verus! {

/// Stands for the standard service until the agent is built.
#[derive(Clone, Copy, Debug, PartialEq, Eq, Structural)]
pub struct StandardResponses;

/// Layers that wrap the standard service when the agent is built: pairs of a
/// layer and those that were added before it, down to `()`. The layer added
/// last stands next to the service, and the others wrap it in turn.
pub struct LayeredResponses<L> {
    /// The layers.
    pub layers: L,
}

/// A caller's factory of services, which makes one for each branch of a
/// conversation.
pub struct FactoryResponses<F> {
    /// The factory.
    pub factory: F,
}

/// The factory of services of a configured client.
pub struct OpenAiResponses<F> {
    /// The factory.
    pub factory: F,
}

/// Transport policy with a standard or caller-supplied service.
pub struct Responses<S> {
    /// Streaming endpoint; the credentials' own without one.
    pub websocket_url: Option<String>,
    /// API base URL; the credentials' own without one.
    pub api_base_url: Option<String>,
    /// Client for HTTPS; one of the transport's own without it.
    pub http_client: Option<Arc<reqwest::Client>>,
    /// Transport.
    pub transport: ResponsesTransport,
    /// How healthy calls state the conversation; by the other settings without
    /// it.
    pub history: Option<ResponsesHistory>,
    /// Whether the provider retains responses; by the credentials without it.
    pub store: Option<bool>,
    /// Limit of attempts; the retry policy's own without one.
    pub max_attempts: Option<u32>,
    /// Service.
    pub service: S,
}

impl<S> Responses<S> {
    /// The policy of a configured client.
    pub fn from_openai(config: &ModelConfig, service: S) -> (r: Self)
        ensures
            r == (Responses {
                websocket_url: Some(config.websocket_url),
                api_base_url: Some(config.api_base_url),
                http_client: None,
                transport: config.responses_transport,
                history: Some(config.responses_history),
                store: Some(config.store_responses),
                max_attempts: None,
                service,
            }),
    {
        Responses {
            websocket_url: Some(config.websocket_url.clone()),
            api_base_url: Some(config.api_base_url.clone()),
            http_client: None,
            transport: config.responses_transport,
            history: Some(config.responses_history),
            store: Some(config.store_responses),
            max_attempts: None,
            service,
        }
    }

    /// The policy with another service.
    pub open spec fn serving<T>(self, service: T) -> Responses<T> {
        Responses {
            websocket_url: self.websocket_url,
            api_base_url: self.api_base_url,
            http_client: self.http_client,
            transport: self.transport,
            history: self.history,
            store: self.store,
            max_attempts: self.max_attempts,
            service,
        }
    }

    /// Whether the provider retains responses under given credentials.
    pub open spec fn stores(self, mode: OpenAiAuthMode) -> bool {
        match self.store {
            Some(store) => store,
            None => mode.stores(),
        }
    }

    /// How healthy calls state the conversation under given credentials.
    pub open spec fn states(self, mode: OpenAiAuthMode) -> ResponsesHistory {
        match self.history {
            Some(history) => history,
            None => if self.transport == ResponsesTransport::Https && !self.stores(mode) {
                ResponsesHistory::FullReplay
            } else {
                ResponsesHistory::Incremental
            },
        }
    }

    /// Returns whether the provider retains responses: as chosen, or as the
    /// credentials allow.
    pub fn selected_store(&self, mode: OpenAiAuthMode) -> (r: bool)
        ensures
            r == self.stores(mode),
    {
        match self.store {
            Some(store) => store,
            None => mode.supports_stored_responses(),
        }
    }

    /// Returns how healthy calls state the conversation: as chosen, or by
    /// complete replay over HTTPS without stored responses, and incrementally
    /// otherwise.
    pub fn selected_history(&self, mode: OpenAiAuthMode) -> (r: ResponsesHistory)
        ensures
            r == self.states(mode),
    {
        match self.history {
            Some(history) => history,
            None => {
                if self.transport == ResponsesTransport::Https && !self.selected_store(mode) {
                    ResponsesHistory::FullReplay
                } else {
                    ResponsesHistory::Incremental
                }
            },
        }
    }
}

/// The policy that a builder starts from.
pub open spec fn standard_policy() -> Responses<StandardResponses> {
    Responses {
        websocket_url: None,
        api_base_url: None,
        http_client: None,
        transport: ResponsesTransport::WebSocket,
        history: None,
        store: None,
        max_attempts: None,
        service: StandardResponses,
    }
}

impl Default for Responses<StandardResponses> {
    fn default() -> (r: Self)
        ensures
            r == standard_policy(),
    {
        Responses {
            websocket_url: None,
            api_base_url: None,
            http_client: None,
            transport: ResponsesTransport::WebSocket,
            history: None,
            store: None,
            max_attempts: None,
            service: StandardResponses,
        }
    }
}

impl Responses<StandardResponses> {
    /// Starts configuring a policy.
    pub fn builder() -> (r: ResponsesBuilder<StandardResponses>)
        ensures
            r.policy() == standard_policy(),
    {
        ResponsesBuilder { responses: Responses::default() }
    }
}

/// Builder for a transport policy.
pub struct ResponsesBuilder<S> {
    responses: Responses<S>,
}

impl<S> ResponsesBuilder<S> {
    /// The policy so far.
    pub closed spec fn policy(&self) -> Responses<S> {
        self.responses
    }

    /// Replaces the service.
    fn serve<T>(responses: Responses<S>, service: T) -> (r: Responses<T>)
        ensures
            r == responses.serving(service),
    {
        Responses {
            websocket_url: responses.websocket_url,
            api_base_url: responses.api_base_url,
            http_client: responses.http_client,
            transport: responses.transport,
            history: responses.history,
            store: responses.store,
            max_attempts: responses.max_attempts,
            service,
        }
    }

    /// Selects the transport for the lifetime of an agent and its branches.
    pub fn transport(self, transport: ResponsesTransport) -> (r: Self)
        ensures
            r.policy() == (Responses { transport, ..self.policy() }),
    {
        let mut responses = self.responses;
        responses.transport = transport;
        ResponsesBuilder { responses }
    }

    /// Selects how healthy calls state the conversation.
    pub fn history(self, history: ResponsesHistory) -> (r: Self)
        ensures
            r.policy() == (Responses { history: Some(history), ..self.policy() }),
    {
        let mut responses = self.responses;
        responses.history = Some(history);
        ResponsesBuilder { responses }
    }

    /// Controls whether the provider retains responses.
    pub fn store(self, store: bool) -> (r: Self)
        ensures
            r.policy() == (Responses { store: Some(store), ..self.policy() }),
    {
        let mut responses = self.responses;
        responses.store = Some(store);
        ResponsesBuilder { responses }
    }

    /// Sets the limit of attempts of the standard retry policy, the first one
    /// among them.
    pub fn max_attempts(self, max_attempts: u32) -> (r: Self)
        requires
            max_attempts > 0,
        ensures
            r.policy() == (Responses { max_attempts: Some(max_attempts), ..self.policy() }),
    {
        let mut responses = self.responses;
        responses.max_attempts = Some(max_attempts);
        ResponsesBuilder { responses }
    }

    /// Replaces the streaming endpoint.
    pub fn websocket_url(self, url: String) -> (r: Self)
        ensures
            r.policy() == (Responses { websocket_url: Some(url), ..self.policy() }),
    {
        let mut responses = self.responses;
        responses.websocket_url = Some(url);
        ResponsesBuilder { responses }
    }

    /// Replaces the API base URL.
    pub fn api_base_url(self, url: String) -> (r: Self)
        ensures
            r.policy() == (Responses { api_base_url: Some(url), ..self.policy() }),
    {
        let mut responses = self.responses;
        responses.api_base_url = Some(url);
        ResponsesBuilder { responses }
    }

    /// Replaces the client of the standard HTTPS transport.
    pub fn http_client(self, client: reqwest::Client) -> (r: Self)
        ensures
            r.policy() == (Responses { http_client: Some(Arc::new(client)), ..self.policy() }),
    {
        let mut responses = self.responses;
        responses.http_client = Some(Arc::new(client));
        ResponsesBuilder { responses }
    }

    /// Finishes the policy.
    pub fn build(self) -> (r: Responses<S>)
        ensures
            r == self.policy(),
    {
        self.responses
    }
}

impl ResponsesBuilder<StandardResponses> {
    /// Wraps the standard service.
    pub fn layer<L>(self, layer: L) -> (r: ResponsesBuilder<LayeredResponses<(L, ())>>)
        ensures
            r.policy() == self.policy().serving(LayeredResponses { layers: (layer, ()) }),
    {
        ResponsesBuilder {
            responses: ResponsesBuilder::serve(
                self.responses,
                LayeredResponses { layers: (layer, ()) },
            ),
        }
    }

    /// Replaces the standard service by one that a factory makes for the agent
    /// and for each of its branches.
    pub fn service<F>(self, factory: F) -> (r: ResponsesBuilder<FactoryResponses<F>>)
        ensures
            r.policy() == self.policy().serving(FactoryResponses { factory }),
    {
        ResponsesBuilder {
            responses: ResponsesBuilder::serve(self.responses, FactoryResponses { factory }),
        }
    }
}

impl<L> ResponsesBuilder<LayeredResponses<L>> {
    /// Adds a layer next to the service, inside those added before.
    pub fn layer<T>(self, layer: T) -> (r: ResponsesBuilder<LayeredResponses<(T, L)>>)
        ensures
            r.policy() == self.policy().serving(
                LayeredResponses { layers: (layer, self.policy().service.layers) },
            ),
    {
        let Responses {
            websocket_url,
            api_base_url,
            http_client,
            transport,
            history,
            store,
            max_attempts,
            service,
        } = self.responses;
        ResponsesBuilder {
            responses: Responses {
                websocket_url,
                api_base_url,
                http_client,
                transport,
                history,
                store,
                max_attempts,
                service: LayeredResponses { layers: (layer, service.layers) },
            },
        }
    }
}

/// A policy that leaves the history open never asks HTTPS to continue from
/// responses that are not stored.
pub proof fn law_open_history_is_possible<S>(policy: Responses<S>, mode: OpenAiAuthMode)
    requires
        policy.history is None,
    ensures
        !(policy.transport == ResponsesTransport::Https && !policy.stores(mode)
            && policy.states(mode) == ResponsesHistory::Incremental),
{
}

/// What was chosen counts; what was left open goes by the credentials and the
/// transport: responses are stored exactly under an API key, and HTTPS without
/// stored responses replays everything.
pub proof fn law_open_choices_follow_the_credentials<S>(policy: Responses<S>, mode: OpenAiAuthMode)
    ensures
        policy.store matches Some(store) ==> policy.stores(mode) == store,
        policy.store is None ==> (policy.stores(mode) <==> mode == OpenAiAuthMode::ApiKey),
        policy.history matches Some(history) ==> policy.states(mode) == history,
        policy.history is None ==> (policy.states(mode) == ResponsesHistory::FullReplay <==> (
        policy.transport == ResponsesTransport::Https && !policy.stores(mode))),
{
}

/// Another service changes nothing else of a policy.
pub proof fn law_services_leave_the_policy<S, T>(policy: Responses<S>, service: T)
    ensures
        ({
            let other = policy.serving(service);
            &&& other.service == service
            &&& other.websocket_url == policy.websocket_url
            &&& other.api_base_url == policy.api_base_url
            &&& other.http_client == policy.http_client
            &&& other.transport == policy.transport
            &&& other.history == policy.history
            &&& other.store == policy.store
            &&& other.max_attempts == policy.max_attempts
        }),
{
}

/// A policy starts with a WebSocket and everything else open.
pub proof fn law_policies_start_open()
    ensures
        standard_policy().transport == ResponsesTransport::WebSocket,
        standard_policy().history is None,
        standard_policy().store is None,
        standard_policy().max_attempts is None,
        standard_policy().websocket_url is None,
        standard_policy().api_base_url is None,
        standard_policy().http_client is None,
{
}

} // verus!
