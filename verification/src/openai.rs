//! Configuring a client: which settings go together, and what each session of
//! the client starts from.
use crate::config::{
    ModelConfig, OpenAiAuth, OpenAiAuthError, OpenAiAuthMode, ReasoningMode, ResponsesHistory,
    ResponsesTransport, Thinking,
};
use crate::session;
use crate::session::SessionBuilder;
use crate::text;
use crate::text::{is_blank, join};
use crate::MODEL;
use std::sync::Arc;
use vstd::prelude::*;
use vstd::string::*;

verus! {

/// Declares `reqwest::Client`, which a caller may supply and nothing here looks
/// into.
#[verifier::external_type_specification]
#[verifier::external_body]
pub struct ExHttpClient(reqwest::Client);

/// Invalid client configuration.
#[derive(Debug)]
pub enum OpenAiError {
    /// Credentials cannot currently provide an authorization value.
    Authorization(OpenAiAuthError),
    /// Two client policies cannot be satisfied together.
    InvalidConfiguration {
        /// Explanation without credentials.
        detail: &'static str,
    },
}

impl OpenAiError {
    /// Describes the error.
    pub fn message(&self) -> (r: String)
        ensures
            r@ == match *self {
                OpenAiError::Authorization(error) => error.message@,
                OpenAiError::InvalidConfiguration { detail } =>
                    "invalid OpenAI client configuration: "@ + detail@,
            },
    {
        match self {
            OpenAiError::Authorization(error) => error.message.clone(),
            OpenAiError::InvalidConfiguration { detail } => join(
                "invalid OpenAI client configuration: ",
                *detail,
            ),
        }
    }
}

/// What is wrong with a configuration, in the order in which it is reported.
pub enum ConfigFault {
    /// No authorization value is available.
    Authorization,
    /// The streaming endpoint is empty.
    WebSocketUrl,
    /// The base URL is empty.
    ApiBaseUrl,
    /// The credentials do not allow stored responses.
    Store,
    /// Without stored responses, HTTPS has nothing to continue from.
    History,
}

/// What is wrong with a configuration, if anything.
pub open spec fn config_fault(config: ModelConfig) -> Option<ConfigFault> {
    if config.auth.problem is Some {
        Some(ConfigFault::Authorization)
    } else if text::blank(config.websocket_url@) {
        Some(ConfigFault::WebSocketUrl)
    } else if text::blank(config.api_base_url@) {
        Some(ConfigFault::ApiBaseUrl)
    } else if config.auth.mode == OpenAiAuthMode::ChatGpt && config.store_responses {
        Some(ConfigFault::Store)
    } else if config.responses_transport == ResponsesTransport::Https && !config.store_responses
        && config.responses_history == ResponsesHistory::Incremental {
        Some(ConfigFault::History)
    } else {
        None
    }
}

/// Whether an error reports a fault of a configuration.
pub open spec fn reports(error: OpenAiError, fault: ConfigFault, config: ModelConfig) -> bool {
    match fault {
        ConfigFault::Authorization => error matches OpenAiError::Authorization(cause)
            && cause.message@ == config.auth.problem->0@,
        ConfigFault::WebSocketUrl => error matches OpenAiError::InvalidConfiguration { detail }
            && detail@ == "the Responses WebSocket URL must not be empty"@,
        ConfigFault::ApiBaseUrl => error matches OpenAiError::InvalidConfiguration { detail }
            && detail@ == "the OpenAI API base URL must not be empty"@,
        ConfigFault::Store => error matches OpenAiError::InvalidConfiguration { detail } && detail@
            == "ChatGPT subscription authentication does not support stored responses"@,
        ConfigFault::History => error matches OpenAiError::InvalidConfiguration { detail }
            && detail@
            == "HTTPS without stored responses requires complete client-history replay"@,
    }
}

/// Checks that the settings of a client go together.
pub fn validate(config: &ModelConfig) -> (r: Option<OpenAiError>)
    ensures
        match r {
            None => config_fault(*config) is None,
            Some(error) => config_fault(*config) is Some && reports(
                error,
                config_fault(*config)->0,
                *config,
            ),
        },
{
    if let Err(error) = config.auth.validate() {
        return Some(OpenAiError::Authorization(error));
    }
    if is_blank(config.websocket_url.as_str()) {
        return Some(
            OpenAiError::InvalidConfiguration {
                detail: "the Responses WebSocket URL must not be empty",
            },
        );
    }
    if is_blank(config.api_base_url.as_str()) {
        return Some(
            OpenAiError::InvalidConfiguration {
                detail: "the OpenAI API base URL must not be empty",
            },
        );
    }
    if config.auth.mode == OpenAiAuthMode::ChatGpt && config.store_responses {
        return Some(
            OpenAiError::InvalidConfiguration {
                detail: "ChatGPT subscription authentication does not support stored responses",
            },
        );
    }
    if config.responses_transport == ResponsesTransport::Https && !config.store_responses
        && config.responses_history == ResponsesHistory::Incremental {
        return Some(
            OpenAiError::InvalidConfiguration {
                detail: "HTTPS without stored responses requires complete client-history replay",
            },
        );
    }
    None
}

/// Settings with the defaults of their credentials.
pub open spec fn with_mode_defaults(config: ModelConfig) -> ModelConfig {
    ModelConfig {
        store_responses: config.auth.mode.stores(),
        responses_history: ResponsesHistory::Incremental,
        websocket_url: config.auth.websocket_url,
        api_base_url: config.auth.api_base_url,
        ..config
    }
}

/// Gives settings the defaults of their credentials.
fn apply_mode_defaults(config: &mut ModelConfig)
    ensures
        *final(config) == with_mode_defaults(*old(config)),
{
    config.store_responses = config.auth.mode.supports_stored_responses();
    config.responses_history = ResponsesHistory::Incremental;
    config.websocket_url = config.auth.websocket_url.clone();
    config.api_base_url = config.auth.api_base_url.clone();
}

/// Settings with another transport. HTTPS without stored responses replays
/// everything.
pub open spec fn over_transport(config: ModelConfig, transport: ResponsesTransport) -> ModelConfig {
    ModelConfig {
        responses_transport: transport,
        responses_history: if transport == ResponsesTransport::Https && !config.store_responses {
            ResponsesHistory::FullReplay
        } else {
            config.responses_history
        },
        ..config
    }
}

/// Settings with or without stored responses. HTTPS without stored responses
/// replays everything.
pub open spec fn with_store(config: ModelConfig, store: bool) -> ModelConfig {
    ModelConfig {
        store_responses: store,
        responses_history: if !store && config.responses_transport == ResponsesTransport::Https {
            ResponsesHistory::FullReplay
        } else {
            config.responses_history
        },
        ..config
    }
}

/// Makes the service of one session. Every session gets an independent one.
pub trait MakeResponsesService: Sized {
    /// The service that a session owns.
    type Service;

    /// Whether a service can be made.
    spec fn ready(&self) -> bool;

    /// Whether a service is one that is made for given settings.
    spec fn makes(&self, config: ModelConfig, service: Self::Service) -> bool;

    /// Makes one independent service.
    fn make(&self, config: Arc<ModelConfig>) -> (r: Self::Service)
        requires
            self.ready(),
        ensures
            self.makes(*config, r),
    ;
}

/// The standard service: one transport behind one retry policy.
pub struct DefaultResponsesService {
    /// Settings.
    pub config: Arc<ModelConfig>,
    /// Limit of attempts; the policy's own without one.
    pub max_attempts: Option<u32>,
    /// Client for HTTPS; one of the transport's own without it.
    pub http_client: Option<Arc<reqwest::Client>>,
}

/// Makes standard services.
pub struct StandardServiceFactory {
    max_attempts: Option<u32>,
    http_client: Option<Arc<reqwest::Client>>,
}

impl StandardServiceFactory {
    /// Limit of attempts.
    pub closed spec fn attempts(&self) -> Option<u32> {
        self.max_attempts
    }

    /// Client for HTTPS.
    pub closed spec fn client(&self) -> Option<Arc<reqwest::Client>> {
        self.http_client
    }

    /// Makes services with the policies' own defaults.
    pub fn new() -> (r: Self)
        ensures
            r.attempts() is None,
            r.client() is None,
    {
        StandardServiceFactory { max_attempts: None, http_client: None }
    }
}

impl MakeResponsesService for StandardServiceFactory {
    type Service = DefaultResponsesService;

    open spec fn ready(&self) -> bool {
        true
    }

    open spec fn makes(&self, config: ModelConfig, service: DefaultResponsesService) -> bool {
        &&& *service.config == config
        &&& service.max_attempts == self.attempts()
        &&& service.http_client == self.client()
    }

    fn make(&self, config: Arc<ModelConfig>) -> (r: DefaultResponsesService) {
        let http_client = match &self.http_client {
            Some(client) => Some(client.clone()),
            None => None,
        };
        DefaultResponsesService { config, max_attempts: self.max_attempts, http_client }
    }
}

/// Makes services by a call of the caller's own.
pub struct CallerServiceFactory<M> {
    make: Arc<M>,
}

impl<M> CallerServiceFactory<M> {
    /// The caller's call.
    pub closed spec fn call(&self) -> M {
        *self.make
    }
}

impl<M, S> MakeResponsesService for CallerServiceFactory<M> where M: Fn() -> S {
    type Service = S;

    open spec fn ready(&self) -> bool {
        call_requires(self.call(), ())
    }

    open spec fn makes(&self, config: ModelConfig, service: S) -> bool {
        call_ensures(self.call(), (), service)
    }

    fn make(&self, config: Arc<ModelConfig>) -> (r: S) {
        (*self.make)()
    }
}

/// Wraps the services that another factory makes.
pub struct LayeredServiceFactory<F, L> {
    inner: F,
    layer: L,
}

impl<F, L> LayeredServiceFactory<F, L> {
    /// The other factory.
    pub closed spec fn within(&self) -> F {
        self.inner
    }

    /// What wraps.
    pub closed spec fn around(&self) -> L {
        self.layer
    }
}

impl<F, L, S> MakeResponsesService for LayeredServiceFactory<F, L> where
    F: MakeResponsesService,
    L: Fn(F::Service) -> S,
 {
    type Service = S;

    open spec fn ready(&self) -> bool {
        &&& self.within().ready()
        &&& forall|config: ModelConfig, inner: F::Service| #[trigger]
            self.within().makes(config, inner) ==> call_requires(self.around(), (inner,))
    }

    open spec fn makes(&self, config: ModelConfig, service: S) -> bool {
        exists|inner: F::Service| #[trigger]
            self.within().makes(config, inner) && call_ensures(self.around(), (inner,), service)
    }

    fn make(&self, config: Arc<ModelConfig>) -> (r: S) {
        let ghost settings = config;
        let inner = self.inner.make(config);
        proof {
            assert(self.within().makes(*settings, inner));
        }
        (self.layer)(inner)
    }
}

/// A configured client. Each session built from it has a conversation and a
/// service of its own.
pub struct OpenAi<F> {
    config: ModelConfig,
    factory: F,
}

/// Builder for a configured client.
pub struct OpenAiBuilder<F> {
    config: ModelConfig,
    factory: F,
}

impl OpenAi<StandardServiceFactory> {
    /// Creates a client with the standard service.
    pub fn new(auth: OpenAiAuth, system_prompt: String) -> (r: Result<Self, OpenAiError>)
        ensures
            ({
                let unchecked = r is Ok ==> r->Ok_0.settings().initial_for(auth, system_prompt@);
                &&& unchecked
                &&& r is Ok <==> auth.problem is None && !text::blank(auth.websocket_url@)
                    && !text::blank(auth.api_base_url@)
                &&& r is Err ==> exists|config: ModelConfig| #[trigger]
                    config.initial_for(auth, system_prompt@) && config_fault(config) is Some
                        && reports(r->Err_0, config_fault(config)->0, config)
            }),
    {
        OpenAi::builder(auth, system_prompt).build()
    }

    /// Starts configuring a client.
    pub fn builder(auth: OpenAiAuth, system_prompt: String) -> (r: OpenAiBuilder<
        StandardServiceFactory,
    >)
        ensures
            r.settings().initial_for(auth, system_prompt@),
            r.maker().attempts() is None,
            r.maker().client() is None,
    {
        let mut config = ModelConfig::new(auth, system_prompt);
        apply_mode_defaults(&mut config);
        OpenAiBuilder { config, factory: StandardServiceFactory::new() }
    }
}

impl ModelConfig {
    /// Whether settings are those that a client with given credentials starts
    /// from.
    pub open spec fn initial_for(self, auth: OpenAiAuth, system_prompt: Seq<char>) -> bool {
        &&& self.auth == auth
        &&& self.model.name@ == MODEL@
        &&& self.reasoning_mode == ReasoningMode::Standard
        &&& self.thinking == Thinking::High
        &&& !self.fast_mode
        &&& self.responses_transport == ResponsesTransport::WebSocket
        &&& self.responses_history == ResponsesHistory::Incremental
        &&& self.store_responses == auth.mode.stores()
        &&& self.websocket_url == auth.websocket_url
        &&& self.api_base_url == auth.api_base_url
        &&& self.system_prompt@ == system_prompt
    }
}

impl<F> OpenAi<F> {
    /// The client's settings.
    pub closed spec fn settings(&self) -> ModelConfig {
        self.config
    }

    /// What makes the services of its sessions.
    pub closed spec fn maker(&self) -> F {
        self.factory
    }

    /// Returns the client's settings.
    pub fn config(&self) -> (r: &ModelConfig)
        ensures
            *r == self.settings(),
    {
        &self.config
    }

    /// Starts a managed session with stable developer instructions. Nothing is
    /// requested yet.
    pub fn instructions(&self, instructions: &str) -> (r: SessionBuilder)
        ensures
            r@ == session::SessionBuilderView::initial(
                instructions@,
                self.settings().thinking,
                self.settings().fast_mode,
            ),
    {
        SessionBuilder::new(instructions, self.config.thinking, self.config.fast_mode)
    }
}

impl<F: MakeResponsesService> OpenAi<F> {
    /// Makes the service of one session.
    pub fn make_service(&self) -> (r: F::Service)
        requires
            self.maker().ready(),
        ensures
            self.maker().makes(self.settings(), r),
    {
        self.factory.make(Arc::new(self.config.clone()))
    }
}

impl<F> OpenAiBuilder<F> {
    /// The settings so far.
    pub closed spec fn settings(&self) -> ModelConfig {
        self.config
    }

    /// What makes the services of sessions.
    pub closed spec fn maker(&self) -> F {
        self.factory
    }

    /// Selects the transport.
    pub fn transport(self, transport: ResponsesTransport) -> (r: Self)
        ensures
            r.settings() == over_transport(self.settings(), transport),
            r.maker() == self.maker(),
    {
        let mut config = self.config;
        config.responses_transport = transport;
        if transport == ResponsesTransport::Https && !config.store_responses {
            config.responses_history = ResponsesHistory::FullReplay;
        }
        OpenAiBuilder { config, factory: self.factory }
    }

    /// Selects incremental continuation or complete replay for healthy calls.
    pub fn history(self, history: ResponsesHistory) -> (r: Self)
        ensures
            r.settings() == (ModelConfig { responses_history: history, ..self.settings() }),
            r.maker() == self.maker(),
    {
        let mut config = self.config;
        config.responses_history = history;
        OpenAiBuilder { config, factory: self.factory }
    }

    /// Controls whether the provider retains responses.
    pub fn store(self, store: bool) -> (r: Self)
        ensures
            r.settings() == with_store(self.settings(), store),
            r.maker() == self.maker(),
    {
        let mut config = self.config;
        config.store_responses = store;
        if !store && config.responses_transport == ResponsesTransport::Https {
            config.responses_history = ResponsesHistory::FullReplay;
        }
        OpenAiBuilder { config, factory: self.factory }
    }

    /// Sets the reasoning effort captured by each new response.
    pub fn thinking(self, thinking: Thinking) -> (r: Self)
        ensures
            r.settings() == (ModelConfig { thinking, ..self.settings() }),
            r.maker() == self.maker(),
    {
        let mut config = self.config;
        config.thinking = thinking;
        OpenAiBuilder { config, factory: self.factory }
    }

    /// Sets the reasoning execution mode.
    pub fn reasoning_mode(self, reasoning_mode: ReasoningMode) -> (r: Self)
        ensures
            r.settings() == (ModelConfig { reasoning_mode, ..self.settings() }),
            r.maker() == self.maker(),
    {
        let mut config = self.config;
        config.reasoning_mode = reasoning_mode;
        OpenAiBuilder { config, factory: self.factory }
    }

    /// Selects priority processing for each new response.
    pub fn fast_mode(self, enabled: bool) -> (r: Self)
        ensures
            r.settings() == (ModelConfig { fast_mode: enabled, ..self.settings() }),
            r.maker() == self.maker(),
    {
        let mut config = self.config;
        config.fast_mode = enabled;
        OpenAiBuilder { config, factory: self.factory }
    }

    /// Replaces the standard streaming endpoint.
    pub fn websocket_url(self, url: String) -> (r: Self)
        ensures
            r.settings() == (ModelConfig { websocket_url: url, ..self.settings() }),
            r.maker() == self.maker(),
    {
        let mut config = self.config;
        config.websocket_url = url;
        OpenAiBuilder { config, factory: self.factory }
    }

    /// Replaces the standard API base URL.
    pub fn api_base_url(self, url: String) -> (r: Self)
        ensures
            r.settings() == (ModelConfig { api_base_url: url, ..self.settings() }),
            r.maker() == self.maker(),
    {
        let mut config = self.config;
        config.api_base_url = url;
        OpenAiBuilder { config, factory: self.factory }
    }

    /// Wraps the services of sessions.
    pub fn layer<L>(self, layer: L) -> (r: OpenAiBuilder<LayeredServiceFactory<F, L>>)
        ensures
            r.settings() == self.settings(),
            r.maker().within() == self.maker(),
            r.maker().around() == layer,
    {
        OpenAiBuilder {
            config: self.config,
            factory: LayeredServiceFactory { inner: self.factory, layer },
        }
    }

    /// Replaces the standard service by one that a call of the caller's own
    /// makes for each session.
    pub fn service<M>(self, make: M) -> (r: OpenAiBuilder<CallerServiceFactory<M>>)
        ensures
            r.settings() == self.settings(),
            r.maker().call() == make,
    {
        OpenAiBuilder {
            config: self.config,
            factory: CallerServiceFactory { make: Arc::new(make) },
        }
    }

    /// Validates the configuration and returns a client.
    pub fn build(self) -> (r: Result<OpenAi<F>, OpenAiError>)
        ensures
            match r {
                Ok(client) => {
                    &&& config_fault(self.settings()) is None
                    &&& client.settings() == self.settings()
                    &&& client.maker() == self.maker()
                },
                Err(error) => {
                    &&& config_fault(self.settings()) is Some
                    &&& reports(error, config_fault(self.settings())->0, self.settings())
                },
            },
    {
        match validate(&self.config) {
            Some(error) => Err(error),
            None => Ok(OpenAi { config: self.config, factory: self.factory }),
        }
    }
}

impl OpenAiBuilder<StandardServiceFactory> {
    /// Sets the limit of attempts of the standard retry policy, the first one
    /// among them.
    pub fn max_attempts(self, max_attempts: u32) -> (r: Self)
        requires
            max_attempts > 0,
        ensures
            r.settings() == self.settings(),
            r.maker().attempts() == Some(max_attempts),
            r.maker().client() == self.maker().client(),
    {
        let mut factory = self.factory;
        factory.max_attempts = Some(max_attempts);
        OpenAiBuilder { config: self.config, factory }
    }

    /// Replaces the HTTP client of the standard HTTPS transport.
    pub fn http_client(self, client: reqwest::Client) -> (r: Self)
        ensures
            r.settings() == self.settings(),
            r.maker().attempts() == self.maker().attempts(),
            r.maker().client() == Some(Arc::new(client)),
    {
        let mut factory = self.factory;
        factory.http_client = Some(Arc::new(client));
        OpenAiBuilder { config: self.config, factory }
    }
}

/// The transport and the storage of responses can be chosen in either order,
/// but for a detour over a combination that replays everything.
pub proof fn law_transport_and_store_commute(
    config: ModelConfig,
    transport: ResponsesTransport,
    store: bool,
)
    requires
        config.responses_history == ResponsesHistory::FullReplay || !(if transport
            == ResponsesTransport::Https {
            store && !config.store_responses
        } else {
            !store && config.responses_transport == ResponsesTransport::Https
        }),
    ensures
        with_store(over_transport(config, transport), store) == over_transport(
            with_store(config, store),
            transport,
        ),
{
}

/// Whatever transport and storage are chosen, the result needs no further
/// choice: HTTPS without stored responses replays everything.
pub proof fn law_chosen_transport_has_a_history(
    config: ModelConfig,
    transport: ResponsesTransport,
    store: bool,
)
    ensures
        config_fault(with_store(over_transport(config, transport), store)) != Some(
            ConfigFault::History,
        ),
        config_fault(over_transport(with_store(config, store), transport)) != Some(
            ConfigFault::History,
        ),
{
}

/// A configuration is accepted exactly where credentials are there, both
/// endpoints are named, nothing is stored that may not be, and HTTPS has
/// something to continue from; the first thing that is missing is named.
pub proof fn law_configurations_go_together(config: ModelConfig)
    ensures
        config_fault(config) is None <==> {
            &&& config.auth.problem is None
            &&& !text::blank(config.websocket_url@)
            &&& !text::blank(config.api_base_url@)
            &&& config.store_responses ==> config.auth.mode == OpenAiAuthMode::ApiKey
            &&& config.store_responses || config.responses_transport
                == ResponsesTransport::WebSocket || config.responses_history
                == ResponsesHistory::FullReplay
        },
        config_fault(config) == Some(ConfigFault::Authorization) <==> config.auth.problem is Some,
        config_fault(config) == Some(ConfigFault::WebSocketUrl) ==> text::blank(
            config.websocket_url@,
        ),
        config_fault(config) == Some(ConfigFault::ApiBaseUrl) ==> text::blank(config.api_base_url@),
        config_fault(config) == Some(ConfigFault::Store) ==> config.store_responses
            && config.auth.mode == OpenAiAuthMode::ChatGpt,
{
}

/// Choosing a transport or whether to store chooses that, and touches nothing
/// else but how the conversation is stated: complete replay over HTTPS without
/// stored responses, and as it was otherwise.
pub proof fn law_choices_touch_nothing_else(
    config: ModelConfig,
    transport: ResponsesTransport,
    store: bool,
)
    ensures
        over_transport(config, transport).responses_transport == transport,
        over_transport(config, transport).store_responses == config.store_responses,
        same_beside_storage(config, over_transport(config, transport)),
        with_store(config, store).store_responses == store,
        with_store(config, store).responses_transport == config.responses_transport,
        same_beside_storage(config, with_store(config, store)),
        over_transport(config, transport).responses_history == ResponsesHistory::FullReplay <==> (
        config.responses_history == ResponsesHistory::FullReplay || (transport
            == ResponsesTransport::Https && !config.store_responses)),
        with_store(config, store).responses_history == ResponsesHistory::FullReplay <==> (
        config.responses_history == ResponsesHistory::FullReplay || (!store
            && config.responses_transport == ResponsesTransport::Https)),
{
}

/// Whether two settings are the same but for how responses are sent and kept.
pub open spec fn same_beside_storage(one: ModelConfig, other: ModelConfig) -> bool {
    &&& one.auth == other.auth
    &&& one.model == other.model
    &&& one.reasoning_mode == other.reasoning_mode
    &&& one.thinking == other.thinking
    &&& one.fast_mode == other.fast_mode
    &&& one.websocket_url == other.websocket_url
    &&& one.api_base_url == other.api_base_url
    &&& one.system_prompt == other.system_prompt
}

/// A client starts with the endpoints of its credentials, stores responses
/// exactly under an API key, and is accepted where the credentials are.
pub proof fn law_clients_start_by_their_credentials(
    config: ModelConfig,
    auth: OpenAiAuth,
    system_prompt: Seq<char>,
)
    requires
        config.initial_for(auth, system_prompt),
    ensures
        config.auth == auth,
        config.websocket_url == auth.websocket_url,
        config.api_base_url == auth.api_base_url,
        config.store_responses <==> auth.mode == OpenAiAuthMode::ApiKey,
        config.responses_transport == ResponsesTransport::WebSocket,
        config.responses_history == ResponsesHistory::Incremental,
        config.thinking == Thinking::High && !config.fast_mode,
        config.reasoning_mode == ReasoningMode::Standard,
        config.model.name@ == MODEL@,
        config.system_prompt@ == system_prompt,
        config_fault(config) is None <==> auth.problem is None && !text::blank(
            auth.websocket_url@,
        ) && !text::blank(auth.api_base_url@),
{
}

/// Every session of a client asks with the client's effort and processing mode.
pub proof fn law_sessions_take_the_clients_settings(
    config: ModelConfig,
    instructions: Seq<char>,
    built: session::SessionBuilderView,
)
    requires
        built == session::SessionBuilderView::initial(
            instructions,
            config.thinking,
            config.fast_mode,
        ),
    ensures
        built.thinking == config.thinking,
        built.fast_mode == config.fast_mode,
        built.instructions == instructions,
        built.tools.len() == 0,
        built.session_id is None,
        built.prompt_cache_key is None,
{
}

/// Credentials decide the endpoints and whether responses are stored; the
/// history is sent incrementally, and every other setting stays.
pub proof fn law_credentials_decide_the_defaults(config: ModelConfig)
    ensures
        ({
            let after = with_mode_defaults(config);
            &&& after.websocket_url == config.auth.websocket_url
            &&& after.api_base_url == config.auth.api_base_url
            &&& after.store_responses <==> config.auth.mode == OpenAiAuthMode::ApiKey
            &&& after.responses_history == ResponsesHistory::Incremental
            &&& after == (ModelConfig {
                websocket_url: after.websocket_url,
                api_base_url: after.api_base_url,
                store_responses: after.store_responses,
                responses_history: after.responses_history,
                ..config
            })
        }),
{
}

/// A standard service has the settings that it is made for, and the limit of
/// attempts and the client of its factory, which is always ready.
pub proof fn law_standard_services_have_their_settings(
    factory: StandardServiceFactory,
    config: ModelConfig,
    service: DefaultResponsesService,
)
    ensures
        factory.ready(),
        factory.makes(config, service) <==> *service.config == config && service.max_attempts
            == factory.attempts() && service.http_client == factory.client(),
{
}

} // verus!
