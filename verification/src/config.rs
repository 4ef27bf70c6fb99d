//! Settings of the model that every session talks to.
use crate::MODEL;
use crate::text;
use crate::text::{join, join3, quoted, same_text, trim_end_char};
use vstd::prelude::*;
use vstd::string::*;

verus! {

/// Reasoning execution mode.
///
/// Standard mode preserves the default request behavior. Pro mode performs
/// additional model work before returning one final answer and can increase
/// latency and token usage independently of [`Thinking`].
#[derive(Clone, Copy, Debug, PartialEq, Eq, Structural)]
pub enum ReasoningMode {
    /// Standard reasoning behavior.
    Standard,
    /// Pro reasoning behavior.
    Pro,
}

impl Default for ReasoningMode {
    fn default() -> (r: Self)
        ensures
            r == ReasoningMode::Standard,
    {
        ReasoningMode::Standard
    }
}

impl ReasoningMode {
    /// The request value of a mode.
    pub open spec fn name(self) -> Seq<char> {
        match self {
            ReasoningMode::Standard => "standard"@,
            ReasoningMode::Pro => "pro"@,
        }
    }

    /// Returns the request value of the mode.
    pub fn as_str(self) -> (r: &'static str)
        ensures
            r@ == self.name(),
    {
        match self {
            ReasoningMode::Standard => "standard",
            ReasoningMode::Pro => "pro",
        }
    }

    /// Returns what a request carries: nothing in standard mode.
    pub fn request_value(self) -> (r: Option<&'static str>)
        ensures
            match self {
                ReasoningMode::Standard => r is None,
                ReasoningMode::Pro => r is Some && r->0@ == self.name(),
            },
    {
        match self {
            ReasoningMode::Standard => None,
            ReasoningMode::Pro => Some("pro"),
        }
    }

    /// Reads the name of a mode.
    pub fn parse(value: &str) -> (r: Result<Self, String>)
        ensures
            match r {
                Ok(mode) => value@ == mode.name(),
                Err(message) => {
                    &&& forall|mode: ReasoningMode| value@ != #[trigger] mode.name()
                    &&& message@ == "invalid reasoning mode "@ + text::quoted_text(value@)
                        + "; expected standard or pro"@
                },
            },
    {
        if same_text(value, "standard") {
            Ok(ReasoningMode::Standard)
        } else if same_text(value, "pro") {
            Ok(ReasoningMode::Pro)
        } else {
            Err(
                join3(
                    "invalid reasoning mode ",
                    quoted(value).as_str(),
                    "; expected standard or pro",
                ),
            )
        }
    }
}

impl std::str::FromStr for ReasoningMode {
    type Err = String;

    fn from_str(value: &str) -> (r: Result<Self, String>)
        ensures
            match r {
                Ok(mode) => value@ == mode.name(),
                Err(message) => {
                    &&& forall|mode: ReasoningMode| value@ != #[trigger] mode.name()
                    &&& message@ == "invalid reasoning mode "@ + text::quoted_text(value@)
                        + "; expected standard or pro"@
                },
            },
    {
        ReasoningMode::parse(value)
    }
}

/// No two reasoning modes share a name, so a name is read back as its mode.
pub proof fn law_reasoning_mode_names_differ(a: ReasoningMode, b: ReasoningMode)
    requires
        a.name() == b.name(),
    ensures
        a == b,
{
    reveal_strlit("standard");
    reveal_strlit("pro");
    assert("standard"@.len() == 8);
    assert("pro"@.len() == 3);
}

/// Requested model reasoning effort.
#[derive(Clone, Copy, Debug, PartialEq, Eq, Structural)]
pub enum Thinking {
    /// Disable reasoning when supported.
    Disabled,
    /// Low reasoning effort.
    Low,
    /// Medium reasoning effort.
    Medium,
    /// High reasoning effort.
    High,
    /// Extra-high reasoning effort.
    Xhigh,
    /// Maximum reasoning effort.
    Max,
}

impl Default for Thinking {
    fn default() -> (r: Self)
        ensures
            r == Thinking::High,
    {
        Thinking::High
    }
}

impl Thinking {
    /// The request value of an effort.
    pub open spec fn name(self) -> Seq<char> {
        match self {
            Thinking::Disabled => "none"@,
            Thinking::Low => "low"@,
            Thinking::Medium => "medium"@,
            Thinking::High => "high"@,
            Thinking::Xhigh => "xhigh"@,
            Thinking::Max => "max"@,
        }
    }

    /// Returns the request value of the effort.
    pub fn as_str(self) -> (r: &'static str)
        ensures
            r@ == self.name(),
    {
        match self {
            Thinking::Disabled => "none",
            Thinking::Low => "low",
            Thinking::Medium => "medium",
            Thinking::High => "high",
            Thinking::Xhigh => "xhigh",
            Thinking::Max => "max",
        }
    }

    /// Reads the name of an effort.
    pub fn parse(value: &str) -> (r: Result<Self, String>)
        ensures
            match r {
                Ok(effort) => value@ == effort.name(),
                Err(message) => {
                    &&& forall|effort: Thinking| value@ != #[trigger] effort.name()
                    &&& message@ == "invalid reasoning effort "@ + text::quoted_text(value@)
                        + "; expected none, low, medium, high, xhigh, or max"@
                },
            },
    {
        if same_text(value, "none") {
            Ok(Thinking::Disabled)
        } else if same_text(value, "low") {
            Ok(Thinking::Low)
        } else if same_text(value, "medium") {
            Ok(Thinking::Medium)
        } else if same_text(value, "high") {
            Ok(Thinking::High)
        } else if same_text(value, "xhigh") {
            Ok(Thinking::Xhigh)
        } else if same_text(value, "max") {
            Ok(Thinking::Max)
        } else {
            Err(
                join3(
                    "invalid reasoning effort ",
                    quoted(value).as_str(),
                    "; expected none, low, medium, high, xhigh, or max",
                ),
            )
        }
    }
}

impl std::str::FromStr for Thinking {
    type Err = String;

    fn from_str(value: &str) -> (r: Result<Self, String>)
        ensures
            match r {
                Ok(effort) => value@ == effort.name(),
                Err(message) => {
                    &&& forall|effort: Thinking| value@ != #[trigger] effort.name()
                    &&& message@ == "invalid reasoning effort "@ + text::quoted_text(value@)
                        + "; expected none, low, medium, high, xhigh, or max"@
                },
            },
    {
        Thinking::parse(value)
    }
}

/// No two efforts share a name, so a name is read back as its effort.
pub proof fn law_thinking_names_differ(a: Thinking, b: Thinking)
    requires
        a.name() == b.name(),
    ensures
        a == b,
{
    reveal_strlit("none");
    reveal_strlit("low");
    reveal_strlit("medium");
    reveal_strlit("high");
    reveal_strlit("xhigh");
    reveal_strlit("max");
    assert("none"@[0] == 'n');
    assert("low"@[0] == 'l');
    assert("medium"@[1] == 'e');
    assert("high"@[0] == 'h');
    assert("xhigh"@[0] == 'x');
    assert("max"@[1] == 'a');
    assert("max"@[0] == 'm');
    assert("medium"@[0] == 'm');
}

/// Streaming transport of provider requests.
#[derive(Clone, Copy, Debug, PartialEq, Eq, Structural)]
pub enum ResponsesTransport {
    /// One persistent WebSocket.
    WebSocket,
    /// HTTPS requests with server-sent events.
    Https,
}

impl Default for ResponsesTransport {
    fn default() -> (r: Self)
        ensures
            r == ResponsesTransport::WebSocket,
    {
        ResponsesTransport::WebSocket
    }
}

/// How a healthy call states the conversation so far.
#[derive(Clone, Copy, Debug, PartialEq, Eq, Structural)]
pub enum ResponsesHistory {
    /// A reference to the previous response and the items since.
    Incremental,
    /// The complete conversation.
    FullReplay,
}

impl Default for ResponsesHistory {
    fn default() -> (r: Self)
        ensures
            r == ResponsesHistory::Incremental,
    {
        ResponsesHistory::Incremental
    }
}

/// Kind of credentials.
#[derive(Clone, Copy, Debug, PartialEq, Eq, Structural)]
pub enum OpenAiAuthMode {
    /// A platform API key.
    ApiKey,
    /// A ChatGPT subscription.
    ChatGpt,
}

impl OpenAiAuthMode {
    /// Whether the provider retains responses under these credentials.
    pub open spec fn stores(self) -> bool {
        self == OpenAiAuthMode::ApiKey
    }

    /// Tests whether the provider retains responses under these credentials.
    pub fn supports_stored_responses(self) -> (r: bool)
        ensures
            r == self.stores(),
    {
        match self {
            OpenAiAuthMode::ApiKey => true,
            OpenAiAuthMode::ChatGpt => false,
        }
    }
}

/// Why credentials cannot provide an authorization value.
#[derive(Debug, PartialEq, Eq)]
pub struct OpenAiAuthError {
    /// Explanation without credentials.
    pub message: String,
}

/// Authentication source of a client.
///
/// The secret itself stays with the transport. Kept here is what the client's
/// rules read: the kind of credentials, the endpoints that kind of credentials
/// uses by default, and whether an authorization value is available.
#[derive(Debug)]
pub struct OpenAiAuth {
    /// Kind of credentials.
    pub mode: OpenAiAuthMode,
    /// Default streaming endpoint for these credentials.
    pub websocket_url: String,
    /// Default API base URL for these credentials.
    pub api_base_url: String,
    /// Why no authorization value is available, if none is.
    pub problem: Option<String>,
}

impl Clone for OpenAiAuth {
    fn clone(&self) -> (r: Self)
        ensures
            r == *self,
    {
        let problem = match &self.problem {
            Some(message) => Some(message.clone()),
            None => None,
        };
        OpenAiAuth {
            mode: self.mode,
            websocket_url: self.websocket_url.clone(),
            api_base_url: self.api_base_url.clone(),
            problem,
        }
    }
}

impl OpenAiAuth {
    /// Describes available API-key credentials with the platform's endpoints.
    pub fn api_key() -> (r: Self)
        ensures
            r.mode == OpenAiAuthMode::ApiKey,
            r.websocket_url@ == "wss://api.openai.com/v1/responses"@,
            r.api_base_url@ == "https://api.openai.com/v1"@,
            r.problem is None,
    {
        OpenAiAuth {
            mode: OpenAiAuthMode::ApiKey,
            websocket_url: "wss://api.openai.com/v1/responses".to_owned(),
            api_base_url: "https://api.openai.com/v1".to_owned(),
            problem: None,
        }
    }

    /// Describes available subscription credentials with their endpoints.
    pub fn chat_gpt(websocket_url: String, api_base_url: String) -> (r: Self)
        ensures
            r == (OpenAiAuth {
                mode: OpenAiAuthMode::ChatGpt,
                websocket_url,
                api_base_url,
                problem: None,
            }),
    {
        OpenAiAuth { mode: OpenAiAuthMode::ChatGpt, websocket_url, api_base_url, problem: None }
    }

    /// Reports whether an authorization value is available.
    pub fn validate(&self) -> (r: Result<(), OpenAiAuthError>)
        ensures
            r is Ok <==> self.problem is None,
            r is Err ==> r->Err_0.message@ == self.problem->0@,
    {
        match &self.problem {
            Some(message) => Err(OpenAiAuthError { message: message.clone() }),
            None => Ok(()),
        }
    }
}

/// A model of the provider.
#[derive(Clone, Copy, Debug)]
pub struct Model {
    /// Name that requests carry.
    pub name: &'static str,
}

impl Model {
    /// The model that agents use unless they are given another one.
    pub fn sol() -> (r: Self)
        ensures
            r.name@ == MODEL@,
    {
        Model { name: MODEL }
    }
}

/// Model settings of a client.
#[derive(Debug)]
pub struct ModelConfig {
    /// Authentication source resolved for each transport connection.
    pub auth: OpenAiAuth,
    /// Model.
    pub model: Model,
    /// Reasoning execution mode.
    pub reasoning_mode: ReasoningMode,
    /// Requested reasoning effort.
    pub thinking: Thinking,
    /// Whether requests use priority processing.
    pub fast_mode: bool,
    /// Selected streaming transport.
    pub responses_transport: ResponsesTransport,
    /// Selected healthy-call history strategy.
    pub responses_history: ResponsesHistory,
    /// Whether the provider may retain response checkpoints.
    pub store_responses: bool,
    /// Streaming endpoint.
    pub websocket_url: String,
    /// Base URL used for HTTPS calls and related endpoints.
    pub api_base_url: String,
    /// Immutable harness system prompt sent before session instructions.
    pub system_prompt: String,
}

impl Clone for ModelConfig {
    fn clone(&self) -> (r: Self)
        ensures
            r == *self,
    {
        ModelConfig {
            auth: self.auth.clone(),
            model: self.model,
            reasoning_mode: self.reasoning_mode,
            thinking: self.thinking,
            fast_mode: self.fast_mode,
            responses_transport: self.responses_transport,
            responses_history: self.responses_history,
            store_responses: self.store_responses,
            websocket_url: self.websocket_url.clone(),
            api_base_url: self.api_base_url.clone(),
            system_prompt: self.system_prompt.clone(),
        }
    }
}

impl ModelConfig {
    /// The settings that a client starts from.
    pub open spec fn initial(self, auth: OpenAiAuth, system_prompt: Seq<char>) -> bool {
        &&& self.auth == auth
        &&& self.model.name@ == MODEL@
        &&& self.reasoning_mode == ReasoningMode::Standard
        &&& self.thinking == Thinking::High
        &&& !self.fast_mode
        &&& self.responses_transport == ResponsesTransport::WebSocket
        &&& self.responses_history == ResponsesHistory::Incremental
        &&& self.store_responses
        &&& self.websocket_url@ == "wss://api.openai.com/v1/responses"@
        &&& self.api_base_url@ == "https://api.openai.com/v1"@
        &&& self.system_prompt@ == system_prompt
    }

    /// Creates the settings that a client starts from.
    pub fn new(auth: OpenAiAuth, system_prompt: String) -> (r: Self)
        ensures
            r.initial(auth, system_prompt@),
    {
        ModelConfig {
            auth,
            model: Model::sol(),
            reasoning_mode: ReasoningMode::Standard,
            thinking: Thinking::High,
            fast_mode: false,
            responses_transport: ResponsesTransport::WebSocket,
            responses_history: ResponsesHistory::Incremental,
            store_responses: true,
            websocket_url: "wss://api.openai.com/v1/responses".to_owned(),
            api_base_url: "https://api.openai.com/v1".to_owned(),
            system_prompt,
        }
    }

    /// Returns the fixed orchestration mode sent to the supported model.
    pub fn orchestration() -> (r: &'static str)
        ensures
            r@ == "local_code_mode"@,
    {
        "local_code_mode"
    }

    /// Returns the immutable harness system prompt.
    pub fn system_prompt(&self) -> (r: &str)
        ensures
            r@ == self.system_prompt@,
    {
        self.system_prompt.as_str()
    }

    /// Returns the search endpoint derived from the base URL.
    pub fn search_endpoint(&self) -> (r: String)
        ensures
            r@ == text::without_trailing(self.api_base_url@, '/') + "/alpha/search"@,
    {
        let base = trim_end_char(self.api_base_url.as_str(), '/');
        join(base.as_str(), "/alpha/search")
    }

    /// The endpoint that the selected transport talks to.
    pub open spec fn endpoint(self) -> Seq<char> {
        match self.responses_transport {
            ResponsesTransport::WebSocket => self.websocket_url@,
            ResponsesTransport::Https => self.api_base_url@,
        }
    }

    /// Returns the endpoint that the selected transport talks to.
    pub fn responses_endpoint(&self) -> (r: &str)
        ensures
            r@ == self.endpoint(),
    {
        match self.responses_transport {
            ResponsesTransport::WebSocket => self.websocket_url.as_str(),
            ResponsesTransport::Https => self.api_base_url.as_str(),
        }
    }
}

/// The endpoint is that of the selected transport, and the other one does not
/// matter.
pub proof fn law_endpoints_follow_the_transport(config: ModelConfig, url: String)
    ensures
        config.responses_transport == ResponsesTransport::WebSocket ==> config.endpoint()
            == config.websocket_url@ && (ModelConfig {
            api_base_url: url,
            ..config
        }).endpoint() == config.endpoint(),
        config.responses_transport == ResponsesTransport::Https ==> config.endpoint()
            == config.api_base_url@ && (ModelConfig {
            websocket_url: url,
            ..config
        }).endpoint() == config.endpoint(),
{
}

/// Requests name the efforts and the modes as the provider does.
pub proof fn law_settings_are_named_as_the_provider_does()
    ensures
        Thinking::Disabled.name() == "none"@,
        Thinking::Low.name() == "low"@,
        Thinking::Medium.name() == "medium"@,
        Thinking::High.name() == "high"@,
        Thinking::Xhigh.name() == "xhigh"@,
        Thinking::Max.name() == "max"@,
        ReasoningMode::Standard.name() == "standard"@,
        ReasoningMode::Pro.name() == "pro"@,
{
}

/// Responses are stored under an API key, and not under a subscription.
pub proof fn law_subscriptions_store_nothing(mode: OpenAiAuthMode)
    ensures
        mode.stores() <==> mode == OpenAiAuthMode::ApiKey,
        !OpenAiAuthMode::ChatGpt.stores(),
{
}

/// A client starts with the provider's own endpoints, over a WebSocket, in the
/// standard modes with high effort, and storing its responses.
pub proof fn law_settings_start_as_documented(
    config: ModelConfig,
    auth: OpenAiAuth,
    system_prompt: Seq<char>,
)
    requires
        config.initial(auth, system_prompt),
    ensures
        config.auth == auth,
        config.model.name@ == MODEL@,
        config.reasoning_mode == ReasoningMode::Standard,
        config.thinking == Thinking::High,
        !config.fast_mode,
        config.responses_transport == ResponsesTransport::WebSocket,
        config.responses_history == ResponsesHistory::Incremental,
        config.store_responses,
        config.endpoint() == "wss://api.openai.com/v1/responses"@,
        config.api_base_url@ == "https://api.openai.com/v1"@,
        config.system_prompt@ == system_prompt,
{
}

} // verus!
