//! Errors of the native provider transports.
use crate::text;
use crate::text::{decimal_text, join, join3};
use crate::transport::api_error;
use crate::transport::api_error::{
    api_error_has_code, retryable_api_error, ApiErrorEnvelope, RetryAdvice, RetryDelay,
};
use vstd::prelude::*;
use vstd::string::*;

verus! {

/// What went wrong on a WebSocket, as far as retrying depends on it.
#[derive(Clone, Copy, Debug, PartialEq, Eq, Structural)]
pub enum WebSocketFault {
    /// The connection was closed.
    ConnectionClosed,
    /// The connection had been closed before.
    AlreadyClosed,
    /// Input or output failed.
    Io,
    /// The peer left during the handshake.
    HandshakeIncomplete,
    /// The peer reset the connection without a closing handshake.
    ResetWithoutClosingHandshake,
    /// A frame was sent after the closing handshake began.
    SendAfterClosing,
    /// Anything else.
    Other,
}

impl WebSocketFault {
    /// Whether opening another connection may recover.
    pub open spec fn transient(self) -> bool {
        self != WebSocketFault::Other
    }
}

/// What went wrong with an HTTPS request, as far as retrying depends on it.
#[derive(Clone, Copy, Debug, PartialEq, Eq, Structural)]
pub struct HttpFault {
    /// A deadline passed.
    pub timeout: bool,
    /// No connection could be opened.
    pub connect: bool,
    /// The body could not be sent or read.
    pub body: bool,
}

/// Errors produced by the provider transports.
#[derive(Debug)]
pub enum ResponsesError {
    /// Authorization could not be resolved.
    Authorization {
        /// Credential-resolution detail without the credential value.
        detail: String,
    },
    /// The configured WebSocket URL was invalid.
    InvalidUrl(WebSocketFault),
    /// The authorization value could not be encoded as an HTTP header.
    InvalidAuthorization,
    /// The session identity could not be encoded as an HTTP header.
    InvalidSessionId,
    /// The WebSocket handshake exceeded its deadline.
    HandshakeTimeout {
        /// Configured timeout in seconds.
        seconds: u64,
    },
    /// The WebSocket handshake failed at the transport layer.
    Handshake(WebSocketFault),
    /// The server rejected the WebSocket handshake.
    HandshakeRejected {
        /// HTTP response status.
        status: u16,
        /// Retained response body.
        body: String,
        /// Server-requested retry delay when present.
        retry_after: Option<RetryDelay>,
    },
    /// Sending a WebSocket frame failed.
    Send(WebSocketFault),
    /// Sending a WebSocket frame exceeded its deadline.
    SendTimeout {
        /// Configured timeout in seconds.
        seconds: u64,
    },
    /// No response event arrived before the idle deadline.
    IdleTimeout {
        /// Configured idle timeout in seconds.
        seconds: u64,
    },
    /// The WebSocket stream ended without a close frame.
    UnexpectedEnd,
    /// Receiving a WebSocket frame failed.
    Receive(WebSocketFault),
    /// A received WebSocket event was not valid JSON.
    InvalidJson,
    /// The endpoint returned a binary frame where text JSON was required.
    UnexpectedBinary,
    /// A typed request could not be serialized.
    EncodeRequest,
    /// An event's payload did not match the shape declared by its type.
    InvalidPayload {
        /// Complete retained provider event.
        event: String,
    },
    /// The WebSocket closed with provider-supplied detail.
    Closed {
        /// Close code and reason.
        detail: String,
    },
    /// The API returned a typed error event.
    Api {
        /// Complete retained provider event.
        event: String,
        /// The event's error fields, where they could be read.
        fields: Option<ApiErrorEnvelope>,
    },
    /// The request exceeded the model context window.
    ContextWindowExceeded {
        /// Complete retained provider event.
        event: String,
    },
    /// The provider rejected malformed or unsupported image data.
    InvalidImageRequest {
        /// Complete retained provider event.
        event: String,
    },
    /// Sending or reading an HTTPS request failed.
    HttpRequest(HttpFault),
    /// The server rejected an HTTPS request.
    HttpRejected {
        /// HTTP response status.
        status: u16,
        /// Retained response body.
        body: String,
        /// Server-requested retry delay when present.
        retry_after: Option<RetryDelay>,
    },
    /// A streamed response body contained invalid UTF-8.
    InvalidSseUtf8,
}

/// Returns whether opening another connection may recover.
pub fn is_transient_websocket(error: WebSocketFault) -> (r: bool)
    ensures
        r == error.transient(),
{
    match error {
        WebSocketFault::ConnectionClosed
        | WebSocketFault::AlreadyClosed
        | WebSocketFault::Io
        | WebSocketFault::HandshakeIncomplete
        | WebSocketFault::ResetWithoutClosingHandshake
        | WebSocketFault::SendAfterClosing => true,
        WebSocketFault::Other => false,
    }
}

/// Retry metadata without a delay.
pub open spec fn at_once(class: Seq<char>) -> Option<api_error::AdviceView> {
    Some(api_error::AdviceView { class, server_delay: None })
}

/// Retry metadata of a rejected request: rate limits and server failures are
/// retried, after the delay that the server asks for.
pub open spec fn rejection_advice(
    status: u16,
    delay: Option<RetryDelay>,
    rate_limit: Seq<char>,
    server: Seq<char>,
) -> Option<api_error::AdviceView> {
    if status == 429 {
        Some(api_error::AdviceView { class: rate_limit, server_delay: delay })
    } else if 500 <= status <= 599 {
        Some(api_error::AdviceView { class: server, server_delay: delay })
    } else {
        None
    }
}

impl ResponsesError {
    /// The retry metadata owed for an error.
    pub open spec fn advice(self) -> Option<api_error::AdviceView> {
        match self {
            ResponsesError::HandshakeTimeout { .. } => at_once("handshake_timeout"@),
            ResponsesError::Handshake(fault) => if fault.transient() {
                at_once("handshake_transport"@)
            } else {
                None
            },
            ResponsesError::HandshakeRejected { status, retry_after, .. } => rejection_advice(
                status,
                retry_after,
                "handshake_rate_limit"@,
                "handshake_server"@,
            ),
            ResponsesError::SendTimeout { .. } => at_once("send_timeout"@),
            ResponsesError::Send(fault) => if fault.transient() {
                at_once("send_transport"@)
            } else {
                None
            },
            ResponsesError::IdleTimeout { .. } => at_once("event_idle_timeout"@),
            ResponsesError::UnexpectedEnd => at_once("premature_close"@),
            ResponsesError::Closed { .. } => at_once("premature_close"@),
            ResponsesError::Receive(fault) => if fault.transient() {
                at_once("receive_transport"@)
            } else {
                None
            },
            ResponsesError::Api { fields, .. } => match fields {
                Some(fields) => fields.advice(),
                None => None,
            },
            ResponsesError::HttpRequest(fault) => if fault.timeout {
                at_once("https_timeout"@)
            } else if fault.connect || fault.body {
                at_once("https_transport"@)
            } else {
                None
            },
            ResponsesError::HttpRejected { status, retry_after, .. } => rejection_advice(
                status,
                retry_after,
                "https_rate_limit"@,
                "https_server"@,
            ),
            _ => None,
        }
    }

    /// Whether the provider no longer recognizes a continuation.
    pub open spec fn checkpoint_missing(self) -> bool {
        self matches ResponsesError::Api { fields, .. } && fields is Some && fields->0.has_code(
            "previous_response_not_found"@,
        )
    }

    /// The telemetry class of an error.
    pub open spec fn class_name(self) -> Seq<char> {
        match self {
            ResponsesError::Authorization { .. } => "authorization"@,
            ResponsesError::InvalidUrl(_) => "invalid_url"@,
            ResponsesError::InvalidAuthorization => "invalid_authorization"@,
            ResponsesError::InvalidSessionId => "invalid_session_id"@,
            ResponsesError::HandshakeTimeout { .. } => "handshake_timeout"@,
            ResponsesError::Handshake(_) => "handshake"@,
            ResponsesError::HandshakeRejected { .. } => "handshake_rejected"@,
            ResponsesError::Send(_) => "send"@,
            ResponsesError::SendTimeout { .. } => "send_timeout"@,
            ResponsesError::IdleTimeout { .. } => "event_idle_timeout"@,
            ResponsesError::UnexpectedEnd => "premature_close"@,
            ResponsesError::Receive(_) => "receive"@,
            ResponsesError::InvalidJson => "invalid_json"@,
            ResponsesError::UnexpectedBinary => "unexpected_binary"@,
            ResponsesError::EncodeRequest => "encode_request"@,
            ResponsesError::InvalidPayload { .. } => "invalid_payload"@,
            ResponsesError::Closed { .. } => "closed"@,
            ResponsesError::Api { .. } => if self.checkpoint_missing() {
                "checkpoint_missing"@
            } else {
                "api"@
            },
            ResponsesError::ContextWindowExceeded { .. } => "context_window_exceeded"@,
            ResponsesError::InvalidImageRequest { .. } => "invalid_image_request"@,
            ResponsesError::HttpRequest(fault) => if fault.timeout {
                "https_timeout"@
            } else {
                "https_transport"@
            },
            ResponsesError::HttpRejected { status, .. } => if status == 429 {
                "https_rate_limit"@
            } else if 500 <= status <= 599 {
                "https_server"@
            } else {
                "https_rejected"@
            },
            ResponsesError::InvalidSseUtf8 => "invalid_sse_utf8"@,
        }
    }

    /// Returns the retry classification, if retrying is safe.
    pub fn retry_advice(&self) -> (r: Option<RetryAdvice>)
        ensures
            api_error::advises(r, self.advice()),
    {
        let (class, server_delay) = match self {
            ResponsesError::HandshakeTimeout { .. } => ("handshake_timeout", None),
            ResponsesError::Handshake(fault) => if is_transient_websocket(*fault) {
                ("handshake_transport", None)
            } else {
                return None;
            },
            ResponsesError::HandshakeRejected { status, retry_after, .. } => if *status == 429 {
                ("handshake_rate_limit", *retry_after)
            } else if 500 <= *status && *status <= 599 {
                ("handshake_server", *retry_after)
            } else {
                return None;
            },
            ResponsesError::SendTimeout { .. } => ("send_timeout", None),
            ResponsesError::Send(fault) => if is_transient_websocket(*fault) {
                ("send_transport", None)
            } else {
                return None;
            },
            ResponsesError::IdleTimeout { .. } => ("event_idle_timeout", None),
            ResponsesError::UnexpectedEnd => ("premature_close", None),
            ResponsesError::Closed { .. } => ("premature_close", None),
            ResponsesError::Receive(fault) => if is_transient_websocket(*fault) {
                ("receive_transport", None)
            } else {
                return None;
            },
            ResponsesError::Api { fields, .. } => {
                return retryable_api_error(fields.as_ref());
            },
            ResponsesError::HttpRequest(fault) => if fault.timeout {
                ("https_timeout", None)
            } else if fault.connect || fault.body {
                ("https_transport", None)
            } else {
                return None;
            },
            ResponsesError::HttpRejected { status, retry_after, .. } => if *status == 429 {
                ("https_rate_limit", *retry_after)
            } else if 500 <= *status && *status <= 599 {
                ("https_server", *retry_after)
            } else {
                return None;
            },
            _ => return None,
        };
        Some(RetryAdvice { class, server_delay })
    }

    /// Returns a stable low-cardinality error class for telemetry.
    pub fn class(&self) -> (r: &'static str)
        ensures
            r@ == self.class_name(),
    {
        match self {
            ResponsesError::Authorization { .. } => "authorization",
            ResponsesError::InvalidUrl(_) => "invalid_url",
            ResponsesError::InvalidAuthorization => "invalid_authorization",
            ResponsesError::InvalidSessionId => "invalid_session_id",
            ResponsesError::HandshakeTimeout { .. } => "handshake_timeout",
            ResponsesError::Handshake(_) => "handshake",
            ResponsesError::HandshakeRejected { .. } => "handshake_rejected",
            ResponsesError::Send(_) => "send",
            ResponsesError::SendTimeout { .. } => "send_timeout",
            ResponsesError::IdleTimeout { .. } => "event_idle_timeout",
            ResponsesError::UnexpectedEnd => "premature_close",
            ResponsesError::Receive(_) => "receive",
            ResponsesError::InvalidJson => "invalid_json",
            ResponsesError::UnexpectedBinary => "unexpected_binary",
            ResponsesError::EncodeRequest => "encode_request",
            ResponsesError::InvalidPayload { .. } => "invalid_payload",
            ResponsesError::Closed { .. } => "closed",
            ResponsesError::Api { .. } => if self.is_checkpoint_missing() {
                "checkpoint_missing"
            } else {
                "api"
            },
            ResponsesError::ContextWindowExceeded { .. } => "context_window_exceeded",
            ResponsesError::InvalidImageRequest { .. } => "invalid_image_request",
            ResponsesError::HttpRequest(fault) => if fault.timeout {
                "https_timeout"
            } else {
                "https_transport"
            },
            ResponsesError::HttpRejected { status, .. } => if *status == 429 {
                "https_rate_limit"
            } else if 500 <= *status && *status <= 599 {
                "https_server"
            } else {
                "https_rejected"
            },
            ResponsesError::InvalidSseUtf8 => "invalid_sse_utf8",
        }
    }

    /// Returns whether the provider no longer recognizes a continuation.
    pub fn is_checkpoint_missing(&self) -> (r: bool)
        ensures
            r == self.checkpoint_missing(),
    {
        match self {
            ResponsesError::Api { fields, .. } => api_error_has_code(
                fields.as_ref(),
                "previous_response_not_found",
            ),
            _ => false,
        }
    }

    /// Returns whether the provider rejected the request for context exhaustion.
    pub fn is_context_window_exceeded(&self) -> (r: bool)
        ensures
            r == (self is ContextWindowExceeded),
    {
        match self {
            ResponsesError::ContextWindowExceeded { .. } => true,
            _ => false,
        }
    }

    /// Turns an error event into the error that it reports. `fields` are the
    /// error fields of `event`, where they can be read.
    pub fn api_event(event: String, fields: Option<ApiErrorEnvelope>) -> (r: Self)
        ensures
            r == (if fields is Some && fields->0.has_code("context_length_exceeded"@) {
                ResponsesError::ContextWindowExceeded { event }
            } else {
                ResponsesError::Api { event, fields }
            }),
    {
        if api_error_has_code(fields.as_ref(), "context_length_exceeded") {
            ResponsesError::ContextWindowExceeded { event }
        } else {
            ResponsesError::Api { event, fields }
        }
    }

    /// The message of an error.
    pub open spec fn text(self) -> Seq<char> {
        match self {
            ResponsesError::Authorization { detail } =>
                "failed to resolve OpenAI authorization: "@ + detail@,
            ResponsesError::InvalidUrl(_) => "invalid Responses WebSocket URL"@,
            ResponsesError::InvalidAuthorization => "invalid OpenAI authorization header"@,
            ResponsesError::InvalidSessionId => "invalid Responses session identifier header"@,
            ResponsesError::HandshakeTimeout { seconds } =>
                "Responses WebSocket handshake exceeded "@ + text::decimal_digits(seconds as nat)
                + " seconds"@,
            ResponsesError::Handshake(_) => "Responses WebSocket handshake failed"@,
            ResponsesError::HandshakeRejected { status, body, .. } =>
                "Responses WebSocket handshake was rejected with HTTP "@ + text::decimal_digits(
                status as nat,
            ) + ": "@ + body@,
            ResponsesError::Send(_) => "failed to send a Responses WebSocket frame"@,
            ResponsesError::SendTimeout { seconds } =>
                "sending a Responses WebSocket frame exceeded "@ + text::decimal_digits(
                seconds as nat,
            ) + " seconds"@,
            ResponsesError::IdleTimeout { seconds } =>
                "Responses WebSocket produced no event for "@ + text::decimal_digits(
                seconds as nat,
            ) + " seconds"@,
            ResponsesError::UnexpectedEnd => "Responses WebSocket closed without a close frame"@,
            ResponsesError::Receive(_) => "failed to receive a Responses WebSocket frame"@,
            ResponsesError::InvalidJson => "Responses WebSocket event was not valid JSON"@,
            ResponsesError::UnexpectedBinary =>
                "Responses WebSocket returned a binary data frame; expected JSON text"@,
            ResponsesError::EncodeRequest => "failed to encode a Responses WebSocket request"@,
            ResponsesError::InvalidPayload { event } =>
                "Responses API event did not match its declared type: "@ + event@,
            ResponsesError::Closed { detail } => "Responses WebSocket closed "@ + detail@,
            ResponsesError::Api { event, .. } => "Responses API returned an error event: "@
                + event@,
            ResponsesError::ContextWindowExceeded { .. } =>
                "Responses input exceeded the model context window"@,
            ResponsesError::InvalidImageRequest { event } =>
                "Responses API rejected invalid image data: "@ + event@,
            ResponsesError::HttpRequest(_) => "Responses HTTPS request failed"@,
            ResponsesError::HttpRejected { status, body, .. } =>
                "Responses HTTPS request was rejected with HTTP "@ + text::decimal_digits(
                status as nat,
            ) + ": "@ + body@,
            ResponsesError::InvalidSseUtf8 => "Responses HTTPS stream contained invalid UTF-8"@,
        }
    }

    /// Describes the error.
    pub fn message(&self) -> (r: String)
        ensures
            r@ == self.text(),
    {
        match self {
            ResponsesError::Authorization { detail } => join(
                "failed to resolve OpenAI authorization: ",
                detail.as_str(),
            ),
            ResponsesError::InvalidUrl(_) => "invalid Responses WebSocket URL".to_owned(),
            ResponsesError::InvalidAuthorization => "invalid OpenAI authorization header".to_owned(),
            ResponsesError::InvalidSessionId =>
                "invalid Responses session identifier header".to_owned(),
            ResponsesError::HandshakeTimeout { seconds } => join3(
                "Responses WebSocket handshake exceeded ",
                decimal_text(*seconds).as_str(),
                " seconds",
            ),
            ResponsesError::Handshake(_) => "Responses WebSocket handshake failed".to_owned(),
            ResponsesError::HandshakeRejected { status, body, .. } => join3(
                "Responses WebSocket handshake was rejected with HTTP ",
                decimal_text(*status as u64).as_str(),
                ": ",
            ).concat(body.as_str()),
            ResponsesError::Send(_) => "failed to send a Responses WebSocket frame".to_owned(),
            ResponsesError::SendTimeout { seconds } => join3(
                "sending a Responses WebSocket frame exceeded ",
                decimal_text(*seconds).as_str(),
                " seconds",
            ),
            ResponsesError::IdleTimeout { seconds } => join3(
                "Responses WebSocket produced no event for ",
                decimal_text(*seconds).as_str(),
                " seconds",
            ),
            ResponsesError::UnexpectedEnd =>
                "Responses WebSocket closed without a close frame".to_owned(),
            ResponsesError::Receive(_) =>
                "failed to receive a Responses WebSocket frame".to_owned(),
            ResponsesError::InvalidJson =>
                "Responses WebSocket event was not valid JSON".to_owned(),
            ResponsesError::UnexpectedBinary =>
                "Responses WebSocket returned a binary data frame; expected JSON text".to_owned(),
            ResponsesError::EncodeRequest =>
                "failed to encode a Responses WebSocket request".to_owned(),
            ResponsesError::InvalidPayload { event } => join(
                "Responses API event did not match its declared type: ",
                event.as_str(),
            ),
            ResponsesError::Closed { detail } => join(
                "Responses WebSocket closed ",
                detail.as_str(),
            ),
            ResponsesError::Api { event, .. } => join(
                "Responses API returned an error event: ",
                event.as_str(),
            ),
            ResponsesError::ContextWindowExceeded { .. } =>
                "Responses input exceeded the model context window".to_owned(),
            ResponsesError::InvalidImageRequest { event } => join(
                "Responses API rejected invalid image data: ",
                event.as_str(),
            ),
            ResponsesError::HttpRequest(_) => "Responses HTTPS request failed".to_owned(),
            ResponsesError::HttpRejected { status, body, .. } => join3(
                "Responses HTTPS request was rejected with HTTP ",
                decimal_text(*status as u64).as_str(),
                ": ",
            ).concat(body.as_str()),
            ResponsesError::InvalidSseUtf8 =>
                "Responses HTTPS stream contained invalid UTF-8".to_owned(),
        }
    }
}

/// What needs another conversation rather than another attempt is not retried:
/// neither an exceeded context window nor a missing checkpoint.
pub proof fn law_exhaustion_and_missing_checkpoints_are_not_retried(error: ResponsesError)
    requires
        error is ContextWindowExceeded || error.checkpoint_missing(),
    ensures
        error.advice() is None,
{
    if error.checkpoint_missing() {
        match error {
            ResponsesError::Api { fields, .. } => {
                api_error::law_terminal_codes_are_not_retried(fields->0);
            },
            _ => {},
        }
    }
}

/// A transport failure is retried exactly when another attempt may succeed: a
/// deadline passed, a connection broke, the server was busy or failed, or the
/// provider says so.
pub proof fn law_passing_failures_are_retried(error: ResponsesError)
    ensures
        error.advice() is Some <==> match error {
            ResponsesError::HandshakeTimeout { .. }
            | ResponsesError::SendTimeout { .. }
            | ResponsesError::IdleTimeout { .. }
            | ResponsesError::UnexpectedEnd
            | ResponsesError::Closed { .. } => true,
            ResponsesError::Handshake(fault) => !(fault is Other),
            ResponsesError::Send(fault) => !(fault is Other),
            ResponsesError::Receive(fault) => !(fault is Other),
            ResponsesError::HandshakeRejected { status, .. } => status == 429 || 500 <= status
                <= 599,
            ResponsesError::HttpRejected { status, .. } => status == 429 || 500 <= status <= 599,
            ResponsesError::HttpRequest(fault) => fault.timeout || fault.connect || fault.body,
            ResponsesError::Api { fields, .. } => fields is Some && fields->0.advice() is Some,
            _ => false,
        },
{
}

/// A retry waits as long as the server asked for and never longer: a rejected
/// request for the delay of the rejection, an error event for the delay of the
/// event, anything else not at all.
pub proof fn law_retries_wait_as_the_server_asks(error: ResponsesError)
    requires
        error.advice() is Some,
    ensures
        match error {
            ResponsesError::HandshakeRejected { retry_after, .. } => error.advice()->0.server_delay
                == retry_after,
            ResponsesError::HttpRejected { retry_after, .. } => error.advice()->0.server_delay
                == retry_after,
            ResponsesError::Api { fields, .. } => error.advice() == fields->0.advice(),
            _ => error.advice()->0.server_delay is None,
        },
{
}

/// The class of a retry tells the step that failed and how: rate limits apart
/// from server failures, deadlines apart from broken connections, and WebSockets
/// apart from HTTPS.
pub proof fn law_retries_are_classed_by_step(error: ResponsesError)
    requires
        error.advice() is Some,
    ensures
        error is HandshakeTimeout ==> error.advice()->0.class == "handshake_timeout"@,
        error is Handshake ==> error.advice()->0.class == "handshake_transport"@,
        error matches ResponsesError::HandshakeRejected { status, .. } ==> error.advice()->0.class
            == if status == 429 {
            "handshake_rate_limit"@
        } else {
            "handshake_server"@
        },
        error is SendTimeout ==> error.advice()->0.class == "send_timeout"@,
        error is Send ==> error.advice()->0.class == "send_transport"@,
        error is IdleTimeout ==> error.advice()->0.class == "event_idle_timeout"@,
        error is UnexpectedEnd || error is Closed ==> error.advice()->0.class
            == "premature_close"@,
        error is Receive ==> error.advice()->0.class == "receive_transport"@,
        error matches ResponsesError::HttpRequest(fault) ==> error.advice()->0.class
            == if fault.timeout {
            "https_timeout"@
        } else {
            "https_transport"@
        },
        error matches ResponsesError::HttpRejected { status, .. } ==> error.advice()->0.class
            == if status == 429 {
            "https_rate_limit"@
        } else {
            "https_server"@
        },
{
}

/// Telemetry classes a rejected or failed HTTPS request as a retry of it would
/// be, and an error event by whether the provider lost the continuation.
pub proof fn law_telemetry_agrees_with_retries(error: ResponsesError)
    ensures
        (error is HttpRequest || error is HttpRejected || error is HandshakeTimeout
            || error is SendTimeout || error is IdleTimeout || error is UnexpectedEnd)
            && error.advice() is Some ==> error.class_name() == error.advice()->0.class,
        error is HttpRejected && error.advice() is None ==> error.class_name() == "https_rejected"@,
        error matches ResponsesError::Api { fields, .. } ==> {
            let lost = fields is Some && fields->0.detail() is Some && (fields->0.detail()->0.code
                matches Some(code) && code@ == "previous_response_not_found"@);
            &&& error.checkpoint_missing() <==> lost
            &&& lost ==> error.class_name() == "checkpoint_missing"@
            &&& !lost ==> error.class_name() == "api"@
        },
        !(error is Api) ==> !error.checkpoint_missing(),
{
}

/// A transport error names what it knows: the status and the answer of a
/// rejection, the seconds of a deadline, the event or detail of the provider.
pub proof fn law_messages_name_what_is_known(error: ResponsesError)
    ensures
        error matches ResponsesError::HandshakeRejected { status, body, .. } ==> text::ends_with(
            error.text(),
            text::decimal_digits(status as nat) + ": "@ + body@,
        ),
        error matches ResponsesError::HttpRejected { status, body, .. } ==> text::ends_with(
            error.text(),
            text::decimal_digits(status as nat) + ": "@ + body@,
        ),
        error matches ResponsesError::HandshakeTimeout { seconds } ==> text::ends_with(
            error.text(),
            text::decimal_digits(seconds as nat) + " seconds"@,
        ),
        error matches ResponsesError::SendTimeout { seconds } ==> text::ends_with(
            error.text(),
            text::decimal_digits(seconds as nat) + " seconds"@,
        ),
        error matches ResponsesError::IdleTimeout { seconds } ==> text::ends_with(
            error.text(),
            text::decimal_digits(seconds as nat) + " seconds"@,
        ),
        error matches ResponsesError::Authorization { detail } ==> text::ends_with(error.text(), detail@),
        error matches ResponsesError::Closed { detail } ==> text::ends_with(error.text(), detail@),
        error matches ResponsesError::InvalidPayload { event } ==> text::ends_with(error.text(), event@),
        error matches ResponsesError::Api { event, .. } ==> text::ends_with(error.text(), event@),
        error matches ResponsesError::InvalidImageRequest { event } ==> text::ends_with(
            error.text(),
            event@,
        ),
{
    let words = error.text();
    match error {
        ResponsesError::HandshakeRejected { status, body, .. } => {
            let known = text::decimal_digits(status as nat) + ": "@ + body@;
            text::lemma_ends_with("Responses WebSocket handshake was rejected with HTTP "@, known);
            assert(words =~= "Responses WebSocket handshake was rejected with HTTP "@ + known);
        },
        ResponsesError::HttpRejected { status, body, .. } => {
            let known = text::decimal_digits(status as nat) + ": "@ + body@;
            text::lemma_ends_with("Responses HTTPS request was rejected with HTTP "@, known);
            assert(words =~= "Responses HTTPS request was rejected with HTTP "@ + known);
        },
        ResponsesError::HandshakeTimeout { seconds } => {
            let known = text::decimal_digits(seconds as nat) + " seconds"@;
            text::lemma_ends_with("Responses WebSocket handshake exceeded "@, known);
            assert(words =~= "Responses WebSocket handshake exceeded "@ + known);
        },
        ResponsesError::SendTimeout { seconds } => {
            let known = text::decimal_digits(seconds as nat) + " seconds"@;
            text::lemma_ends_with("sending a Responses WebSocket frame exceeded "@, known);
            assert(words =~= "sending a Responses WebSocket frame exceeded "@ + known);
        },
        ResponsesError::IdleTimeout { seconds } => {
            let known = text::decimal_digits(seconds as nat) + " seconds"@;
            text::lemma_ends_with("Responses WebSocket produced no event for "@, known);
            assert(words =~= "Responses WebSocket produced no event for "@ + known);
        },
        ResponsesError::Authorization { detail } => text::lemma_ends_with(
            "failed to resolve OpenAI authorization: "@,
            detail@,
        ),
        ResponsesError::Closed { detail } => text::lemma_ends_with(
            "Responses WebSocket closed "@,
            detail@,
        ),
        ResponsesError::InvalidPayload { event } => text::lemma_ends_with(
            "Responses API event did not match its declared type: "@,
            event@,
        ),
        ResponsesError::Api { event, .. } => text::lemma_ends_with(
            "Responses API returned an error event: "@,
            event@,
        ),
        ResponsesError::InvalidImageRequest { event } => text::lemma_ends_with(
            "Responses API rejected invalid image data: "@,
            event@,
        ),
        _ => {},
    }
}

} // verus!
