//! Errors of the transport that an embedding host provides.
use crate::text;
use crate::text::{decimal_text, join, join3};
use crate::transport::api_error;
use crate::transport::api_error::{api_error_has_code, ApiErrorEnvelope, RetryAdvice};
use crate::transport::error;
use vstd::prelude::*;
use vstd::string::*;

verus! {

/// Errors produced by the host-backed transport.
#[derive(Debug)]
pub enum ResponsesError {
    /// Authorization could not be resolved.
    Authorization {
        /// Credential-resolution detail without the credential value.
        detail: String,
    },
    /// Establishing the host-backed WebSocket connection failed.
    Connect {
        /// Host transport failure detail.
        detail: String,
    },
    /// Sending a host-backed WebSocket frame failed.
    Send {
        /// Host transport failure detail.
        detail: String,
        /// Whether opening a replacement socket may safely recover.
        reconnectable: bool,
    },
    /// Receiving a host-backed WebSocket frame failed.
    Receive(String),
    /// No response event arrived before the idle deadline.
    IdleTimeout {
        /// Configured idle timeout in seconds.
        seconds: u64,
    },
    /// The WebSocket stream ended without a close frame.
    UnexpectedEnd,
    /// A received WebSocket event was not valid JSON.
    InvalidJson,
    /// The endpoint returned a binary frame where text JSON was required.
    UnexpectedBinary,
    /// A typed request could not be serialized.
    EncodeRequest,
    /// An event's payload did not match the shape declared by its type.
    InvalidPayload {
        /// Complete retained provider event.
        event: String,
    },
    /// The WebSocket closed with provider-supplied detail.
    Closed {
        /// Close code and reason.
        detail: String,
    },
    /// The API returned a typed error event.
    Api {
        /// Complete retained provider event.
        event: String,
        /// The event's error fields, where they could be read.
        fields: Option<ApiErrorEnvelope>,
    },
    /// The request exceeded the model context window.
    ContextWindowExceeded {
        /// Complete retained provider event.
        event: String,
    },
    /// The provider rejected malformed or unsupported image data.
    InvalidImageRequest {
        /// Complete retained provider event.
        event: String,
    },
}

impl ResponsesError {
    /// The retry metadata owed for an error.
    pub open spec fn advice(self) -> Option<api_error::AdviceView> {
        match self {
            ResponsesError::Connect { .. } => error::at_once("handshake_transport"@),
            ResponsesError::Send { reconnectable, .. } => if reconnectable {
                error::at_once("send_transport"@)
            } else {
                None
            },
            ResponsesError::Receive(_) => error::at_once("receive_transport"@),
            ResponsesError::IdleTimeout { .. } => error::at_once("event_idle_timeout"@),
            ResponsesError::UnexpectedEnd => error::at_once("premature_close"@),
            ResponsesError::Closed { .. } => error::at_once("premature_close"@),
            _ => None,
        }
    }

    /// Whether the provider no longer recognizes a continuation.
    pub open spec fn checkpoint_missing(self) -> bool {
        self matches ResponsesError::Api { fields, .. } && fields is Some && fields->0.has_code(
            "previous_response_not_found"@,
        )
    }

    /// The telemetry class of an error.
    pub open spec fn class_name(self) -> Seq<char> {
        match self {
            ResponsesError::Authorization { .. } => "authorization"@,
            ResponsesError::Connect { .. } => "handshake"@,
            ResponsesError::Send { .. } => "send"@,
            ResponsesError::Receive(_) => "receive"@,
            ResponsesError::IdleTimeout { .. } => "event_idle_timeout"@,
            ResponsesError::UnexpectedEnd => "premature_close"@,
            ResponsesError::InvalidJson => "invalid_json"@,
            ResponsesError::UnexpectedBinary => "unexpected_binary"@,
            ResponsesError::EncodeRequest => "encode_request"@,
            ResponsesError::InvalidPayload { .. } => "invalid_payload"@,
            ResponsesError::Closed { .. } => "closed"@,
            ResponsesError::Api { .. } => if self.checkpoint_missing() {
                "checkpoint_missing"@
            } else {
                "api"@
            },
            ResponsesError::ContextWindowExceeded { .. } => "context_window_exceeded"@,
            ResponsesError::InvalidImageRequest { .. } => "invalid_image_request"@,
        }
    }

    /// Returns the retry classification, if retrying is safe.
    pub fn retry_advice(&self) -> (r: Option<RetryAdvice>)
        ensures
            api_error::advises(r, self.advice()),
    {
        let class = match self {
            ResponsesError::Connect { .. } => "handshake_transport",
            ResponsesError::Send { reconnectable, .. } => if *reconnectable {
                "send_transport"
            } else {
                return None;
            },
            ResponsesError::Receive(_) => "receive_transport",
            ResponsesError::IdleTimeout { .. } => "event_idle_timeout",
            ResponsesError::UnexpectedEnd => "premature_close",
            ResponsesError::Closed { .. } => "premature_close",
            _ => return None,
        };
        Some(RetryAdvice { class, server_delay: None })
    }

    /// Returns a stable low-cardinality error class for telemetry.
    pub fn class(&self) -> (r: &'static str)
        ensures
            r@ == self.class_name(),
    {
        match self {
            ResponsesError::Authorization { .. } => "authorization",
            ResponsesError::Connect { .. } => "handshake",
            ResponsesError::Send { .. } => "send",
            ResponsesError::Receive(_) => "receive",
            ResponsesError::IdleTimeout { .. } => "event_idle_timeout",
            ResponsesError::UnexpectedEnd => "premature_close",
            ResponsesError::InvalidJson => "invalid_json",
            ResponsesError::UnexpectedBinary => "unexpected_binary",
            ResponsesError::EncodeRequest => "encode_request",
            ResponsesError::InvalidPayload { .. } => "invalid_payload",
            ResponsesError::Closed { .. } => "closed",
            ResponsesError::Api { .. } => if self.is_checkpoint_missing() {
                "checkpoint_missing"
            } else {
                "api"
            },
            ResponsesError::ContextWindowExceeded { .. } => "context_window_exceeded",
            ResponsesError::InvalidImageRequest { .. } => "invalid_image_request",
        }
    }

    /// Returns whether the provider no longer has the requested checkpoint.
    pub fn is_checkpoint_missing(&self) -> (r: bool)
        ensures
            r == self.checkpoint_missing(),
    {
        match self {
            ResponsesError::Api { fields, .. } => api_error_has_code(
                fields.as_ref(),
                "previous_response_not_found",
            ),
            _ => false,
        }
    }

    /// Returns whether the provider rejected the request for exceeding its
    /// context window.
    pub fn is_context_window_exceeded(&self) -> (r: bool)
        ensures
            r == (self is ContextWindowExceeded),
    {
        match self {
            ResponsesError::ContextWindowExceeded { .. } => true,
            _ => false,
        }
    }

    /// Turns an error event into the error that it reports. `fields` are the
    /// error fields of `event`, where they can be read.
    pub fn api_event(event: String, fields: Option<ApiErrorEnvelope>) -> (r: Self)
        ensures
            r == (if fields is Some && fields->0.has_code("context_length_exceeded"@) {
                ResponsesError::ContextWindowExceeded { event }
            } else {
                ResponsesError::Api { event, fields }
            }),
    {
        if api_error_has_code(fields.as_ref(), "context_length_exceeded") {
            ResponsesError::ContextWindowExceeded { event }
        } else {
            ResponsesError::Api { event, fields }
        }
    }

    /// The message of an error.
    pub open spec fn text(self) -> Seq<char> {
        match self {
            ResponsesError::Authorization { detail } =>
                "failed to resolve OpenAI authorization: "@ + detail@,
            ResponsesError::Connect { detail } =>
                "failed to connect to the Responses WebSocket: "@ + detail@,
            ResponsesError::Send { detail, .. } =>
                "failed to send a Responses WebSocket frame: "@ + detail@,
            ResponsesError::Receive(detail) =>
                "failed to receive a Responses WebSocket frame: "@ + detail@,
            ResponsesError::IdleTimeout { seconds } =>
                "Responses WebSocket produced no event for "@ + text::decimal_digits(
                seconds as nat,
            ) + " seconds"@,
            ResponsesError::UnexpectedEnd => "Responses WebSocket closed without a close frame"@,
            ResponsesError::InvalidJson => "Responses WebSocket event was not valid JSON"@,
            ResponsesError::UnexpectedBinary =>
                "Responses WebSocket returned a binary data frame; expected JSON text"@,
            ResponsesError::EncodeRequest => "failed to encode a Responses WebSocket request"@,
            ResponsesError::InvalidPayload { event } =>
                "Responses API event did not match its declared type: "@ + event@,
            ResponsesError::Closed { detail } => "Responses WebSocket closed "@ + detail@,
            ResponsesError::Api { event, .. } => "Responses API returned an error event: "@
                + event@,
            ResponsesError::ContextWindowExceeded { .. } =>
                "Responses input exceeded the model context window"@,
            ResponsesError::InvalidImageRequest { event } =>
                "Responses API rejected invalid image data: "@ + event@,
        }
    }

    /// Describes the error.
    pub fn message(&self) -> (r: String)
        ensures
            r@ == self.text(),
    {
        match self {
            ResponsesError::Authorization { detail } => join(
                "failed to resolve OpenAI authorization: ",
                detail.as_str(),
            ),
            ResponsesError::Connect { detail } => join(
                "failed to connect to the Responses WebSocket: ",
                detail.as_str(),
            ),
            ResponsesError::Send { detail, .. } => join(
                "failed to send a Responses WebSocket frame: ",
                detail.as_str(),
            ),
            ResponsesError::Receive(detail) => join(
                "failed to receive a Responses WebSocket frame: ",
                detail.as_str(),
            ),
            ResponsesError::IdleTimeout { seconds } => join3(
                "Responses WebSocket produced no event for ",
                decimal_text(*seconds).as_str(),
                " seconds",
            ),
            ResponsesError::UnexpectedEnd =>
                "Responses WebSocket closed without a close frame".to_owned(),
            ResponsesError::InvalidJson =>
                "Responses WebSocket event was not valid JSON".to_owned(),
            ResponsesError::UnexpectedBinary =>
                "Responses WebSocket returned a binary data frame; expected JSON text".to_owned(),
            ResponsesError::EncodeRequest =>
                "failed to encode a Responses WebSocket request".to_owned(),
            ResponsesError::InvalidPayload { event } => join(
                "Responses API event did not match its declared type: ",
                event.as_str(),
            ),
            ResponsesError::Closed { detail } => join(
                "Responses WebSocket closed ",
                detail.as_str(),
            ),
            ResponsesError::Api { event, .. } => join(
                "Responses API returned an error event: ",
                event.as_str(),
            ),
            ResponsesError::ContextWindowExceeded { .. } =>
                "Responses input exceeded the model context window".to_owned(),
            ResponsesError::InvalidImageRequest { event } => join(
                "Responses API rejected invalid image data: ",
                event.as_str(),
            ),
        }
    }
}

/// A failure of the host's transport is retried exactly when another connection
/// may help, and at once; its class tells the step that failed.
pub proof fn law_broken_host_connections_are_retried(error: ResponsesError)
    ensures
        error.advice() is Some <==> match error {
            ResponsesError::Connect { .. }
            | ResponsesError::Receive(_)
            | ResponsesError::IdleTimeout { .. }
            | ResponsesError::UnexpectedEnd
            | ResponsesError::Closed { .. } => true,
            ResponsesError::Send { reconnectable, .. } => reconnectable,
            _ => false,
        },
        error.advice() matches Some(advice) ==> {
            &&& advice.server_delay is None
            &&& error is Connect ==> advice.class == "handshake_transport"@
            &&& error is Send ==> advice.class == "send_transport"@
            &&& error is Receive ==> advice.class == "receive_transport"@
            &&& error is IdleTimeout ==> advice.class == "event_idle_timeout"@
            &&& error is UnexpectedEnd || error is Closed ==> advice.class == "premature_close"@
        },
{
}

/// An error event tells whether the provider lost the continuation, and nothing
/// else does.
pub proof fn law_host_events_tell_of_a_lost_continuation(error: ResponsesError)
    ensures
        error matches ResponsesError::Api { fields, .. } ==> {
            let lost = fields is Some && fields->0.detail() is Some && (fields->0.detail()->0.code
                matches Some(code) && code@ == "previous_response_not_found"@);
            &&& error.checkpoint_missing() <==> lost
            &&& lost ==> error.class_name() == "checkpoint_missing"@
            &&& !lost ==> error.class_name() == "api"@
        },
        !(error is Api) ==> !error.checkpoint_missing(),
{
}

/// An error of the host's transport names what it knows.
pub proof fn law_host_messages_name_what_is_known(error: ResponsesError)
    ensures
        error matches ResponsesError::Authorization { detail } ==> text::ends_with(error.text(), detail@),
        error matches ResponsesError::Connect { detail } ==> text::ends_with(error.text(), detail@),
        error matches ResponsesError::Send { detail, .. } ==> text::ends_with(error.text(), detail@),
        error matches ResponsesError::Receive(detail) ==> text::ends_with(error.text(), detail@),
        error matches ResponsesError::Closed { detail } ==> text::ends_with(error.text(), detail@),
        error matches ResponsesError::InvalidPayload { event } ==> text::ends_with(error.text(), event@),
        error matches ResponsesError::Api { event, .. } ==> text::ends_with(error.text(), event@),
        error matches ResponsesError::InvalidImageRequest { event } ==> text::ends_with(
            error.text(),
            event@,
        ),
        error matches ResponsesError::IdleTimeout { seconds } ==> text::ends_with(
            error.text(),
            text::decimal_digits(seconds as nat) + " seconds"@,
        ),
{
    let words = error.text();
    match error {
        ResponsesError::Authorization { detail } => text::lemma_ends_with(
            "failed to resolve OpenAI authorization: "@,
            detail@,
        ),
        ResponsesError::Connect { detail } => text::lemma_ends_with(
            "failed to connect to the Responses WebSocket: "@,
            detail@,
        ),
        ResponsesError::Send { detail, .. } => text::lemma_ends_with(
            "failed to send a Responses WebSocket frame: "@,
            detail@,
        ),
        ResponsesError::Receive(detail) => text::lemma_ends_with(
            "failed to receive a Responses WebSocket frame: "@,
            detail@,
        ),
        ResponsesError::Closed { detail } => text::lemma_ends_with(
            "Responses WebSocket closed "@,
            detail@,
        ),
        ResponsesError::InvalidPayload { event } => text::lemma_ends_with(
            "Responses API event did not match its declared type: "@,
            event@,
        ),
        ResponsesError::Api { event, .. } => text::lemma_ends_with(
            "Responses API returned an error event: "@,
            event@,
        ),
        ResponsesError::InvalidImageRequest { event } => text::lemma_ends_with(
            "Responses API rejected invalid image data: "@,
            event@,
        ),
        ResponsesError::IdleTimeout { seconds } => {
            let known = text::decimal_digits(seconds as nat) + " seconds"@;
            text::lemma_ends_with("Responses WebSocket produced no event for "@, known);
            assert(words =~= "Responses WebSocket produced no event for "@ + known);
        },
        _ => {},
    }
}

} // verus!
