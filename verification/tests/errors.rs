use nanocodex::error::{ErrorLink, NanocodexError, ResponsesServiceError};
use nanocodex::response::{error_chain_has_context_window, ResponseError};
use nanocodex::tools::ToolsBuildError;
use nanocodex::transport::api_error::{
    eq_ignoring_ascii_case, retry_after_header, retryable_api_error, ApiErrorDetail,
    ApiErrorEnvelope, EventHeader, RetryDelay,
};
use nanocodex::transport::error::{HttpFault, ResponsesError, WebSocketFault};
use nanocodex::transport::host_error::ResponsesError as HostError;

fn detail(value: &serde_json::Value) -> Option<ApiErrorDetail> {
    value.as_object()?;
    Some(ApiErrorDetail {
        kind: value["type"].as_str().map(str::to_owned),
        code: value["code"].as_str().map(str::to_owned),
        retry_after: None,
    })
}

fn envelope(event: &str) -> ApiErrorEnvelope {
    let value = serde_json::from_str::<serde_json::Value>(event).unwrap();
    ApiErrorEnvelope {
        error: detail(&value["error"]),
        response_error: detail(&value["response"]["error"]),
        headers: Vec::new(),
    }
}

fn api(event: &str) -> ResponsesError {
    ResponsesError::api_event(event.to_owned(), Some(envelope(event)))
}

#[test]
fn responses_classification_covers_every_service_boundary() {
    let direct = NanocodexError::Responses(ResponsesError::UnexpectedEnd);
    assert!(matches!(direct.responses_error(), Some(ResponsesError::UnexpectedEnd)));

    let service = NanocodexError::ResponsesService(ResponsesServiceError::from_transport(
        ResponsesError::UnexpectedEnd,
    ));
    assert!(matches!(service.responses_error(), Some(ResponsesError::UnexpectedEnd)));

    let service = ResponsesServiceError::from_transport(ResponsesError::UnexpectedEnd);
    let error = NanocodexError::ResponsesMiddleware(vec![ErrorLink::Service(service)]);
    assert!(matches!(error.responses_error(), Some(ResponsesError::UnexpectedEnd)));
    assert_eq!(
        error.message(),
        "Responses service middleware failed: Responses WebSocket closed without a close frame"
    );
}

#[test]
fn retries_server_error_reported_as_error_type() {
    let event = r#"{
            "type":"error",
            "error":{
                "type":"server_error",
                "code":null,
                "message":"An error occurred while processing the request."
            }
        }"#;

    assert_eq!(
        retryable_api_error(Some(&envelope(event))).map(|advice| advice.class),
        Some("api_server")
    );
}

#[test]
fn classifies_context_window_failures_from_nested_response_errors() {
    let error = api(
        r#"{
                "type": "response.failed",
                "response": {
                    "error": {
                        "code": "context_length_exceeded",
                        "message": "maximum context length exceeded"
                    }
                }
            }"#,
    );

    assert!(error.is_context_window_exceeded());
    assert_eq!(error.class(), "context_window_exceeded");
    assert!(error.retry_advice().is_none());
}

#[test]
fn error_code_takes_precedence_over_error_type() {
    let event = r#"{
            "type":"error",
            "error":{
                "type":"server_error",
                "code":"invalid_prompt"
            }
        }"#;

    assert!(retryable_api_error(Some(&envelope(event))).is_none());
}

#[test]
fn unreadable_events_are_not_retried() {
    assert!(retryable_api_error(None).is_none());
    let error = ResponsesError::api_event("not JSON".to_owned(), None);
    assert!(error.retry_advice().is_none());
    assert!(!error.is_context_window_exceeded());
}

#[test]
fn rate_limits_wait_as_long_as_the_server_asks() {
    let delay = RetryDelay { seconds: 2, nanoseconds: 500_000_000 };
    let mut event = envelope(r#"{"error":{"code":"rate_limit_exceeded"}}"#);
    event.headers.push(EventHeader { name: "Retry-After".to_owned(), delay: Some(delay) });
    let advice = retryable_api_error(Some(&event)).unwrap();
    assert_eq!(advice.server_delay, Some(delay));
    assert_eq!(retry_after_header(&event.headers), Some(delay));
    assert_eq!(retry_after_header(&Vec::new()), None);
    assert!(eq_ignoring_ascii_case("Retry-After", "rETRY-aFTER"));
    assert!(!eq_ignoring_ascii_case("é", "É"));
    assert!(!eq_ignoring_ascii_case("a", "ab"));
}

fn boxed_context_window_error() -> ResponseError {
    let service_error = ResponsesServiceError::from_transport(ResponsesError::ContextWindowExceeded {
        event: r#"{"error":{"code":"context_length_exceeded"}}"#.to_owned(),
    });
    ResponseError::service(vec![ErrorLink::Service(service_error)])
}

#[test]
fn session_boxed_tower_errors_preserve_context_window_classification() {
    let error = boxed_context_window_error();

    assert!(error.is_context_window_exceeded());
    assert!(error.source().is_some());
}

#[test]
fn tests_boxed_tower_errors_preserve_context_window_classification() {
    let error = boxed_context_window_error();

    assert!(error.is_context_window_exceeded());
    assert!(error.source().is_some());
}

#[test]
fn context_window_failures_are_found_anywhere_in_a_chain() {
    let exceeded = || ResponsesError::ContextWindowExceeded { event: String::new() };
    let chain = vec![
        ErrorLink::Other("outer".to_owned()),
        ErrorLink::Service(ResponsesServiceError::from_transport(exceeded())),
    ];
    assert!(error_chain_has_context_window(&chain));
    assert!(!error_chain_has_context_window(&vec![ErrorLink::Responses(exceeded())]));
    assert!(!error_chain_has_context_window(&vec![ErrorLink::Other("outer".to_owned())]));
    let other = ResponseError::service(vec![ErrorLink::Other("scripted failure".to_owned())]);
    assert!(!other.is_context_window_exceeded());
    assert_eq!(other.message(), "scripted failure");
    let protocol = ResponseError::protocol("no output");
    assert!(protocol.source().is_none());
    assert!(!protocol.is_context_window_exceeded());
}

#[test]
fn broken_connections_are_retried_and_refusals_are_not() {
    assert_eq!(
        ResponsesError::Receive(WebSocketFault::Io).retry_advice().map(|advice| advice.class),
        Some("receive_transport")
    );
    assert!(ResponsesError::Receive(WebSocketFault::Other).retry_advice().is_none());
    assert!(ResponsesError::InvalidJson.retry_advice().is_none());
    assert!(ResponsesError::IdleTimeout { seconds: 30 }.retry_advice().is_some());
    let rejected = |status: u16| ResponsesError::HttpRejected {
        status,
        body: String::new(),
        retry_after: None,
    };
    assert!(rejected(503).retry_advice().is_some());
    assert!(rejected(429).retry_advice().is_some());
    assert!(rejected(400).retry_advice().is_none());
    let fault = HttpFault { timeout: true, connect: false, body: false };
    assert!(ResponsesError::HttpRequest(fault).retry_advice().is_some());
    let fault = HttpFault { timeout: false, connect: false, body: false };
    assert!(ResponsesError::HttpRequest(fault).retry_advice().is_none());
}

#[test]
fn host_errors_follow_the_same_classes() {
    let lost = HostError::Send { detail: "lost".to_owned(), reconnectable: true };
    assert!(lost.retry_advice().is_some());
    let kept = HostError::Send { detail: "kept".to_owned(), reconnectable: false };
    assert!(kept.retry_advice().is_none());
    let exceeded = HostError::api_event(
        "{}".to_owned(),
        Some(envelope(r#"{"error":{"code":"context_length_exceeded"}}"#)),
    );
    assert!(exceeded.is_context_window_exceeded());
    assert_eq!(exceeded.class(), "context_window_exceeded");
}

#[test]
fn agent_errors_are_described() {
    for (error, expected) in [
        (
            NanocodexError::ResolveWorkspace { path: "/w".to_owned(), source: "gone".to_owned() },
            "failed to resolve task workspace /w: gone",
        ),
        (
            NanocodexError::WorkspaceNotDirectory { path: "/w".to_owned() },
            "task workspace is not a directory: /w",
        ),
        (
            NanocodexError::WorkspaceNotUtf8 { path: "/w".to_owned() },
            "task workspace path is not valid UTF-8: /w",
        ),
        (
            NanocodexError::ReadProjectInstructions {
                path: "/w/AGENTS.md".to_owned(),
                source: "denied".to_owned(),
            },
            "failed to read project instructions from /w/AGENTS.md: denied",
        ),
        (
            NanocodexError::SerializePromptPrefix("cycle".to_owned()),
            "failed to fingerprint the immutable prompt prefix: cycle",
        ),
        (
            NanocodexError::TokioRuntimeUnavailable,
            "building an agent requires an active Tokio runtime",
        ),
        (NanocodexError::Event("closed".to_owned()), "closed"),
        (
            NanocodexError::Tools(ToolsBuildError::EmptyName),
            "failed to build tools for an agent driver: tool name must not be empty",
        ),
    ] {
        assert_eq!(error.message(), expected);
        assert!(error.responses_error().is_none());
    }
}
