//! Errors of the agent's boundary.
use crate::code_mode::TerminalToolReceiptError;
use crate::text;
use crate::text::{join, join3};
use crate::tools::ToolsBuildError;
use crate::transport::error::ResponsesError;
use std::sync::Arc;
use vstd::prelude::*;
use vstd::string::*;

verus! {

/// A failure of the provider service.
#[derive(Debug)]
pub struct ResponsesServiceError {
    /// The transport error, where the failure is one.
    pub error: Option<ResponsesError>,
    /// The message of a failure that is no transport error.
    pub other: String,
}

impl ResponsesServiceError {
    /// Wraps a transport error.
    pub fn from_transport(error: ResponsesError) -> (r: Self)
        ensures
            r.error == Some(error),
    {
        ResponsesServiceError { error: Some(error), other: String::new() }
    }

    /// Returns the transport error, where the failure is one.
    pub fn responses_error(&self) -> (r: Option<&ResponsesError>)
        ensures
            match r {
                Some(error) => self.error == Some(*error),
                None => self.error is None,
            },
    {
        match &self.error {
            Some(error) => Some(error),
            None => None,
        }
    }

    /// The message of a failure.
    pub open spec fn text(self) -> Seq<char> {
        match self.error {
            Some(error) => error.text(),
            None => self.other@,
        }
    }

    /// Describes the failure.
    pub fn message(&self) -> (r: String)
        ensures
            r@ == self.text(),
    {
        match &self.error {
            Some(error) => error.message(),
            None => self.other.clone(),
        }
    }
}

/// One error in the chain of causes behind a middleware failure.
#[derive(Debug)]
pub enum ErrorLink {
    /// A failure of the provider service.
    Service(ResponsesServiceError),
    /// A transport error.
    Responses(ResponsesError),
    /// Any other error, by its message.
    Other(String),
}

impl ErrorLink {
    /// The message of a cause.
    pub open spec fn text(self) -> Seq<char> {
        match self {
            ErrorLink::Service(error) => error.text(),
            ErrorLink::Responses(error) => error.text(),
            ErrorLink::Other(message) => message@,
        }
    }

    /// Describes the cause.
    pub fn message(&self) -> (r: String)
        ensures
            r@ == self.text(),
    {
        match self {
            ErrorLink::Service(error) => error.message(),
            ErrorLink::Responses(error) => error.message(),
            ErrorLink::Other(message) => message.clone(),
        }
    }
}

/// The transport error that a chain of causes leads to: that of the first
/// cause which is a service failure or a transport error.
pub open spec fn chain_error(chain: Seq<ErrorLink>) -> Option<ResponsesError>
    decreases chain.len(),
{
    if chain.len() == 0 {
        None
    } else {
        match chain[0] {
            ErrorLink::Service(error) => error.error,
            ErrorLink::Responses(error) => Some(error),
            ErrorLink::Other(_) => chain_error(chain.skip(1)),
        }
    }
}

/// Error returned by the agent's boundary.
#[derive(Debug)]
pub enum NanocodexError {
    /// Caller input or two configured policies are incompatible.
    InvalidRequest(String),
    /// The configured workspace could not be resolved.
    ResolveWorkspace {
        /// Workspace that the caller supplied.
        path: String,
        /// Underlying failure.
        source: String,
    },
    /// The resolved workspace exists but is not a directory.
    WorkspaceNotDirectory {
        /// Resolved workspace.
        path: String,
    },
    /// The resolved workspace cannot be written as UTF-8.
    WorkspaceNotUtf8 {
        /// Resolved workspace, as far as it can be written.
        path: String,
    },
    /// A follow-on prompt attempted to change an owned session's workspace.
    WorkspaceChanged {
        /// Workspace already owned by the session.
        current: String,
        /// Conflicting workspace requested by the caller.
        requested: String,
    },
    /// Project instructions could not be read.
    ReadProjectInstructions {
        /// Instruction file.
        path: String,
        /// Underlying failure.
        source: String,
    },
    /// A completed provider response violated an agent-loop invariant.
    MalformedResponse {
        /// Stable invariant failure description.
        detail: &'static str,
    },
    /// A service returned an output for the wrong kind of attempt.
    InvalidAttemptState {
        /// Stable invalid-state description.
        detail: &'static str,
    },
    /// The immutable request prefix could not be written for its fingerprint.
    SerializePromptPrefix(String),
    /// More than one tool call would have ended the turn.
    AmbiguousTerminalTools,
    /// A tool call that would have ended the turn left too much behind.
    TerminalToolReceipt(TerminalToolReceiptError),
    /// The private driver stopped before accepting a command.
    AgentStopped,
    /// The private driver stopped after accepting a turn but before delivering
    /// its result.
    TurnStopped,
    /// Steering targeted a queued or terminal turn.
    TurnNotSteerable,
    /// The active turn cannot accept more queued steering input.
    SteerQueueFull,
    /// Cancellation targeted an already terminal turn.
    TurnNotCancellable,
    /// The targeted turn was cancelled after its resources stopped.
    TurnCancelled,
    /// A fork was requested before any safe committed boundary existed.
    ForkBeforeCompletedTurn,
    /// A historical result came from a different conversation lineage.
    CheckpointLineageMismatch,
    /// A serialized session snapshot failed structural or policy validation.
    InvalidSessionSnapshot(String),
    /// Agent construction was attempted outside an active Tokio runtime.
    TokioRuntimeUnavailable,
    /// Recording could not be initialized.
    InitializeRollout {
        /// State directory selected by the caller.
        codex_home: String,
        /// Underlying failure.
        source: String,
    },
    /// A committed rollout could not be durably persisted.
    PersistRollout {
        /// Rollout file that could not be written.
        path: String,
        /// Underlying failure.
        source: String,
    },
    /// The agent could not be shut down cleanly.
    Shutdown(Arc<NanocodexError>),
    /// An event could not be written.
    Event(String),
    /// The tools of an agent could not be built.
    Tools(ToolsBuildError),
    /// The provider protocol or transport failed.
    Responses(ResponsesError),
    /// The provider service failed.
    ResponsesService(ResponsesServiceError),
    /// Caller-composed middleware failed outside the typed service error. The
    /// first link is the failure itself, the others are its causes in order.
    ResponsesMiddleware(Vec<ErrorLink>),
}

impl NanocodexError {
    /// The transport error behind an error.
    pub open spec fn transport_error(self) -> Option<ResponsesError> {
        match self {
            NanocodexError::Responses(error) => Some(error),
            NanocodexError::ResponsesService(error) => error.error,
            NanocodexError::ResponsesMiddleware(chain) => chain_error(chain@),
            _ => None,
        }
    }

    /// Returns the underlying transport error, also when middleware wrapped
    /// the standard service error.
    pub fn responses_error(&self) -> (r: Option<&ResponsesError>)
        ensures
            match r {
                Some(error) => self.transport_error() == Some(*error),
                None => self.transport_error() is None,
            },
    {
        match self {
            NanocodexError::Responses(error) => Some(error),
            NanocodexError::ResponsesService(error) => error.responses_error(),
            NanocodexError::ResponsesMiddleware(chain) => {
                let mut i: usize = 0;
                proof {
                    assert(chain@.skip(0) =~= chain@);
                }
                while i < chain.len()
                    invariant
                        i <= chain@.len(),
                        self.transport_error() == chain_error(chain@.skip(i as int)),
                    decreases chain@.len() - i,
                {
                    proof {
                        assert(chain@.skip(i as int)[0] == chain@[i as int]);
                        assert(chain@.skip(i as int).skip(1) =~= chain@.skip(i as int + 1));
                    }
                    match &chain[i] {
                        ErrorLink::Service(error) => return error.responses_error(),
                        ErrorLink::Responses(error) => return Some(error),
                        ErrorLink::Other(_) => {},
                    }
                    i = i + 1;
                }
                None
            },
            _ => None,
        }
    }

    /// The message of an error.
    pub open spec fn text(self) -> Seq<char>
        decreases self,
    {
        match self {
            NanocodexError::InvalidRequest(detail) => "invalid task request: "@ + detail@,
            NanocodexError::ResolveWorkspace { path, source } =>
                "failed to resolve task workspace "@ + path@ + ": "@ + source@,
            NanocodexError::WorkspaceNotDirectory { path } =>
                "task workspace is not a directory: "@ + path@,
            NanocodexError::WorkspaceNotUtf8 { path } =>
                "task workspace path is not valid UTF-8: "@ + path@,
            NanocodexError::ReadProjectInstructions { path, source } =>
                "failed to read project instructions from "@ + path@ + ": "@ + source@,
            NanocodexError::SerializePromptPrefix(error) =>
                "failed to fingerprint the immutable prompt prefix: "@ + error@,
            NanocodexError::TokioRuntimeUnavailable =>
                "building an agent requires an active Tokio runtime"@,
            NanocodexError::Shutdown(error) => "failed to shut the agent down: "@ + error.text(),
            NanocodexError::Event(error) => error@,
            NanocodexError::Tools(error) => "failed to build tools for an agent driver: "@
                + error.text(),
            NanocodexError::WorkspaceChanged { current, requested } =>
                "an active agent session cannot change workspace from "@ + current@ + " to "@
                + requested@,
            NanocodexError::MalformedResponse { detail } => "malformed Responses API event: "@
                + detail@,
            NanocodexError::InvalidAttemptState { detail } =>
                "invalid Responses attempt state: "@ + detail@,
            NanocodexError::AmbiguousTerminalTools =>
                "more than one terminal tool succeeded in the turn"@,
            NanocodexError::TerminalToolReceipt(error) => error.text(),
            NanocodexError::AgentStopped => "the agent stopped before accepting the command"@,
            NanocodexError::TurnStopped => "the agent stopped before the turn completed"@,
            NanocodexError::TurnNotSteerable =>
                "the targeted turn is queued, completed, or otherwise not active for steering"@,
            NanocodexError::SteerQueueFull => "the active turn's steering queue is full"@,
            NanocodexError::TurnNotCancellable =>
                "the targeted turn has already completed or been cancelled"@,
            NanocodexError::TurnCancelled => "the turn was cancelled"@,
            NanocodexError::ForkBeforeCompletedTurn =>
                "the agent has no safe conversation boundary to fork"@,
            NanocodexError::CheckpointLineageMismatch =>
                "the completed turn belongs to a different conversation lineage"@,
            NanocodexError::InvalidSessionSnapshot(detail) => "invalid session snapshot: "@
                + detail@,
            NanocodexError::InitializeRollout { codex_home, source } =>
                "failed to initialize a Codex rollout under "@ + codex_home@ + ": "@ + source@,
            NanocodexError::PersistRollout { path, source } =>
                "failed to persist Codex rollout at "@ + path@ + ": "@ + source@,
            NanocodexError::Responses(error) => error.text(),
            NanocodexError::ResponsesService(error) => error.text(),
            NanocodexError::ResponsesMiddleware(chain) => "Responses service middleware failed: "@
                + if chain@.len() > 0 {
                chain@[0].text()
            } else {
                Seq::empty()
            },
        }
    }

    /// Describes the error.
    pub fn message(&self) -> (r: String)
        ensures
            r@ == self.text(),
        decreases self,
    {
        match self {
            NanocodexError::InvalidRequest(detail) => join(
                "invalid task request: ",
                detail.as_str(),
            ),
            NanocodexError::ResolveWorkspace { path, source } => join3(
                "failed to resolve task workspace ",
                path.as_str(),
                ": ",
            ).concat(source.as_str()),
            NanocodexError::WorkspaceNotDirectory { path } => join(
                "task workspace is not a directory: ",
                path.as_str(),
            ),
            NanocodexError::WorkspaceNotUtf8 { path } => join(
                "task workspace path is not valid UTF-8: ",
                path.as_str(),
            ),
            NanocodexError::ReadProjectInstructions { path, source } => join3(
                "failed to read project instructions from ",
                path.as_str(),
                ": ",
            ).concat(source.as_str()),
            NanocodexError::SerializePromptPrefix(error) => join(
                "failed to fingerprint the immutable prompt prefix: ",
                error.as_str(),
            ),
            NanocodexError::TokioRuntimeUnavailable =>
                "building an agent requires an active Tokio runtime".to_owned(),
            NanocodexError::Shutdown(error) => {
                let cause = error.message();
                join("failed to shut the agent down: ", cause.as_str())
            },
            NanocodexError::Event(error) => error.clone(),
            NanocodexError::Tools(error) => {
                let cause = error.message();
                join("failed to build tools for an agent driver: ", cause.as_str())
            },
            NanocodexError::WorkspaceChanged { current, requested } => join3(
                "an active agent session cannot change workspace from ",
                current.as_str(),
                " to ",
            ).concat(requested.as_str()),
            NanocodexError::MalformedResponse { detail } => join(
                "malformed Responses API event: ",
                detail,
            ),
            NanocodexError::InvalidAttemptState { detail } => join(
                "invalid Responses attempt state: ",
                detail,
            ),
            NanocodexError::AmbiguousTerminalTools =>
                "more than one terminal tool succeeded in the turn".to_owned(),
            NanocodexError::TerminalToolReceipt(error) => error.message().to_owned(),
            NanocodexError::AgentStopped =>
                "the agent stopped before accepting the command".to_owned(),
            NanocodexError::TurnStopped => "the agent stopped before the turn completed".to_owned(),
            NanocodexError::TurnNotSteerable =>
                "the targeted turn is queued, completed, or otherwise not active for steering".to_owned(),
            NanocodexError::SteerQueueFull => "the active turn's steering queue is full".to_owned(),
            NanocodexError::TurnNotCancellable =>
                "the targeted turn has already completed or been cancelled".to_owned(),
            NanocodexError::TurnCancelled => "the turn was cancelled".to_owned(),
            NanocodexError::ForkBeforeCompletedTurn =>
                "the agent has no safe conversation boundary to fork".to_owned(),
            NanocodexError::CheckpointLineageMismatch =>
                "the completed turn belongs to a different conversation lineage".to_owned(),
            NanocodexError::InvalidSessionSnapshot(detail) => join(
                "invalid session snapshot: ",
                detail.as_str(),
            ),
            NanocodexError::InitializeRollout { codex_home, source } => join3(
                "failed to initialize a Codex rollout under ",
                codex_home.as_str(),
                ": ",
            ).concat(source.as_str()),
            NanocodexError::PersistRollout { path, source } => join3(
                "failed to persist Codex rollout at ",
                path.as_str(),
                ": ",
            ).concat(source.as_str()),
            NanocodexError::Responses(error) => error.message(),
            NanocodexError::ResponsesService(error) => error.message(),
            NanocodexError::ResponsesMiddleware(chain) => {
                let cause = if chain.len() > 0 {
                    chain[0].message()
                } else {
                    String::new()
                };
                join("Responses service middleware failed: ", cause.as_str())
            },
        }
    }
}

/// Wrapping a transport error, by the service or by middleware around it, does
/// not hide it.
pub proof fn law_wrapping_keeps_the_transport_error(
    error: ResponsesError,
    service: ResponsesServiceError,
    wrapped: Vec<ErrorLink>,
    outer: Seq<ErrorLink>,
    inner: Seq<ErrorLink>,
)
    requires
        service.error == Some(error),
        forall|i: int| 0 <= i < outer.len() ==> (#[trigger] outer[i]) is Other,
        wrapped@ == outer + seq![ErrorLink::Service(service)] + inner || wrapped@ == outer + seq![
            ErrorLink::Responses(error),
        ] + inner,
    ensures
        NanocodexError::Responses(error).transport_error() == Some(error),
        NanocodexError::ResponsesService(service).transport_error() == Some(error),
        NanocodexError::ResponsesMiddleware(wrapped).transport_error() == Some(error),
{
    lemma_chain_skips_other_errors(outer, seq![ErrorLink::Service(service)] + inner);
    lemma_chain_skips_other_errors(outer, seq![ErrorLink::Responses(error)] + inner);
    assert(outer + (seq![ErrorLink::Service(service)] + inner) =~= outer + seq![
        ErrorLink::Service(service),
    ] + inner);
    assert(outer + (seq![ErrorLink::Responses(error)] + inner) =~= outer + seq![
        ErrorLink::Responses(error),
    ] + inner);
}

/// Causes that are neither service failures nor transport errors are passed
/// over.
proof fn lemma_chain_skips_other_errors(outer: Seq<ErrorLink>, inner: Seq<ErrorLink>)
    requires
        forall|i: int| 0 <= i < outer.len() ==> (#[trigger] outer[i]) is Other,
    ensures
        chain_error(outer + inner) == chain_error(inner),
    decreases outer.len(),
{
    if outer.len() == 0 {
        assert(outer + inner =~= inner);
    } else {
        assert((outer + inner)[0] == outer[0]);
        assert((outer + inner).skip(1) =~= outer.skip(1) + inner);
        assert forall|i: int| 0 <= i < outer.skip(1).len() implies (
        #[trigger] outer.skip(1)[i]) is Other by {
            assert(outer.skip(1)[i] == outer[i + 1]);
        }
        lemma_chain_skips_other_errors(outer.skip(1), inner);
    }
}

/// An error that reports what else went wrong ends with the words of the cause,
/// and one that speaks of a place names it in front of them.
pub proof fn law_messages_end_with_their_cause(error: NanocodexError)
    ensures
        error matches NanocodexError::InvalidRequest(detail) ==> text::ends_with(error.text(), detail@),
        error matches NanocodexError::ResolveWorkspace { path, source } ==> text::ends_with(
            error.text(),
            path@ + ": "@ + source@,
        ),
        error matches NanocodexError::WorkspaceNotDirectory { path } ==> text::ends_with(
            error.text(),
            path@,
        ),
        error matches NanocodexError::WorkspaceNotUtf8 { path } ==> text::ends_with(error.text(), path@),
        error matches NanocodexError::ReadProjectInstructions { path, source } ==> text::ends_with(
            error.text(),
            path@ + ": "@ + source@,
        ),
        error matches NanocodexError::SerializePromptPrefix(cause) ==> text::ends_with(
            error.text(),
            cause@,
        ),
        error matches NanocodexError::Shutdown(cause) ==> text::ends_with(error.text(), cause.text()),
        error matches NanocodexError::Event(cause) ==> error.text() == cause@,
        error matches NanocodexError::Tools(cause) ==> text::ends_with(error.text(), cause.text()),
        error matches NanocodexError::WorkspaceChanged { current, requested } ==> text::ends_with(
            error.text(),
            current@ + " to "@ + requested@,
        ),
        error matches NanocodexError::MalformedResponse { detail } ==> text::ends_with(
            error.text(),
            detail@,
        ),
        error matches NanocodexError::InvalidAttemptState { detail } ==> text::ends_with(
            error.text(),
            detail@,
        ),
        error matches NanocodexError::TerminalToolReceipt(cause) ==> error.text() == cause.text(),
        error matches NanocodexError::InvalidSessionSnapshot(detail) ==> text::ends_with(
            error.text(),
            detail@,
        ),
        error matches NanocodexError::InitializeRollout { codex_home, source } ==> text::ends_with(
            error.text(),
            codex_home@ + ": "@ + source@,
        ),
        error matches NanocodexError::PersistRollout { path, source } ==> text::ends_with(
            error.text(),
            path@ + ": "@ + source@,
        ),
        error matches NanocodexError::Responses(cause) ==> error.text() == cause.text(),
        error matches NanocodexError::ResponsesService(cause) ==> error.text() == cause.text(),
        error matches NanocodexError::ResponsesMiddleware(chain) ==> chain@.len() > 0 ==> text::ends_with(
            error.text(),
            chain@[0].text(),
        ),
{
    let words = error.text();
    match error {
        NanocodexError::InvalidRequest(detail) => text::lemma_ends_with("invalid task request: "@, detail@),
        NanocodexError::ResolveWorkspace { path, source } => {
            let cause = path@ + ": "@ + source@;
            text::lemma_ends_with("failed to resolve task workspace "@, cause);
            assert(words =~= "failed to resolve task workspace "@ + cause);
        },
        NanocodexError::WorkspaceNotDirectory { path } => text::lemma_ends_with(
            "task workspace is not a directory: "@,
            path@,
        ),
        NanocodexError::WorkspaceNotUtf8 { path } => text::lemma_ends_with(
            "task workspace path is not valid UTF-8: "@,
            path@,
        ),
        NanocodexError::ReadProjectInstructions { path, source } => {
            let cause = path@ + ": "@ + source@;
            text::lemma_ends_with("failed to read project instructions from "@, cause);
            assert(words =~= "failed to read project instructions from "@ + cause);
        },
        NanocodexError::SerializePromptPrefix(cause) => text::lemma_ends_with(
            "failed to fingerprint the immutable prompt prefix: "@,
            cause@,
        ),
        NanocodexError::Shutdown(cause) => {
            let words_of = |cause: Arc<NanocodexError>| cause.text();
            text::lemma_ends_with("failed to shut the agent down: "@, words_of(cause));
        },
        NanocodexError::Tools(cause) => text::lemma_ends_with(
            "failed to build tools for an agent driver: "@,
            cause.text(),
        ),
        NanocodexError::WorkspaceChanged { current, requested } => {
            let change = current@ + " to "@ + requested@;
            text::lemma_ends_with("an active agent session cannot change workspace from "@, change);
            assert(words =~= "an active agent session cannot change workspace from "@ + change);
        },
        NanocodexError::MalformedResponse { detail } => text::lemma_ends_with(
            "malformed Responses API event: "@,
            detail@,
        ),
        NanocodexError::InvalidAttemptState { detail } => text::lemma_ends_with(
            "invalid Responses attempt state: "@,
            detail@,
        ),
        NanocodexError::InvalidSessionSnapshot(detail) => text::lemma_ends_with(
            "invalid session snapshot: "@,
            detail@,
        ),
        NanocodexError::InitializeRollout { codex_home, source } => {
            let cause = codex_home@ + ": "@ + source@;
            text::lemma_ends_with("failed to initialize a Codex rollout under "@, cause);
            assert(words =~= "failed to initialize a Codex rollout under "@ + cause);
        },
        NanocodexError::PersistRollout { path, source } => {
            let cause = path@ + ": "@ + source@;
            text::lemma_ends_with("failed to persist Codex rollout at "@, cause);
            assert(words =~= "failed to persist Codex rollout at "@ + cause);
        },
        NanocodexError::ResponsesMiddleware(chain) => if chain@.len() > 0 {
            text::lemma_ends_with("Responses service middleware failed: "@, chain@[0].text());
        },
        _ => {},
    }
}

/// A failure of the service speaks for the transport error behind it, and else
/// for itself; a cause speaks for itself.
pub proof fn law_causes_speak_for_themselves(service: ResponsesServiceError, link: ErrorLink)
    ensures
        service.error matches Some(error) ==> service.text() == error.text(),
        service.error is None ==> service.text() == service.other@,
        link matches ErrorLink::Service(cause) ==> link.text() == cause.text(),
        link matches ErrorLink::Responses(cause) ==> link.text() == cause.text(),
        link matches ErrorLink::Other(message) ==> link.text() == message@,
{
}

/// An error outside the provider's service has no transport error behind it,
/// and neither has a chain of causes without one.
pub proof fn law_other_errors_are_no_transport_errors(error: NanocodexError)
    ensures
        !(error is Responses) && !(error is ResponsesService) && !(error is ResponsesMiddleware)
            ==> error.transport_error() is None,
        error matches NanocodexError::ResponsesMiddleware(chain) ==> (forall|i: int|
            0 <= i < chain@.len() ==> (#[trigger] chain@[i]) is Other) ==> error.transport_error()
            is None,
{
    if let NanocodexError::ResponsesMiddleware(chain) = error {
        if forall|i: int| 0 <= i < chain@.len() ==> (#[trigger] chain@[i]) is Other {
            lemma_chain_skips_other_errors(chain@, Seq::empty());
            assert(chain@ + Seq::<ErrorLink>::empty() =~= chain@);
        }
    }
}

} // verus!
