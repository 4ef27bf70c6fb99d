//! What a run reports while it goes on, and what it counts.
use crate::config::{ReasoningMode, ResponsesTransport, Thinking};
use crate::items::{clone_text, ToolOutputBody};
use crate::pricing::Usage;
use crate::tool_calls::{ToolCallArguments, ToolStatus};
use crate::usage;
use crate::usage::{TurnUsage, TurnUsageCounts};
use vstd::prelude::*;

verus! {

/// What the transport counted during one turn.
#[derive(Clone, Copy, Debug, PartialEq, Eq, Structural)]
pub struct TransportCounts {
    /// Connections that were tried.
    pub connection_attempts: u64,
    /// Connections that took the place of a lost one.
    pub websocket_reconnects: u64,
    /// Requests that were sent.
    pub response_attempts: u64,
    /// Requests that were sent again.
    pub response_retries: u64,
    /// Requests of which it is not known whether they are billed.
    pub billing_uncertain_response_attempts: u64,
    /// Time spent on connecting.
    pub connection_duration_ns: u64,
    /// Time spent on waiting before another try.
    pub retry_backoff_duration_ns: u64,
}

impl TransportCounts {
    /// Counts of a turn that sent nothing.
    pub open spec fn zero() -> TransportCounts {
        TransportCounts {
            connection_attempts: 0,
            websocket_reconnects: 0,
            response_attempts: 0,
            response_retries: 0,
            billing_uncertain_response_attempts: 0,
            connection_duration_ns: 0,
            retry_backoff_duration_ns: 0,
        }
    }

    /// Counts of a turn that sent nothing.
    pub fn new() -> (r: Self)
        ensures
            r == TransportCounts::zero(),
    {
        TransportCounts {
            connection_attempts: 0,
            websocket_reconnects: 0,
            response_attempts: 0,
            response_retries: 0,
            billing_uncertain_response_attempts: 0,
            connection_duration_ns: 0,
            retry_backoff_duration_ns: 0,
        }
    }
}

/// Counters of one turn.
#[derive(Debug)]
pub struct RunStats {
    /// Requests for a generation.
    pub model_calls: u32,
    /// Requests for a compaction.
    pub compactions: u32,
    /// Messages that steered the turn.
    pub steers: u32,
    /// Tool calls of the model and of running code.
    pub tool_calls: u32,
    /// Time spent on generations and compactions.
    pub model_duration_ns: u64,
    /// Time spent on the warmup.
    pub warmup_duration_ns: u64,
    /// Time that tools worked, added up.
    pub tool_work_duration_ns: u64,
    /// Time during which tools worked.
    pub tool_wall_duration_ns: u64,
    /// Token counts of generations and compactions.
    pub usage: TurnUsageCounts,
    /// Token counts of the warmup.
    pub warmup_usage: TurnUsageCounts,
    /// What the transport counted, once the turn has ended.
    pub transport: TransportCounts,
    /// The last response.
    pub last_response_id: Option<String>,
}

impl Clone for RunStats {
    fn clone(&self) -> (r: Self)
        ensures
            r == *self,
    {
        RunStats {
            model_calls: self.model_calls,
            compactions: self.compactions,
            steers: self.steers,
            tool_calls: self.tool_calls,
            model_duration_ns: self.model_duration_ns,
            warmup_duration_ns: self.warmup_duration_ns,
            tool_work_duration_ns: self.tool_work_duration_ns,
            tool_wall_duration_ns: self.tool_wall_duration_ns,
            usage: self.usage,
            warmup_usage: self.warmup_usage,
            transport: self.transport,
            last_response_id: clone_text(&self.last_response_id),
        }
    }
}

impl RunStats {
    /// Counters before a turn.
    pub open spec fn zero() -> RunStats {
        RunStats {
            model_calls: 0,
            compactions: 0,
            steers: 0,
            tool_calls: 0,
            model_duration_ns: 0,
            warmup_duration_ns: 0,
            tool_work_duration_ns: 0,
            tool_wall_duration_ns: 0,
            usage: TurnUsageCounts::zero(),
            warmup_usage: TurnUsageCounts::zero(),
            transport: TransportCounts::zero(),
            last_response_id: None,
        }
    }

    /// Counters before a turn.
    pub fn new() -> (r: Self)
        ensures
            r == RunStats::zero(),
    {
        RunStats {
            model_calls: 0,
            compactions: 0,
            steers: 0,
            tool_calls: 0,
            model_duration_ns: 0,
            warmup_duration_ns: 0,
            tool_work_duration_ns: 0,
            tool_wall_duration_ns: 0,
            usage: TurnUsageCounts::new(),
            warmup_usage: TurnUsageCounts::new(),
            transport: TransportCounts::new(),
            last_response_id: None,
        }
    }

    /// Token counts of everything that the turn asked the provider for.
    pub open spec fn all_usage(self) -> TurnUsageCounts {
        self.usage.joined(self.warmup_usage)
    }

    /// Counters after a generation or compaction was answered.
    pub open spec fn answered(
        self,
        duration_ns: u64,
        usage: Option<Usage>,
        response_id: String,
    ) -> RunStats {
        RunStats {
            model_duration_ns: (self.model_duration_ns + duration_ns) as u64,
            usage: self.usage.plus(usage),
            last_response_id: Some(response_id),
            ..self
        }
    }

    /// Counters after a generation or compaction failed.
    pub open spec fn failed(self, duration_ns: u64) -> RunStats {
        RunStats { model_duration_ns: (self.model_duration_ns + duration_ns) as u64, ..self }
    }
}

/// How a turn ended.
#[derive(Clone, Copy, Debug, PartialEq, Eq, Structural)]
pub enum TerminalStatus {
    /// The model ended the turn.
    Completed,
    /// The turn was cancelled.
    Cancelled,
    /// The turn failed.
    Failed,
}

impl TerminalStatus {
    /// Returns the name that events carry.
    pub fn name(self) -> (r: &'static str)
        ensures
            r@ == match self {
                TerminalStatus::Completed => "completed"@,
                TerminalStatus::Cancelled => "cancelled"@,
                TerminalStatus::Failed => "failed"@,
            },
    {
        match self {
            TerminalStatus::Completed => "completed",
            TerminalStatus::Cancelled => "cancelled",
            TerminalStatus::Failed => "failed",
        }
    }
}

/// What completed a turn, as events name it.
#[derive(Debug)]
pub enum RunCompletion {
    /// A message of the model.
    Message,
    /// A tool.
    TerminalTool {
        /// Identity of the call.
        call_id: String,
        /// Registered name of the tool.
        tool_name: String,
    },
}

/// Where the response of a warmup came from.
#[derive(Clone, Copy, Debug, PartialEq, Eq, Structural)]
pub enum WarmupSource {
    /// From an own request.
    Response,
    /// From another run with the same prefix.
    SharedPrefix,
}

impl WarmupSource {
    /// Returns the name that events carry.
    pub fn name(self) -> (r: &'static str)
        ensures
            r@ == match self {
                WarmupSource::Response => "response"@,
                WarmupSource::SharedPrefix => "shared_prefix"@,
            },
    {
        match self {
            WarmupSource::Response => "response",
            WarmupSource::SharedPrefix => "shared_prefix",
        }
    }
}

/// Something that a run reports.
#[allow(inconsistent_fields)]
pub enum RunEvent {
    /// A turn started.
    RunStarted {
        /// Reasoning mode.
        reasoning_mode: ReasoningMode,
        /// Effort.
        effort: Thinking,
        /// Transport.
        transport: ResponsesTransport,
        /// Endpoint of the transport.
        endpoint: String,
        /// Requested workspace.
        workspace: Option<String>,
        /// Bytes of text in the prompt.
        instruction_bytes: usize,
    },
    /// A generation was requested.
    ModelCallStarted {
        /// Number of the request.
        call_index: u32,
        /// Effort.
        effort: Thinking,
        /// The response that the request continues from.
        previous_response_id: Option<String>,
    },
    /// A generation was completed.
    ModelCallCompleted {
        /// Number of the request.
        call_index: u32,
        /// Identity of the response.
        response_id: String,
        /// Number of the attempt.
        attempt: u32,
        /// Number of the connection.
        connection_generation: u32,
        /// The provider's name of the response's state.
        status: String,
        /// Time since the request.
        duration_ns: u64,
        /// Time until the first event.
        time_to_first_event_ns: u64,
        /// Time until the first output.
        time_to_first_output_ns: Option<u64>,
        /// Tool calls in the response.
        tool_calls: usize,
        /// Token usage.
        usage: Option<Usage>,
    },
    /// A generation failed.
    ModelCallFailed {
        /// Number of the request.
        call_index: u32,
        /// Time since the request.
        duration_ns: u64,
        /// What went wrong.
        error: String,
    },
    /// A compaction was requested.
    CompactionStarted {
        /// Generations so far.
        after_model_call_index: u32,
        /// Estimated tokens of the context.
        active_context_tokens: u64,
        /// Tokens from which on the context is compacted.
        auto_compact_token_limit: u64,
        /// The response that the request continues from.
        previous_response_id: Option<String>,
    },
    /// A compaction was completed.
    CompactionCompleted {
        /// Generations so far.
        after_model_call_index: u32,
        /// Identity of the response.
        response_id: String,
        /// Number of the attempt.
        attempt: u32,
        /// Number of the connection.
        connection_generation: u32,
        /// The provider's name of the response's state.
        status: String,
        /// Time since the request.
        duration_ns: u64,
        /// Time until the first event.
        time_to_first_event_ns: u64,
        /// Time until the first output.
        time_to_first_output_ns: Option<u64>,
        /// Token usage.
        usage: Option<Usage>,
    },
    /// A compaction failed.
    CompactionFailed {
        /// Generations so far.
        after_model_call_index: u32,
        /// Time since the request.
        duration_ns: u64,
        /// What went wrong.
        error: String,
    },
    /// The connection is being warmed up.
    WarmupStarted {
        /// Cache key of the prefix.
        prompt_cache_key: String,
    },
    /// The connection is warm.
    WarmupCompleted {
        /// Identity of the response, if there was an own one.
        response_id: Option<String>,
        /// Where the response came from.
        source: WarmupSource,
        /// Number of the attempt.
        attempt: Option<u32>,
        /// Number of the connection.
        connection_generation: Option<u32>,
        /// Time since the start.
        duration_ns: u64,
        /// Token usage.
        usage: Option<Usage>,
    },
    /// The warmup failed.
    WarmupFailed {
        /// Time since the start.
        duration_ns: u64,
        /// What went wrong.
        error: String,
    },
    /// A tool was called.
    ToolCall {
        /// Identity of the call.
        call_id: String,
        /// Qualified name of the tool.
        tool: String,
        /// Arguments.
        arguments: ToolCallArguments,
        /// Number of the generation.
        model_call_index: u32,
    },
    /// A tool call ended.
    ToolResult {
        /// Identity of the call.
        call_id: String,
        /// Qualified name of the tool.
        tool: String,
        /// How the call ended.
        status: ToolStatus,
        /// Time since the call.
        duration_ns: u64,
        /// When a nested call was started, after its parent.
        started_after_ns: Option<u64>,
        /// The tool's output.
        result: ToolOutputBody,
        /// JSON metadata for the host.
        metadata: Option<String>,
    },
    /// A message steered the turn.
    RunSteered {
        /// Number of the message.
        steer_index: u32,
        /// Bytes of text in the message.
        instruction_bytes: usize,
    },
    /// Something ended the turn early.
    RunError {
        /// What it was.
        message: String,
    },
    /// A turn ended.
    RunEnded {
        /// How it ended.
        status: TerminalStatus,
        /// Time since the start.
        elapsed_ns: u64,
        /// Effort.
        effort: Thinking,
        /// Counters.
        stats: RunStats,
        /// Priced token counts.
        usage: TurnUsage,
        /// What completed it, if it was completed.
        completion: Option<RunCompletion>,
    },
}

impl RunEvent {
    /// Whether the event ends a turn.
    pub open spec fn terminal(self) -> bool {
        self is RunEnded
    }
}

} // verus!
