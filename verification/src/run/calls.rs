//! Requests of a run: generations, compactions, and the warmup.
use crate::config::{ResponsesTransport, Thinking};
use crate::conversation;
use crate::error::NanocodexError;
use crate::items::ResponseItem;
use crate::pricing::Usage;
use crate::run::events::{RunEvent, RunStats, WarmupSource};
use crate::run::{ModelRun, RunView};
use crate::service::{
    CompactionOutput, GenerationOutput, ResponsesOutput, ResponsesServiceResponse,
};
use std::sync::Arc;
use vstd::prelude::*;

verus! {

/// A generation that a run wants requested.
pub struct ModelRequest {
    /// Number of the request within the turn.
    pub call_index: u32,
    /// Items as the model is to see them.
    pub prompt_history: Vec<Arc<ResponseItem>>,
    /// Items as the conversation holds them.
    pub shared_history: Vec<Arc<ResponseItem>>,
    /// Where the items start that the provider does not know.
    pub delta_start: usize,
    /// The response that the request continues from.
    pub previous_response_id: Option<String>,
    /// Effort.
    pub thinking: Thinking,
    /// Processing mode.
    pub fast_mode: bool,
}

/// A compaction that a run wants requested.
pub struct CompactionRequest {
    /// Generations so far.
    pub after_model_call_index: u32,
    /// Items to compact.
    pub history: Vec<Arc<ResponseItem>>,
    /// Where the items start that the provider does not know.
    pub incremental_start: usize,
    /// The response that the request continues from.
    pub previous_response_id: Option<String>,
    /// Effort.
    pub thinking: Thinking,
    /// Processing mode.
    pub fast_mode: bool,
}

/// What a compaction left.
pub struct CompactedContext {
    /// The item that stands for the compacted conversation.
    pub item: Arc<ResponseItem>,
    /// Token usage.
    pub usage: Option<Usage>,
    /// Whether the provider counts earlier reasoning as context.
    pub server_reasoning_included: bool,
}

/// A warmup that was requested and answered.
pub struct WarmupExecution {
    /// Identity of the response.
    pub response_id: String,
    /// Number of the attempt.
    pub attempt: u32,
    /// Number of the connection.
    pub connection_generation: u32,
    /// Token usage.
    pub usage: Option<Usage>,
    /// Whether the provider counts earlier reasoning as context.
    pub server_reasoning_included: bool,
}

/// What a warmup leaves for the first generation.
pub struct WarmupOutcome {
    /// The response to continue from, if there is an own one.
    pub response_id: Option<String>,
    /// Whether the provider counts earlier reasoning as context.
    pub server_reasoning_included: bool,
}

/// When a conversation is compacted.
#[derive(Clone, Copy, Debug, PartialEq, Eq, Structural)]
pub enum CompactionPhase {
    /// Before the turn's own message.
    PreTurn,
    /// Between two generations of a turn.
    MidTurn,
}

/// Whether an error says that a reply was of the wrong kind.
pub open spec fn misplaced(error: NanocodexError, expected: Seq<char>) -> bool {
    error matches NanocodexError::InvalidAttemptState { detail } && detail@ == expected
}

/// Whether an event reports that a generation failed.
pub open spec fn reports_failed_call(
    event: RunEvent,
    number: u32,
    took_ns: u64,
    text: Seq<char>,
) -> bool {
    event matches RunEvent::ModelCallFailed { call_index, duration_ns, error } && call_index
        == number && duration_ns == took_ns && error@ == text
}

/// Whether an event reports that a compaction failed.
pub open spec fn reports_failed_compaction(
    event: RunEvent,
    number: u32,
    took_ns: u64,
    text: Seq<char>,
) -> bool {
    event matches RunEvent::CompactionFailed { after_model_call_index, duration_ns, error }
        && after_model_call_index == number && duration_ns == took_ns && error@ == text
}

/// Whether an event reports that the warmup failed.
pub open spec fn reports_failed_warmup(event: RunEvent, took_ns: u64, text: Seq<char>) -> bool {
    event matches RunEvent::WarmupFailed { duration_ns, error } && duration_ns == took_ns && error@
        == text
}

/// The items of a repaired history, if there is one.
pub open spec fn history_of(repaired: Option<Vec<Arc<ResponseItem>>>) -> Option<
    Seq<Arc<ResponseItem>>,
> {
    match repaired {
        Some(history) => Some(history@),
        None => None,
    }
}

/// What an answered compaction left.
pub open spec fn context_of(reply: ResponsesServiceResponse) -> CompactedContext {
    let output = reply.output->Compaction_0;
    CompactedContext {
        item: output.item,
        usage: output.usage,
        server_reasoning_included: reply.server_reasoning_included,
    }
}

/// The response that a warmup left, if it is an own one.
pub open spec fn warm_response(execution: Option<WarmupExecution>) -> Option<String> {
    match execution {
        Some(execution) => Some(execution.response_id),
        None => None,
    }
}

/// Whether the provider said at the warmup that it counts earlier reasoning.
pub open spec fn warm_reasoning(execution: Option<WarmupExecution>) -> bool {
    execution is Some && execution->0.server_reasoning_included
}

/// The event that reports a completed warmup.
pub open spec fn warmup_event(execution: Option<WarmupExecution>, duration_ns: u64) -> RunEvent {
    RunEvent::WarmupCompleted {
        response_id: warm_response(execution),
        source: match execution {
            Some(_) => WarmupSource::Response,
            None => WarmupSource::SharedPrefix,
        },
        attempt: match execution {
            Some(execution) => Some(execution.attempt),
            None => None,
        },
        connection_generation: match execution {
            Some(execution) => Some(execution.connection_generation),
            None => None,
        },
        duration_ns,
        usage: match execution {
            Some(execution) => execution.usage,
            None => None,
        },
    }
}

/// The event that reports a completed generation.
pub open spec fn generation_event(
    call_index: u32,
    output: GenerationOutput,
    attempt: u32,
    connection_generation: u32,
    duration_ns: u64,
) -> RunEvent {
    RunEvent::ModelCallCompleted {
        call_index,
        response_id: output.id,
        attempt,
        connection_generation,
        status: output.status,
        duration_ns,
        time_to_first_event_ns: output.time_to_first_event_ns,
        time_to_first_output_ns: output.time_to_first_output_ns,
        tool_calls: output.code_calls@.len() as usize,
        usage: output.usage,
    }
}

/// The event that reports a completed compaction.
pub open spec fn compaction_event(
    after_model_call_index: u32,
    output: CompactionOutput,
    attempt: u32,
    connection_generation: u32,
    duration_ns: u64,
) -> RunEvent {
    RunEvent::CompactionCompleted {
        after_model_call_index,
        response_id: output.id,
        attempt,
        connection_generation,
        status: output.status,
        duration_ns,
        time_to_first_event_ns: output.time_to_first_event_ns,
        time_to_first_output_ns: output.time_to_first_output_ns,
        usage: output.usage,
    }
}

impl RunView {
    /// Whether the conversation has to be compacted before the next
    /// generation.
    pub open spec fn must_compact(self, active_context_tokens: u64, limit: Option<u64>) -> bool {
        limit is Some && (self.force_compaction || active_context_tokens >= limit->0)
    }

    /// The run after a generation was answered. A repaired history takes the
    /// place of the conversation's own.
    pub open spec fn generated(
        self,
        call_index: u32,
        repaired: Option<Seq<Arc<ResponseItem>>>,
        reply: ResponsesServiceResponse,
        duration_ns: u64,
    ) -> RunView {
        let output = reply.output->Generation_0;
        let heard = self.conversation().hearing(reply.server_reasoning_included);
        let adopted = match repaired {
            Some(history) => heard.replaced(history),
            None => heard,
        };
        self.with_conversation(adopted).with_stats(
            self.stats.answered(duration_ns, output.usage, output.id),
        ).emitting(
            generation_event(
                call_index,
                output,
                reply.attempt,
                reply.connection_generation,
                duration_ns,
            ),
        )
    }

    /// The run after a compaction was answered.
    pub open spec fn compaction_answered(
        self,
        after_model_call_index: u32,
        reply: ResponsesServiceResponse,
        duration_ns: u64,
    ) -> RunView {
        let output = reply.output->Compaction_0;
        self.with_stats(self.stats.answered(duration_ns, output.usage, output.id)).emitting(
            compaction_event(
                after_model_call_index,
                output,
                reply.attempt,
                reply.connection_generation,
                duration_ns,
            ),
        )
    }

    /// The run after a compaction was started.
    pub open spec fn compacting(
        self,
        after_model_call_index: u32,
        active_context_tokens: u64,
        auto_compact_token_limit: u64,
    ) -> RunView {
        self.with_stats(
            RunStats { compactions: (self.stats.compactions + 1) as u32, ..self.stats },
        ).emitting(
            RunEvent::CompactionStarted {
                after_model_call_index,
                active_context_tokens,
                auto_compact_token_limit,
                previous_response_id: self.conversation().previous_response_id,
            },
        )
    }

    /// Whether what a compaction left can be installed: within a turn the
    /// environment has to have been captured.
    pub open spec fn can_install(self, phase: CompactionPhase) -> bool {
        phase == CompactionPhase::PreTurn || self.session->0.context_snapshot is Some
    }

    /// The run after what a compaction left was installed.
    pub open spec fn installing(
        self,
        phase: CompactionPhase,
        installed: Seq<Arc<ResponseItem>>,
        server_reasoning_included: bool,
    ) -> RunView {
        let heard = self.conversation().hearing(server_reasoning_included).replaced(installed);
        RunView {
            force_compaction: false,
            ..self.with_conversation(
                match phase {
                    CompactionPhase::PreTurn => heard,
                    CompactionPhase::MidTurn => conversation::ConversationView {
                        canonical_context: self.session->0.context_snapshot->0,
                        ..heard
                    },
                },
            )
        }
    }

    /// The run after the time of a warmup was taken.
    pub open spec fn warmup_took(self, duration_ns: u64) -> RunView {
        self.with_stats(
            RunStats {
                warmup_duration_ns: (self.stats.warmup_duration_ns + duration_ns) as u64,
                ..self.stats
            },
        )
    }

    /// The run after a warmup was answered.
    pub open spec fn warmup_answered(
        self,
        execution: Option<WarmupExecution>,
        duration_ns: u64,
    ) -> RunView {
        let took = self.warmup_took(duration_ns);
        took.with_stats(
            RunStats {
                warmup_usage: match execution {
                    Some(execution) => self.stats.warmup_usage.plus(execution.usage),
                    None => self.stats.warmup_usage,
                },
                last_response_id: warm_response(execution),
                ..took.stats
            },
        ).emitting(warmup_event(execution, duration_ns))
    }

    /// The run after what a warmup left was taken in. Without a response the
    /// first generation carries everything.
    pub open spec fn warmed_up(self, response_id: Option<String>, server_reasoning: bool) -> RunView {
        let heard = self.conversation().hearing(server_reasoning);
        match response_id {
            Some(id) => self.with_conversation(
                conversation::ConversationView { previous_response_id: Some(id), ..heard },
            ),
            None => self.with_conversation(heard.replayed()).with_stats(
                RunStats { last_response_id: None, ..self.stats },
            ),
        }
    }
}

impl ModelRun {
    /// Starts one generation. `prompt_history` is the history as the model is
    /// to see it; when it had to be repaired the request continues from no
    /// response.
    pub fn begin_model_call(&mut self, prompt_history: Vec<Arc<ResponseItem>>, repaired: bool) -> (r:
        ModelRequest)
        requires
            old(self)@.session is Some,
            old(self)@.stats.model_calls < u32::MAX,
        ensures
            r.call_index == old(self)@.stats.model_calls + 1,
            r.prompt_history@ == prompt_history@,
            r.shared_history@ == old(self)@.conversation().history,
            r.delta_start == old(self)@.conversation().delta_start,
            r.previous_response_id == if repaired {
                None
            } else {
                old(self)@.conversation().previous_response_id
            },
            r.thinking == old(self)@.thinking,
            r.fast_mode == old(self)@.fast_mode,
            final(self)@ == old(self)@.with_stats(
                RunStats {
                    model_calls: (old(self)@.stats.model_calls + 1) as u32,
                    ..old(self)@.stats
                },
            ).emitting(
                RunEvent::ModelCallStarted {
                    call_index: r.call_index,
                    effort: old(self)@.thinking,
                    previous_response_id: r.previous_response_id,
                },
            ),
    {
        let session = self.session.as_ref().unwrap();
        let shared_history = session.conversation.flattened_history();
        let delta_start: usize = session.conversation.delta_start();
        let previous_response_id = if repaired {
            None
        } else {
            session.conversation.previous_response_id()
        };
        let call_index: u32 = self.stats.model_calls + 1;
        self.stats.model_calls = call_index;
        self.events.push(
            RunEvent::ModelCallStarted {
                call_index,
                effort: self.thinking,
                previous_response_id: previous_response_id.clone(),
            },
        );
        ModelRequest {
            call_index,
            prompt_history,
            shared_history,
            delta_start,
            previous_response_id,
            thinking: self.thinking,
            fast_mode: self.fast_mode,
        }
    }

    /// Ends one generation. `repaired` is the history that the request showed
    /// in place of the conversation's own, if it had to be repaired.
    pub fn finish_model_call(
        &mut self,
        call_index: u32,
        repaired: Option<Vec<Arc<ResponseItem>>>,
        reply: Result<ResponsesServiceResponse, NanocodexError>,
        duration_ns: u64,
    ) -> (r: Result<GenerationOutput, NanocodexError>)
        requires
            old(self)@.session is Some,
            old(self)@.stats.model_duration_ns + duration_ns <= u64::MAX,
        ensures
            match reply {
                Err(error) => {
                    &&& r == Err::<GenerationOutput, NanocodexError>(error)
                    &&& final(self)@.events.len() == old(self)@.events.len() + 1
                    &&& final(self)@ == old(self)@.with_stats(
                        old(self)@.stats.failed(duration_ns),
                    ).emitting(final(self)@.events.last())
                    &&& reports_failed_call(
                        final(self)@.events.last(),
                        call_index,
                        duration_ns,
                        error.text(),
                    )
                },
                Ok(reply) => match reply.output {
                    ResponsesOutput::Generation(output) => {
                        &&& r == Ok::<GenerationOutput, NanocodexError>(output)
                        &&& final(self)@ == old(self)@.generated(
                            call_index,
                            history_of(repaired),
                            reply,
                            duration_ns,
                        )
                    },
                    _ => {
                        &&& r is Err
                        &&& misplaced(
                            r->Err_0,
                            "generation returned a non-generation response"@,
                        )
                        &&& final(self)@ == old(self)@.with_conversation(
                            old(self)@.conversation().hearing(reply.server_reasoning_included),
                        )
                    },
                },
            },
    {
        let reply = match reply {
            Ok(reply) => reply,
            Err(error) => {
                self.stats.model_duration_ns = self.stats.model_duration_ns + duration_ns;
                let text = error.message();
                self.events.push(RunEvent::ModelCallFailed { call_index, duration_ns, error: text });
                return Err(error);
            },
        };
        let mut session = self.session.take().unwrap();
        session.conversation.observe_server_reasoning(reply.server_reasoning_included);
        let output = match reply.output {
            ResponsesOutput::Generation(output) => output,
            _ => {
                self.session = Some(session);
                return Err(
                    NanocodexError::InvalidAttemptState {
                        detail: "generation returned a non-generation response",
                    },
                );
            },
        };
        if let Some(history) = repaired {
            session.conversation.adopt_prompt_history(history);
        }
        self.session = Some(session);
        self.stats.model_duration_ns = self.stats.model_duration_ns + duration_ns;
        self.stats.usage.add_operation(output.usage.as_ref());
        self.stats.last_response_id = Some(output.id.clone());
        self.events.push(
            RunEvent::ModelCallCompleted {
                call_index,
                response_id: output.id.clone(),
                attempt: reply.attempt,
                connection_generation: reply.connection_generation,
                status: output.status.clone(),
                duration_ns,
                time_to_first_event_ns: output.time_to_first_event_ns,
                time_to_first_output_ns: output.time_to_first_output_ns,
                tool_calls: output.code_calls.len(),
                usage: output.usage,
            },
        );
        Ok(output)
    }

    /// Returns whether the conversation has to be compacted: when the provider
    /// asked for it, or when the context has grown to the limit. Models without
    /// a limit are never compacted.
    pub fn wants_compaction(&self, active_context_tokens: u64, limit: Option<u64>) -> (r: bool)
        ensures
            r == self@.must_compact(active_context_tokens, limit),
    {
        match limit {
            None => false,
            Some(limit) => self.force_compaction || active_context_tokens >= limit,
        }
    }

    /// Starts one compaction of `history`, which is the prompt with tool
    /// outputs cut as far as the context window asks for.
    pub fn begin_compaction(
        &mut self,
        after_model_call_index: u32,
        history: Vec<Arc<ResponseItem>>,
        active_context_tokens: u64,
        auto_compact_token_limit: u64,
    ) -> (r: CompactionRequest)
        requires
            old(self)@.session is Some,
            old(self)@.stats.compactions < u32::MAX,
        ensures
            r.after_model_call_index == after_model_call_index,
            r.history@ == history@,
            r.incremental_start == old(self)@.conversation().delta_start,
            r.previous_response_id == old(self)@.conversation().previous_response_id,
            r.thinking == old(self)@.thinking,
            r.fast_mode == old(self)@.fast_mode,
            final(self)@ == old(self)@.compacting(
                after_model_call_index,
                active_context_tokens,
                auto_compact_token_limit,
            ),
    {
        let session = self.session.as_ref().unwrap();
        let incremental_start: usize = session.conversation.delta_start();
        let previous_response_id = session.conversation.previous_response_id();
        self.stats.compactions = self.stats.compactions + 1;
        self.events.push(
            RunEvent::CompactionStarted {
                after_model_call_index,
                active_context_tokens,
                auto_compact_token_limit,
                previous_response_id: previous_response_id.clone(),
            },
        );
        CompactionRequest {
            after_model_call_index,
            history,
            incremental_start,
            previous_response_id,
            thinking: self.thinking,
            fast_mode: self.fast_mode,
        }
    }

    /// Ends one compaction. What it left is installed separately.
    pub fn finish_compaction(
        &mut self,
        after_model_call_index: u32,
        reply: Result<ResponsesServiceResponse, NanocodexError>,
        duration_ns: u64,
    ) -> (r: Result<CompactedContext, NanocodexError>)
        requires
            old(self)@.stats.model_duration_ns + duration_ns <= u64::MAX,
        ensures
            match reply {
                Err(error) => {
                    &&& r == Err::<CompactedContext, NanocodexError>(error)
                    &&& final(self)@.events.len() == old(self)@.events.len() + 1
                    &&& final(self)@ == old(self)@.with_stats(
                        old(self)@.stats.failed(duration_ns),
                    ).emitting(final(self)@.events.last())
                    &&& reports_failed_compaction(
                        final(self)@.events.last(),
                        after_model_call_index,
                        duration_ns,
                        error.text(),
                    )
                },
                Ok(reply) => match reply.output {
                    ResponsesOutput::Compaction(_) => {
                        &&& r == Ok::<CompactedContext, NanocodexError>(context_of(reply))
                        &&& final(self)@ == old(self)@.compaction_answered(
                            after_model_call_index,
                            reply,
                            duration_ns,
                        )
                    },
                    _ => {
                        &&& r is Err
                        &&& misplaced(
                            r->Err_0,
                            "compaction returned a non-compaction response"@,
                        )
                        &&& final(self)@ == old(self)@
                    },
                },
            },
    {
        let reply = match reply {
            Ok(reply) => reply,
            Err(error) => {
                self.stats.model_duration_ns = self.stats.model_duration_ns + duration_ns;
                let text = error.message();
                self.events.push(
                    RunEvent::CompactionFailed {
                        after_model_call_index,
                        duration_ns,
                        error: text,
                    },
                );
                return Err(error);
            },
        };
        let output = match reply.output {
            ResponsesOutput::Compaction(output) => output,
            _ => return Err(
                NanocodexError::InvalidAttemptState {
                    detail: "compaction returned a non-compaction response",
                },
            ),
        };
        self.stats.model_duration_ns = self.stats.model_duration_ns + duration_ns;
        self.stats.usage.add_operation(output.usage.as_ref());
        self.stats.last_response_id = Some(output.id.clone());
        self.events.push(
            RunEvent::CompactionCompleted {
                after_model_call_index,
                response_id: output.id.clone(),
                attempt: reply.attempt,
                connection_generation: reply.connection_generation,
                status: output.status.clone(),
                duration_ns,
                time_to_first_event_ns: output.time_to_first_event_ns,
                time_to_first_output_ns: output.time_to_first_output_ns,
                usage: output.usage,
            },
        );
        Ok(
            CompactedContext {
                item: output.item,
                usage: output.usage,
                server_reasoning_included: reply.server_reasoning_included,
            },
        )
    }

    /// Installs what a compaction left: `installed` is the history that takes
    /// the place of the compacted one. Within a turn the environment is stated
    /// again, and has to have been captured before.
    pub fn install_compaction(
        &mut self,
        phase: CompactionPhase,
        installed: Vec<Arc<ResponseItem>>,
        server_reasoning_included: bool,
    ) -> (r: Option<NanocodexError>)
        requires
            old(self)@.session is Some,
        ensures
            if old(self)@.can_install(phase) {
                &&& r is None
                &&& final(self)@ == old(self)@.installing(
                    phase,
                    installed@,
                    server_reasoning_included,
                )
            } else {
                &&& r is Some
                &&& misplaced(r->0, "mid-turn compaction is missing its context snapshot"@)
                &&& final(self)@ == old(self)@.with_conversation(
                    old(self)@.conversation().hearing(server_reasoning_included),
                )
            },
    {
        let mut session = self.session.take().unwrap();
        session.conversation.observe_server_reasoning(server_reasoning_included);
        match phase {
            CompactionPhase::PreTurn => {
                session.conversation.install_pre_turn_compaction(installed);
            },
            CompactionPhase::MidTurn => {
                let snapshot = match &session.context_snapshot {
                    Some(item) => Some(item.clone()),
                    None => None,
                };
                match snapshot {
                    Some(canonical_context) => {
                        session.conversation.install_mid_turn_compaction(
                            installed,
                            canonical_context,
                        );
                    },
                    None => {
                        self.session = Some(session);
                        return Some(
                            NanocodexError::InvalidAttemptState {
                                detail: "mid-turn compaction is missing its context snapshot",
                            },
                        );
                    },
                }
            },
        }
        self.session = Some(session);
        self.force_compaction = false;
        None
    }

    /// Starts the warmup and reports it. Only persistent connections are warmed
    /// up: over HTTPS there is nothing to do.
    pub fn begin_warmup(&mut self) -> (r: bool)
        requires
            old(self)@.session is Some,
        ensures
            r == (old(self)@.config.responses_transport == ResponsesTransport::WebSocket),
            final(self)@ == if r {
                old(self)@.emitting(
                    RunEvent::WarmupStarted {
                        prompt_cache_key: old(self)@.session->0.profile.prompt_cache_key,
                    },
                )
            } else {
                old(self)@
            },
    {
        match self.config.responses_transport {
            ResponsesTransport::Https => false,
            ResponsesTransport::WebSocket => {
                let prompt_cache_key =
                    self.session.as_ref().unwrap().profile.prompt_cache_key.clone();
                self.events.push(RunEvent::WarmupStarted { prompt_cache_key });
                true
            },
        }
    }

    /// Reads the reply to a warmup request.
    pub fn read_warmup(reply: Result<ResponsesServiceResponse, NanocodexError>) -> (r: Result<
        WarmupExecution,
        NanocodexError,
    >)
        ensures
            match reply {
                Err(error) => r == Err::<WarmupExecution, NanocodexError>(error),
                Ok(reply) => match reply.output {
                    ResponsesOutput::Warmup(output) => r == Ok::<WarmupExecution, NanocodexError>(
                        WarmupExecution {
                            response_id: output.id,
                            attempt: reply.attempt,
                            connection_generation: reply.connection_generation,
                            usage: output.usage,
                            server_reasoning_included: reply.server_reasoning_included,
                        },
                    ),
                    _ => r is Err && misplaced(
                        r->Err_0,
                        "warmup returned a non-warmup response"@,
                    ),
                },
            },
    {
        match reply {
            Err(error) => Err(error),
            Ok(reply) => match reply.output {
                ResponsesOutput::Warmup(output) => Ok(
                    WarmupExecution {
                        response_id: output.id,
                        attempt: reply.attempt,
                        connection_generation: reply.connection_generation,
                        usage: output.usage,
                        server_reasoning_included: reply.server_reasoning_included,
                    },
                ),
                _ => Err(
                    NanocodexError::InvalidAttemptState {
                        detail: "warmup returned a non-warmup response",
                    },
                ),
            },
        }
    }

    /// Ends the warmup. Without an execution of its own, another run with the
    /// same prefix has warmed up for it.
    pub fn finish_warmup(
        &mut self,
        outcome: Result<Option<WarmupExecution>, NanocodexError>,
        duration_ns: u64,
    ) -> (r: Result<WarmupOutcome, NanocodexError>)
        requires
            old(self)@.stats.warmup_duration_ns + duration_ns <= u64::MAX,
        ensures
            match outcome {
                Err(error) => {
                    &&& r == Err::<WarmupOutcome, NanocodexError>(error)
                    &&& final(self)@.events.len() == old(self)@.events.len() + 1
                    &&& final(self)@ == old(self)@.warmup_took(duration_ns).emitting(
                        final(self)@.events.last(),
                    )
                    &&& reports_failed_warmup(
                        final(self)@.events.last(),
                        duration_ns,
                        error.text(),
                    )
                },
                Ok(execution) => {
                    &&& r is Ok
                    &&& r->Ok_0.response_id == warm_response(execution)
                    &&& r->Ok_0.server_reasoning_included == warm_reasoning(execution)
                    &&& final(self)@ == old(self)@.warmup_answered(execution, duration_ns)
                },
            },
    {
        let execution = match outcome {
            Ok(execution) => execution,
            Err(error) => {
                self.stats.warmup_duration_ns = self.stats.warmup_duration_ns + duration_ns;
                let text = error.message();
                self.events.push(RunEvent::WarmupFailed { duration_ns, error: text });
                return Err(error);
            },
        };
        self.stats.warmup_duration_ns = self.stats.warmup_duration_ns + duration_ns;
        match execution {
            Some(execution) => {
                self.stats.warmup_usage.add_operation(execution.usage.as_ref());
                self.stats.last_response_id = Some(execution.response_id.clone());
                self.events.push(
                    RunEvent::WarmupCompleted {
                        response_id: Some(execution.response_id.clone()),
                        source: WarmupSource::Response,
                        attempt: Some(execution.attempt),
                        connection_generation: Some(execution.connection_generation),
                        duration_ns,
                        usage: execution.usage,
                    },
                );
                Ok(
                    WarmupOutcome {
                        response_id: Some(execution.response_id),
                        server_reasoning_included: execution.server_reasoning_included,
                    },
                )
            },
            None => {
                self.stats.last_response_id = None;
                self.events.push(
                    RunEvent::WarmupCompleted {
                        response_id: None,
                        source: WarmupSource::SharedPrefix,
                        attempt: None,
                        connection_generation: None,
                        duration_ns,
                        usage: None,
                    },
                );
                Ok(WarmupOutcome { response_id: None, server_reasoning_included: false })
            },
        }
    }

    /// Takes what the warmup left into the conversation. A failure of the
    /// provider only costs the head start; any other failure ends the turn and
    /// is handed back.
    pub fn apply_warmup(&mut self, outcome: Result<WarmupOutcome, NanocodexError>) -> (r: Option<
        NanocodexError,
    >)
        requires
            old(self)@.session is Some,
        ensures
            match outcome {
                Ok(outcome) => {
                    &&& r is None
                    &&& final(self)@ == old(self)@.warmed_up(
                        outcome.response_id,
                        outcome.server_reasoning_included,
                    )
                },
                Err(error) => if error.transport_error() is Some {
                    &&& r is None
                    &&& final(self)@ == old(self)@.warmed_up(None, false)
                } else {
                    &&& r == Some(error)
                    &&& final(self)@ == old(self)@
                },
            },
    {
        let outcome = match outcome {
            Ok(outcome) => outcome,
            Err(error) => {
                if error.responses_error().is_none() {
                    return Some(error);
                }
                WarmupOutcome { response_id: None, server_reasoning_included: false }
            },
        };
        let mut session = self.session.take().unwrap();
        session.conversation.observe_server_reasoning(outcome.server_reasoning_included);
        match outcome.response_id {
            Some(id) => {
                session.conversation.set_previous_response_id(id);
            },
            None => {
                session.conversation.reset_for_full_request();
                self.stats.last_response_id = None;
            },
        }
        self.session = Some(session);
        None
    }
}

} // verus!
