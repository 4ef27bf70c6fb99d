//! One turn of the model: what is asked of the provider, what its replies
//! change, and when the turn ends.
//!
//! The run decides and keeps the books; requests, tools, and clocks are outside
//! and report back. Events collect in the order in which they are to be sent.
pub mod calls;
pub mod drive;
pub mod events;
pub mod laws;
pub mod tools;
pub mod turn;

use crate::code_mode::TerminalToolSelection;
use crate::config::{ModelConfig, ResponsesTransport, Thinking};
use crate::conversation;
use crate::conversation::{
    ContextBaseline, ContinuationPolicy, ConversationState, ModelCheckpoint, RequestProfile,
};
use crate::error::NanocodexError;
use crate::items::{clone_text, ResponseItem};
use crate::prompt::Prompt;
use crate::run::drive::TurnPhase;
use crate::run::events::{RunCompletion, RunEvent, RunStats, TerminalStatus, TransportCounts};
use crate::run::turn::TurnEnding;
use crate::text::same_text;
use crate::tool_calls::{CallIndex, CodeCallKind, CompletedToolCall};
use crate::usage;
use crate::usage::{ServicePricing, ServiceTier, TurnUsage};
use std::sync::Arc;
use vstd::prelude::*;
use vstd::string::*;

verus! {

/// The conversation that a run owns between turns.
pub struct ModelSession {
    /// Workspace.
    pub workspace: String,
    /// Identity of the requests.
    pub profile: RequestProfile,
    /// Number of the turn, for the provider.
    pub logical_turn: u64,
    /// The conversation.
    pub conversation: ConversationState,
    /// What the model was last told of its environment.
    pub context_baseline: ContextBaseline,
    /// The environment as it was last captured, stated in full.
    pub context_snapshot: Option<Arc<ResponseItem>>,
    /// Whether the environment has to be stated in full again.
    pub reinject_context: bool,
    /// Whether the next turn still owes the provider items of the last one.
    pub preserve_inherited_delta: bool,
}

/// What a session holds.
#[verifier::ext_equal]
pub struct ModelSessionView {
    /// Workspace.
    pub workspace: String,
    /// Identity of the requests.
    pub profile: RequestProfile,
    /// Number of the turn, for the provider.
    pub logical_turn: u64,
    /// The conversation.
    pub conversation: conversation::ConversationView,
    /// What the model was last told of its environment.
    pub context_baseline: ContextBaseline,
    /// The environment as it was last captured, stated in full.
    pub context_snapshot: Option<Arc<ResponseItem>>,
    /// Whether the environment has to be stated in full again.
    pub reinject_context: bool,
    /// Whether the next turn still owes the provider items of the last one.
    pub preserve_inherited_delta: bool,
}

impl View for ModelSession {
    type V = ModelSessionView;

    open spec fn view(&self) -> ModelSessionView {
        ModelSessionView {
            workspace: self.workspace,
            profile: self.profile,
            logical_turn: self.logical_turn,
            conversation: self.conversation@,
            context_baseline: self.context_baseline,
            context_snapshot: self.context_snapshot,
            reinject_context: self.reinject_context,
            preserve_inherited_delta: self.preserve_inherited_delta,
        }
    }
}

impl ModelSessionView {
    /// The boundary that a session leaves for a later run.
    pub open spec fn checkpoint(
        self,
        preserve_inherited_delta: bool,
        global_instructions: Option<String>,
    ) -> conversation::CheckpointView {
        conversation::CheckpointView {
            workspace: self.workspace,
            conversation: self.conversation,
            request_prefix: self.profile.prefix,
            prompt_cache_key: self.profile.prompt_cache_key,
            preserve_inherited_delta,
            global_instructions,
            context_baseline: self.context_baseline,
        }
    }
}

impl ModelSession {
    /// Checks that a requested workspace is the session's own.
    pub fn validate_workspace(&self, requested: Option<&str>) -> (r: Option<NanocodexError>)
        ensures
            match r {
                None => requested is None || requested->0@ == self.workspace@,
                Some(error) => requested is Some && requested->0@ != self.workspace@ && (error
                    matches NanocodexError::WorkspaceChanged { current, requested: other }
                    && current == self.workspace && other@ == requested->0@),
            },
    {
        match requested {
            None => None,
            Some(requested) => {
                if same_text(requested, self.workspace.as_str()) {
                    None
                } else {
                    Some(
                        NanocodexError::WorkspaceChanged {
                            current: self.workspace.clone(),
                            requested: requested.to_owned(),
                        },
                    )
                }
            },
        }
    }

    /// Takes the boundary that the session leaves for a later run.
    pub fn checkpoint(
        &self,
        preserve_inherited_delta: bool,
        global_instructions: &Option<String>,
    ) -> (r: ModelCheckpoint)
        ensures
            r@ == self@.checkpoint(preserve_inherited_delta, *global_instructions),
    {
        ModelCheckpoint {
            workspace: self.workspace.clone(),
            conversation: self.conversation.clone(),
            request_prefix: self.profile.prefix.clone(),
            prompt_cache_key: self.profile.prompt_cache_key.clone(),
            preserve_inherited_delta,
            global_instructions: clone_text(global_instructions),
            context_baseline: self.context_baseline.clone(),
        }
    }
}

/// A tool call that has not been answered yet.
pub struct ActiveToolCall {
    /// Identity of the call.
    pub call_id: String,
    /// Qualified name of the tool.
    pub name: String,
    /// How the tool was called.
    pub kind: CodeCallKind,
    /// Whether an interruption is answered in the way of shell tools.
    pub shell_abort_format: bool,
    /// Calls that running code made so far.
    pub nested_tool_calls: u32,
    /// The outcome, once there is one.
    pub completion: Option<CompletedToolCall>,
    /// What kept the call from an outcome, until the turn gives up.
    pub failure: Option<NanocodexError>,
}

/// The model loop of one agent.
pub struct ModelRun {
    config: Arc<ModelConfig>,
    thinking: Thinking,
    fast_mode: bool,
    stats: RunStats,
    session: Option<ModelSession>,
    has_tools: bool,
    active_tool_calls: Vec<ActiveToolCall>,
    tool_batch_open: bool,
    batch_failed: bool,
    batch_terminal: TerminalToolSelection,
    tool_call_indices: Vec<CallIndex>,
    global_instructions: Option<String>,
    force_compaction: bool,
    can_drain_steers: bool,
    events: Vec<RunEvent>,
    phase: TurnPhase,
    ending: Option<TurnEnding>,
}

/// What a run holds.
#[verifier::ext_equal]
pub struct RunView {
    /// Model settings.
    pub config: Arc<ModelConfig>,
    /// Effort of the turn.
    pub thinking: Thinking,
    /// Processing mode of the turn.
    pub fast_mode: bool,
    /// Counters of the turn.
    pub stats: RunStats,
    /// The conversation.
    pub session: Option<ModelSessionView>,
    /// Whether a tool runtime exists.
    pub has_tools: bool,
    /// Tool calls that were not answered yet, in the model's order.
    pub active: Seq<ActiveToolCall>,
    /// Whether the time of a batch of tool calls is being taken.
    pub tool_batch_open: bool,
    /// Whether an answered call of the batch failed.
    pub batch_failed: bool,
    /// Which of the answered calls of the batch would end the turn.
    pub batch_terminal: TerminalToolSelection,
    /// Model calls of the tool calls.
    pub indices: Seq<CallIndex>,
    /// Instructions that hold in every workspace.
    pub global_instructions: Option<String>,
    /// Whether the provider asked for a compaction.
    pub force_compaction: bool,
    /// Whether steering messages may be taken in.
    pub can_drain_steers: bool,
    /// Events in the order in which they are to be sent.
    pub events: Seq<RunEvent>,
    /// Where the turn stands.
    pub phase: TurnPhase,
    /// How the turn ended, until it is reported.
    pub ending: Option<TurnEnding>,
}

/// The endpoint of the selected transport.
pub open spec fn endpoint_of(config: ModelConfig) -> String {
    match config.responses_transport {
        ResponsesTransport::WebSocket => config.websocket_url,
        ResponsesTransport::Https => config.api_base_url,
    }
}

impl RunView {
    /// The run after an event.
    pub open spec fn emitting(self, event: RunEvent) -> RunView {
        RunView { events: self.events.push(event), ..self }
    }

    /// The run with other counters.
    pub open spec fn with_stats(self, stats: RunStats) -> RunView {
        RunView { stats, ..self }
    }

    /// The run after the transport's counts of the turn were taken in.
    pub open spec fn with_transport(self, transport: TransportCounts) -> RunView {
        self.with_stats(RunStats { transport, ..self.stats })
    }

    /// The run with another conversation.
    pub open spec fn with_conversation(self, next: conversation::ConversationView) -> RunView {
        RunView {
            session: Some(ModelSessionView { conversation: next, ..self.session->0 }),
            ..self
        }
    }

    /// The conversation.
    pub open spec fn conversation(self) -> conversation::ConversationView {
        self.session->0.conversation
    }

    /// Settings that requests of the turn share.
    pub open spec fn policy(self) -> ContinuationPolicy {
        ContinuationPolicy { thinking: self.thinking, fast_mode: self.fast_mode }
    }

    /// The run at the start of a turn.
    pub open spec fn turning(self, thinking: Thinking, fast_mode: bool) -> RunView {
        RunView { thinking, fast_mode, stats: RunStats::zero(), can_drain_steers: false, ..self }
    }

    /// The event that reports the start of a turn.
    pub open spec fn start_event(
        self,
        workspace: Option<String>,
        instruction_bytes: usize,
    ) -> RunEvent {
        RunEvent::RunStarted {
            reasoning_mode: self.config.reasoning_mode,
            effort: self.thinking,
            transport: self.config.responses_transport,
            endpoint: endpoint_of(*self.config),
            workspace,
            instruction_bytes,
        }
    }

    /// The run after the start of a turn was reported.
    pub open spec fn begun(
        self,
        task: Prompt,
        workspace: Option<String>,
        thinking: Thinking,
        fast_mode: bool,
    ) -> RunView {
        let turning = self.turning(thinking, fast_mode);
        turning.emitting(turning.start_event(workspace, task.instruction.bytes() as usize))
    }

    /// The priced token counts of the turn.
    pub open spec fn turn_usage(self, rates: Option<ServicePricing>) -> usage::TurnUsageView {
        usage::usage_of(
            self.stats.all_usage(),
            match rates {
                Some(rates) => Some(rates.rates_of(ServiceTier::selected(self.fast_mode))),
                None => None,
            },
        )
    }

    /// Whether an event reports how the turn ended.
    pub open spec fn reports_end(
        self,
        event: RunEvent,
        ended: TerminalStatus,
        completed_by: Option<RunCompletion>,
        took_ns: u64,
        rates: Option<ServicePricing>,
    ) -> bool {
        event matches RunEvent::RunEnded { status, elapsed_ns, effort, stats, usage, completion }
            && status == ended && elapsed_ns == took_ns && effort == self.thinking && stats
            == self.stats && usage@ == self.turn_usage(rates) && completion == completed_by
    }
}

impl View for ModelRun {
    type V = RunView;

    closed spec fn view(&self) -> RunView {
        RunView {
            config: self.config,
            thinking: self.thinking,
            fast_mode: self.fast_mode,
            stats: self.stats,
            session: match self.session {
                Some(session) => Some(session@),
                None => None,
            },
            has_tools: self.has_tools,
            active: self.active_tool_calls@,
            tool_batch_open: self.tool_batch_open,
            batch_failed: self.batch_failed,
            batch_terminal: self.batch_terminal,
            indices: self.tool_call_indices@,
            global_instructions: self.global_instructions,
            force_compaction: self.force_compaction,
            can_drain_steers: self.can_drain_steers,
            events: self.events@,
            phase: self.phase,
            ending: self.ending,
        }
    }
}

/// Whether an event reports an error that ended the turn.
pub open spec fn reports_error(event: RunEvent, text: Seq<char>) -> bool {
    event matches RunEvent::RunError { message } && message@ == text
}

impl ModelRun {
    /// A run without a conversation.
    pub fn new(config: Arc<ModelConfig>, global_instructions: Option<String>) -> (r: Self)
        ensures
            r@ == (RunView {
                config,
                thinking: config.thinking,
                fast_mode: config.fast_mode,
                stats: RunStats::zero(),
                session: None,
                has_tools: false,
                active: Seq::empty(),
                tool_batch_open: false,
                batch_failed: false,
                batch_terminal: TerminalToolSelection::Unselected,
                indices: Seq::empty(),
                global_instructions,
                force_compaction: false,
                can_drain_steers: false,
                events: Seq::empty(),
                phase: TurnPhase::Idle,
                ending: None,
            }),
    {
        let thinking = config.thinking;
        let fast_mode = config.fast_mode;
        ModelRun {
            config,
            thinking,
            fast_mode,
            stats: RunStats::new(),
            session: None,
            has_tools: false,
            active_tool_calls: Vec::new(),
            tool_batch_open: false,
            batch_failed: false,
            batch_terminal: TerminalToolSelection::Unselected,
            tool_call_indices: Vec::new(),
            global_instructions,
            force_compaction: false,
            can_drain_steers: false,
            events: Vec::new(),
            phase: TurnPhase::Idle,
            ending: None,
        }
    }

    /// A run that continues from a boundary. Instructions of the run take the
    /// place of the boundary's own, where it has any.
    pub fn from_checkpoint(
        config: Arc<ModelConfig>,
        session_id: String,
        checkpoint: ModelCheckpoint,
        global_instructions: Option<String>,
    ) -> (r: Self)
        ensures
            r@ == (RunView {
                config,
                thinking: config.thinking,
                fast_mode: config.fast_mode,
                stats: RunStats::zero(),
                session: Some(
                    ModelSessionView {
                        workspace: checkpoint.workspace,
                        profile: RequestProfile {
                            session_id,
                            prompt_cache_key: checkpoint.prompt_cache_key,
                            prefix: checkpoint.request_prefix,
                        },
                        logical_turn: 0,
                        conversation: checkpoint.conversation@,
                        context_baseline: checkpoint.context_baseline,
                        context_snapshot: None,
                        reinject_context: false,
                        preserve_inherited_delta: checkpoint.preserve_inherited_delta,
                    },
                ),
                has_tools: true,
                active: Seq::empty(),
                tool_batch_open: false,
                batch_failed: false,
                batch_terminal: TerminalToolSelection::Unselected,
                indices: Seq::empty(),
                global_instructions: if global_instructions is Some {
                    global_instructions
                } else {
                    checkpoint.global_instructions
                },
                force_compaction: false,
                can_drain_steers: false,
                events: Seq::empty(),
                phase: TurnPhase::Idle,
                ending: None,
            }),
    {
        let global_instructions = if global_instructions.is_some() {
            global_instructions
        } else {
            checkpoint.global_instructions
        };
        let mut run = ModelRun::new(config, global_instructions);
        run.has_tools = true;
        run.session =
        Some(
            ModelSession {
                workspace: checkpoint.workspace,
                profile: RequestProfile {
                    session_id,
                    prompt_cache_key: checkpoint.prompt_cache_key,
                    prefix: checkpoint.request_prefix,
                },
                logical_turn: 0,
                conversation: checkpoint.conversation,
                context_baseline: checkpoint.context_baseline,
                context_snapshot: None,
                reinject_context: false,
                preserve_inherited_delta: checkpoint.preserve_inherited_delta,
            },
        );
        run
    }

    /// Hands out the events that were not sent yet.
    pub fn take_events(&mut self) -> (r: Vec<RunEvent>)
        ensures
            r@ == old(self)@.events,
            final(self)@ == (RunView { events: Seq::empty(), ..old(self)@ }),
    {
        let mut events: Vec<RunEvent> = Vec::new();
        std::mem::swap(&mut events, &mut self.events);
        events
    }

    /// Returns the counters of the turn.
    pub fn stats(&self) -> (r: &RunStats)
        ensures
            *r == self@.stats,
    {
        &self.stats
    }

    /// Returns the conversation's session.
    pub fn session(&self) -> (r: Option<&ModelSession>)
        ensures
            match r {
                Some(session) => self@.session == Some(session@),
                None => self@.session is None,
            },
    {
        match &self.session {
            Some(session) => Some(session),
            None => None,
        }
    }

    /// Starts a turn and reports it.
    pub fn begin_turn(
        &mut self,
        task: &Prompt,
        workspace: Option<String>,
        thinking: Thinking,
        fast_mode: bool,
    )
        requires
            task.instruction.bytes() <= usize::MAX,
        ensures
            final(self)@ == old(self)@.begun(*task, workspace, thinking, fast_mode),
    {
        let instruction_bytes: usize = task.instruction.text_bytes();
        self.thinking = thinking;
        self.fast_mode = fast_mode;
        self.stats = RunStats::new();
        self.can_drain_steers = false;
        let endpoint = match self.config.responses_transport {
            ResponsesTransport::WebSocket => self.config.websocket_url.clone(),
            ResponsesTransport::Https => self.config.api_base_url.clone(),
        };
        self.events.push(
            RunEvent::RunStarted {
                reasoning_mode: self.config.reasoning_mode,
                effort: thinking,
                transport: self.config.responses_transport,
                endpoint,
                workspace,
                instruction_bytes,
            },
        );
    }

    /// Prices the token counts of the turn.
    pub fn turn_usage(&self, rates: Option<&ServicePricing>) -> (r: TurnUsage)
        ensures
            r@ == self@.turn_usage(
                match rates {
                    Some(rates) => Some(*rates),
                    None => None,
                },
            ),
    {
        let counts = self.stats.usage.join(self.stats.warmup_usage);
        match rates {
            Some(rates) => {
                let tier = ServiceTier::for_fast_mode(self.fast_mode);
                TurnUsage::from_counts(counts, Some(rates.for_tier(tier)))
            },
            None => TurnUsage::from_counts(counts, None),
        }
    }
}

} // verus!
