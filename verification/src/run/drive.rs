//! The course of a turn: what is to be done next, and what each reply leads to.
//!
//! Every step of the run names one action. Whoever performs it reports back
//! through the step for its reply, and is told the next one, until the turn
//! ends.
use crate::code_mode::{TerminalToolReceipt, TerminalToolSelection};
use crate::config::{ResponsesTransport, Thinking};
use crate::conversation;
use crate::conversation::{ContextBaseline, ModelCheckpoint, RequestProfile};
use crate::error::NanocodexError;
use crate::items::{clone_text, ContentItem, ResponseItem};
use crate::prompt::Prompt;
use crate::run::calls;
use crate::run::calls::{
    CompactionPhase, CompactionRequest, ModelRequest, WarmupExecution, WarmupOutcome,
};
use crate::run::events::{RunEvent, RunStats, TransportCounts};
use crate::run::tools;
use crate::run::tools::InterruptedCall;
use crate::run::turn;
use crate::run::turn::{
    CompactionReply, ContextUpdate, DriveStep, ModelCompactOutcome, ModelTaskOutcome,
    ModelTurnOutcome, TaskStart, TurnCompletion, TurnEnding,
};
use crate::run::{ModelRun, RunView};
use crate::service::{GenerationOutput, ResponsesOutput, ResponsesServiceResponse};
use crate::session_id;
use crate::tool_calls;
use crate::tool_calls::{CodeCall, CompletedToolCall};
use crate::usage::ServicePricing;
use crate::CONTEXT_WINDOW_TOKENS;
use std::sync::Arc;
use vstd::prelude::*;

verus! {

/// Where a compaction stands in a turn.
#[derive(Clone, Copy, Debug, PartialEq, Eq, Structural)]
pub struct CompactionPoint {
    /// Before the turn's message, or between two generations.
    pub phase: CompactionPhase,
    /// Generations so far.
    pub after_model_call_index: u32,
    /// Whether steering waits for the generation after a compaction.
    pub holds_steers: bool,
}

/// Where a turn stands.
#[derive(Clone, Copy, Debug, PartialEq, Eq, Structural)]
pub enum TurnPhase {
    /// No turn runs.
    Idle,
    /// The conversation of a first turn is being prepared.
    Opening,
    /// The warmup is under way.
    Warming,
    /// The size of the context is being taken.
    Sizing(CompactionPoint),
    /// A compaction is under way.
    Compacting(CompactionPoint),
    /// The environment and the message of a follow-on turn are being prepared.
    Telling,
    /// The message of a cancelled follow-on turn is being prepared.
    Keeping,
    /// Steering messages are being taken in.
    Steering,
    /// The history of a generation is being prepared.
    Preparing,
    /// A generation of this number is under way.
    Generating(u32),
    /// The tools that a generation of this number called are running.
    RunningTools(u32),
    /// The outcome is known, and the turn has to be left.
    Ending,
    /// The boundary is being persisted, and the end has to be reported.
    Reporting,
    /// The size of the context is being taken for a requested compaction.
    SizingRequested,
    /// A requested compaction is under way.
    CompactingRequested,
}

impl TurnPhase {
    /// Whether a turn can be cancelled here.
    pub open spec fn cancellable(self) -> bool {
        match self {
            TurnPhase::Warming | TurnPhase::Sizing(_) | TurnPhase::Compacting(_)
            | TurnPhase::Steering | TurnPhase::Preparing | TurnPhase::Generating(_)
            | TurnPhase::RunningTools(_) => true,
            _ => false,
        }
    }

    /// Whether a compaction before the turn's message is decided or under way.
    pub open spec fn before_message(self) -> bool {
        match self {
            TurnPhase::Sizing(point) | TurnPhase::Compacting(point) => point.phase
                == CompactionPhase::PreTurn,
            _ => false,
        }
    }
}

/// What a turn needs next.
pub enum TurnAction {
    /// Prepare the workspace, the tools, and the first items.
    Open,
    /// Send the warmup. Branches may start from the boundary.
    WarmUp(ModelCheckpoint),
    /// Take the size of the context.
    SizeContext,
    /// Compact the conversation.
    Compact(CompactionRequest),
    /// Capture the environment, and prepare the turn's message.
    Tell,
    /// Prepare the turn's message alone.
    KeepMessage,
    /// Look for a steering message.
    PollSteer,
    /// Prepare the history. Branches may start from the boundary.
    Prepare(ModelCheckpoint),
    /// Generate a response.
    Generate(ModelRequest),
    /// Run tools.
    RunTools {
        /// Number of the generation that called them.
        call_index: u32,
        /// The calls in the model's order.
        calls: Vec<CodeCall>,
        /// A copy of the history, where code may own one.
        history: Option<Arc<Vec<Arc<ResponseItem>>>>,
    },
    /// Go on waiting for tools. Positions of calls count from the first one
    /// that was not answered yet.
    AwaitTools {
        /// How many calls were answered just now.
        answered: usize,
    },
    /// End the turn.
    End(ModelTaskOutcome),
}

/// The point at which a follow-on turn may be compacted before its message.
pub open spec fn before_turn(generations: u32) -> CompactionPoint {
    CompactionPoint {
        phase: CompactionPhase::PreTurn,
        after_model_call_index: generations,
        holds_steers: false,
    }
}

/// The point at which a turn may be compacted after a generation.
pub open spec fn within_turn(generation: u32, holds_steers: bool) -> CompactionPoint {
    CompactionPoint {
        phase: CompactionPhase::MidTurn,
        after_model_call_index: generation,
        holds_steers,
    }
}

impl RunView {
    /// The run at another phase.
    pub open spec fn at(self, phase: TurnPhase) -> RunView {
        RunView { phase, ..self }
    }

    /// Whether a reply to a generation can be accounted for.
    pub open spec fn reply_fits(
        self,
        repaired: Option<Seq<Arc<ResponseItem>>>,
        reply: Result<ResponsesServiceResponse, NanocodexError>,
        duration_ns: u64,
    ) -> bool {
        &&& self.stats.model_duration_ns + duration_ns <= u64::MAX
        &&& reply matches Ok(reply) ==> (reply.output matches ResponsesOutput::Generation(output)
            ==> {
            let history = match repaired {
                Some(history) => history,
                None => self.conversation().history,
            };
            &&& history.len() + output.output_items@.len() <= usize::MAX
            &&& self.stats.tool_calls + output.code_calls@.len() <= u32::MAX
        })
    }
}

/// Whether a turn goes on to prepare a generation: branches may start from the
/// boundary before it.
pub open spec fn prepares(before: RunView, after: RunView, action: TurnAction) -> bool {
    &&& after == before.at(TurnPhase::Preparing)
    &&& action matches TurnAction::Prepare(boundary) && boundary@
        == before.session->0.checkpoint(true, before.global_instructions)
}

/// Whether a turn goes on to the next generation: steering messages are taken
/// in before it where they may be.
pub open spec fn goes_on(before: RunView, after: RunView, action: TurnAction) -> bool {
    if before.can_drain_steers {
        after == before.at(TurnPhase::Steering) && action is PollSteer
    } else {
        prepares(before, after, action)
    }
}

/// Whether a turn goes on once it is settled whether the conversation was
/// compacted.
pub open spec fn resumes(
    before: RunView,
    after: RunView,
    action: TurnAction,
    point: CompactionPoint,
    compacted: bool,
) -> bool {
    match point.phase {
        CompactionPhase::PreTurn => {
            &&& after == before.following_on(compacted).at(TurnPhase::Telling)
            &&& action is Tell
        },
        CompactionPhase::MidTurn => goes_on(
            if point.holds_steers {
                RunView { can_drain_steers: !compacted, ..before }
            } else {
                before
            },
            after,
            action,
        ),
    }
}

/// Whether a turn gives up with an error.
pub open spec fn gives_up(
    before: RunView,
    after: RunView,
    action: TurnAction,
    error: NanocodexError,
) -> bool {
    after == before.at(TurnPhase::Ending) && action == TurnAction::End(
        ModelTaskOutcome::Failed(error),
    )
}

/// Whether a turn gives up because a reply was not what it has to be.
pub open spec fn gives_up_on_reply(
    before: RunView,
    after: RunView,
    action: TurnAction,
    detail: Seq<char>,
) -> bool {
    &&& after == before.at(TurnPhase::Ending)
    &&& action matches TurnAction::End(ModelTaskOutcome::Failed(error)) && calls::misplaced(
        error,
        detail,
    )
}

/// Whether a request to compact is the one for a conversation.
pub open spec fn requests_compaction(
    request: CompactionRequest,
    run: RunView,
    after_model_call_index: u32,
    history: Seq<Arc<ResponseItem>>,
) -> bool {
    &&& request.after_model_call_index == after_model_call_index
    &&& request.history@ == history
    &&& request.incremental_start == run.conversation().delta_start
    &&& request.previous_response_id == run.conversation().previous_response_id
    &&& request.thinking == run.thinking
    &&& request.fast_mode == run.fast_mode
}

/// Whether a request to generate is the one for a conversation. A repaired
/// history continues from no response.
pub open spec fn requests_generation(
    request: ModelRequest,
    run: RunView,
    prompt_history: Seq<Arc<ResponseItem>>,
    repaired: bool,
) -> bool {
    &&& request.call_index == run.stats.model_calls + 1
    &&& request.prompt_history@ == prompt_history
    &&& request.shared_history@ == run.conversation().history
    &&& request.delta_start == run.conversation().delta_start
    &&& request.previous_response_id == if repaired {
        None
    } else {
        run.conversation().previous_response_id
    }
    &&& request.thinking == run.thinking
    &&& request.fast_mode == run.fast_mode
}

/// What a turn does after a batch of tool calls was answered: the success of a
/// terminal tool ends it, unless it is open which one did or too much was left
/// behind; otherwise the size of the context is taken.
pub open spec fn concludes(
    before: RunView,
    call_index: u32,
    after: RunView,
    action: TurnAction,
) -> bool {
    let taken = before.selection_taken();
    match before.batch_selection() {
        TerminalToolSelection::Unselected => {
            &&& after == taken.at(TurnPhase::Sizing(within_turn(call_index, true)))
            &&& action is SizeContext
        },
        TerminalToolSelection::Selected(receipt) => {
            &&& after == taken.at(TurnPhase::Ending)
            &&& action == TurnAction::End(
                ModelTaskOutcome::Completed(TurnCompletion::TerminalTool { receipt }),
            )
        },
        TerminalToolSelection::Ambiguous => gives_up(
            taken,
            after,
            action,
            NanocodexError::AmbiguousTerminalTools,
        ),
        TerminalToolSelection::Invalid(error) => gives_up(
            taken,
            after,
            action,
            NanocodexError::TerminalToolReceipt(error),
        ),
    }
}

/// What a turn does after a response was taken in.
pub open spec fn proceeds(
    before: RunView,
    output: GenerationOutput,
    steers_waiting: bool,
    call_index: u32,
    after: RunView,
    action: TurnAction,
) -> bool {
    let responded = before.responded(output, steers_waiting);
    if output.code_calls@.len() > 0 {
        &&& action matches TurnAction::RunTools { call_index: number, calls, history } && number
            == call_index && calls == output.code_calls && turn::owns_history(
            history,
            calls@,
            before.with_response(output).history,
        )
        &&& after.phase == TurnPhase::RunningTools(call_index)
        &&& tools::batch_prepared(
            responded,
            after.at(responded.phase),
            call_index,
            output.code_calls@,
        )
    } else if output.end_turn == Some(false) || steers_waiting {
        &&& action is SizeContext
        &&& after == responded.at(
            TurnPhase::Sizing(within_turn(call_index, output.end_turn == Some(false))),
        )
    } else {
        &&& after == responded.at(TurnPhase::Ending)
        &&& match output.final_message {
            Some(message) => action matches TurnAction::End(
                ModelTaskOutcome::Completed(TurnCompletion::Message { final_message }),
            ) && turn::final_text(message, final_message),
            None => action matches TurnAction::End(
                ModelTaskOutcome::Failed(NanocodexError::MalformedResponse { detail }),
            ) && detail@ == "model completed without a final message or exec call"@,
        }
    }
}

/// Whether a run left a turn with an outcome.
pub open spec fn leaves(
    before: RunView,
    after: RunView,
    outcome: ModelTaskOutcome,
    result: Result<ModelTurnOutcome, NanocodexError>,
    known: Seq<InterruptedCall>,
    wall_ns: u64,
    notice: Arc<ResponseItem>,
    rates: Option<ServicePricing>,
) -> bool {
    match outcome {
        ModelTaskOutcome::Completed(completion) => turn::ends_completed(
            before,
            after,
            turn::completed_turn(result),
            completion,
            rates,
        ) && (result matches Ok(ended) ==> ended is Completed),
        ModelTaskOutcome::Cancelled => turn::ends_cancelled(
            before,
            after,
            turn::cancelled_turn(result),
            known,
            wall_ns,
            notice,
        ) && (result matches Ok(ended) ==> ended is Cancelled),
        ModelTaskOutcome::Failed(error) => turn::ends_failed(
            before,
            after,
            result,
            error,
            known,
            wall_ns,
            notice,
        ),
    }
}

impl ModelRun {
    /// Returns where the turn stands.
    pub fn phase(&self) -> (r: TurnPhase)
        ensures
            r == self@.phase,
    {
        self.phase
    }

    /// Publishes the boundary and asks for the history of a generation.
    fn prepare(&mut self) -> (r: TurnAction)
        requires
            old(self)@.session is Some,
        ensures
            prepares(old(self)@, final(self)@, r),
    {
        let boundary = self.publish_fork_snapshot();
        self.phase = TurnPhase::Preparing;
        TurnAction::Prepare(boundary)
    }

    /// Goes on to the next generation.
    fn go_on(&mut self) -> (r: TurnAction)
        requires
            old(self)@.session is Some,
        ensures
            goes_on(old(self)@, final(self)@, r),
    {
        if self.drains_steers() {
            self.phase = TurnPhase::Steering;
            TurnAction::PollSteer
        } else {
            self.prepare()
        }
    }

    /// Goes on once it is settled whether the conversation was compacted.
    fn resume(&mut self, point: CompactionPoint, compacted: bool) -> (r: TurnAction)
        requires
            old(self)@.session is Some,
        ensures
            resumes(old(self)@, final(self)@, r, point, compacted),
    {
        match point.phase {
            CompactionPhase::PreTurn => {
                self.begin_follow_on(compacted);
                self.phase = TurnPhase::Telling;
                TurnAction::Tell
            },
            CompactionPhase::MidTurn => {
                if point.holds_steers {
                    self.note_compaction(compacted);
                }
                self.go_on()
            },
        }
    }

    /// Gives up the turn with an error.
    fn give_up(&mut self, error: NanocodexError) -> (r: TurnAction)
        ensures
            gives_up(old(self)@, final(self)@, r, error),
    {
        self.phase = TurnPhase::Ending;
        TurnAction::End(ModelTaskOutcome::Failed(error))
    }
}

impl ModelRun {
    /// Starts a turn. A conversation that is there goes on in its own
    /// workspace; otherwise one has to be opened.
    pub fn start(
        &mut self,
        task: &Prompt,
        workspace: Option<String>,
        thinking: Thinking,
        fast_mode: bool,
        logical_turn: u64,
    ) -> (r: TurnAction)
        requires
            old(self)@.phase == TurnPhase::Idle,
            task.instruction.bytes() <= usize::MAX,
        ensures
            ({
                let begun = old(self)@.begun(*task, workspace, thinking, fast_mode);
                let asked = match workspace {
                    Some(workspace) => Some(workspace@),
                    None => None,
                };
                if begun.session is None {
                    final(self)@ == begun.at(TurnPhase::Opening) && r is Open
                } else if begun.belongs(asked) {
                    &&& final(self)@ == begun.taken_up(logical_turn).at(
                        TurnPhase::Sizing(before_turn(0)),
                    )
                    &&& r is SizeContext
                } else {
                    &&& final(self)@ == begun.turned_away(logical_turn).at(TurnPhase::Ending)
                    &&& r matches TurnAction::End(ModelTaskOutcome::Failed(error))
                        && turn::refuses_workspace(error, begun.session->0, asked->0)
                }
            }),
    {
        self.begin_turn(task, clone_text(&workspace), thinking, fast_mode);
        let requested = match &workspace {
            Some(workspace) => Some(workspace.as_str()),
            None => None,
        };
        match self.start_task(requested, logical_turn) {
            TaskStart::Fresh => {
                self.phase = TurnPhase::Opening;
                TurnAction::Open
            },
            TaskStart::FollowOn => {
                self.phase =
                TurnPhase::Sizing(
                    CompactionPoint {
                        phase: CompactionPhase::PreTurn,
                        after_model_call_index: 0,
                        holds_steers: false,
                    },
                );
                TurnAction::SizeContext
            },
            TaskStart::Refused(error) => self.give_up(error),
        }
    }

    /// Gives up a first turn whose conversation could not be prepared.
    pub fn open_failed(&mut self, error: NanocodexError) -> (r: TurnAction)
        requires
            old(self)@.phase == TurnPhase::Opening,
        ensures
            gives_up(old(self)@, final(self)@, r, error),
    {
        self.give_up(error)
    }

    /// Opens the conversation of a first turn. Persistent connections are
    /// warmed up; over HTTPS the first generation carries everything.
    pub fn opened(
        &mut self,
        workspace: String,
        profile: RequestProfile,
        logical_turn: u64,
        history: Vec<Arc<ResponseItem>>,
        context_snapshot: Arc<ResponseItem>,
        context_baseline: ContextBaseline,
    ) -> (r: TurnAction)
        requires
            old(self)@.phase == TurnPhase::Opening,
        ensures
            ({
                let opened = old(self)@.opened(
                    workspace,
                    profile,
                    logical_turn,
                    history@,
                    context_snapshot,
                    context_baseline,
                    final(self)@.conversation().item_seed,
                );
                if conversation::first_user_message(history@) is None {
                    &&& final(self)@ == (RunView { has_tools: true, ..old(self)@ }).at(
                        TurnPhase::Ending,
                    )
                    &&& r matches TurnAction::End(
                        ModelTaskOutcome::Failed(NanocodexError::MalformedResponse { detail }),
                    ) && detail@ == "task input did not include initial context"@
                } else if opened.config.responses_transport == ResponsesTransport::WebSocket {
                    &&& final(self)@ == opened.emitting(
                        RunEvent::WarmupStarted { prompt_cache_key: profile.prompt_cache_key },
                    ).at(TurnPhase::Warming)
                    &&& r matches TurnAction::WarmUp(boundary) && boundary@
                        == opened.session->0.checkpoint(true, opened.global_instructions)
                } else {
                    prepares(opened.warmed_up(None, false), final(self)@, r)
                }
            }),
            conversation::first_user_message(history@) is Some ==> session_id::names_session(
                final(self)@.conversation().item_seed@,
            ),
    {
        let boundary = match self.open_session(
            workspace,
            profile,
            logical_turn,
            history,
            context_snapshot,
            context_baseline,
        ) {
            Ok(boundary) => boundary,
            Err(error) => return self.give_up(error),
        };
        if self.begin_warmup() {
            self.phase = TurnPhase::Warming;
            return TurnAction::WarmUp(boundary);
        }
        let _ = self.apply_warmup(
            Ok(WarmupOutcome { response_id: None, server_reasoning_included: false }),
        );
        self.prepare()
    }

    /// Takes the reply to the warmup. Without an execution of its own, another
    /// run with the same prefix has warmed up for it. A failure of the provider
    /// only costs the head start.
    pub fn warmed(
        &mut self,
        outcome: Result<Option<WarmupExecution>, NanocodexError>,
        duration_ns: u64,
    ) -> (r: TurnAction)
        requires
            old(self)@.phase == TurnPhase::Warming,
            old(self)@.session is Some,
            old(self)@.stats.warmup_duration_ns + duration_ns <= u64::MAX,
        ensures
            match outcome {
                Ok(execution) => prepares(
                    old(self)@.warmup_answered(execution, duration_ns).warmed_up(
                        calls::warm_response(execution),
                        calls::warm_reasoning(execution),
                    ),
                    final(self)@,
                    r,
                ),
                Err(error) => {
                    let n = old(self)@.events.len() as int;
                    let failed = old(self)@.warmup_took(duration_ns).emitting(
                        final(self)@.events[n],
                    );
                    &&& final(self)@.events.len() == n + 1
                    &&& calls::reports_failed_warmup(
                        final(self)@.events[n],
                        duration_ns,
                        error.text(),
                    )
                    &&& if error.transport_error() is Some {
                        prepares(failed.warmed_up(None, false), final(self)@, r)
                    } else {
                        gives_up(failed, final(self)@, r, error)
                    }
                },
            },
    {
        let outcome = self.finish_warmup(outcome, duration_ns);
        match self.apply_warmup(outcome) {
            Some(error) => self.give_up(error),
            None => self.prepare(),
        }
    }

    /// Takes the size of the context: the conversation is compacted when the
    /// provider asked for it, or when the context has grown to the limit.
    /// `history` is the prompt with tool outputs cut as far as the context
    /// window asks for.
    pub fn sized(
        &mut self,
        active_context_tokens: u64,
        limit: Option<u64>,
        history: Vec<Arc<ResponseItem>>,
    ) -> (r: TurnAction)
        requires
            old(self)@.phase is Sizing,
            old(self)@.session is Some,
            old(self)@.stats.compactions < u32::MAX,
        ensures
            ({
                let point = old(self)@.phase->Sizing_0;
                if old(self)@.must_compact(active_context_tokens, limit) {
                    &&& final(self)@ == old(self)@.compacting(
                        point.after_model_call_index,
                        active_context_tokens,
                        limit->0,
                    ).at(TurnPhase::Compacting(point))
                    &&& r matches TurnAction::Compact(request) && requests_compaction(
                        request,
                        old(self)@,
                        point.after_model_call_index,
                        history@,
                    )
                } else {
                    resumes(old(self)@, final(self)@, r, point, false)
                }
            }),
    {
        let point = match self.phase {
            TurnPhase::Sizing(point) => point,
            _ => return unreached(),
        };
        match limit {
            Some(most) if self.wants_compaction(active_context_tokens, limit) => {
                let request = self.begin_compaction(
                    point.after_model_call_index,
                    history,
                    active_context_tokens,
                    most,
                );
                self.phase = TurnPhase::Compacting(point);
                TurnAction::Compact(request)
            },
            _ => self.resume(point, false),
        }
    }

    /// Takes the reply to a compaction. `installed` is the history that takes
    /// the place of the compacted one.
    pub fn compacted(
        &mut self,
        reply: Result<ResponsesServiceResponse, NanocodexError>,
        duration_ns: u64,
        installed: Vec<Arc<ResponseItem>>,
    ) -> (r: TurnAction)
        requires
            old(self)@.phase is Compacting,
            old(self)@.session is Some,
            old(self)@.stats.model_duration_ns + duration_ns <= u64::MAX,
        ensures
            ({
                let point = old(self)@.phase->Compacting_0;
                match reply {
                    Err(error) => {
                        let n = old(self)@.events.len() as int;
                        &&& final(self)@.events.len() == n + 1
                        &&& calls::reports_failed_compaction(
                            final(self)@.events[n],
                            point.after_model_call_index,
                            duration_ns,
                            error.text(),
                        )
                        &&& gives_up(
                            old(self)@.with_stats(old(self)@.stats.failed(duration_ns)).emitting(
                                final(self)@.events[n],
                            ),
                            final(self)@,
                            r,
                            error,
                        )
                    },
                    Ok(reply) => if reply.output is Compaction {
                        let answered = old(self)@.compaction_answered(
                            point.after_model_call_index,
                            reply,
                            duration_ns,
                        );
                        if answered.can_install(point.phase) {
                            resumes(
                                answered.installing(
                                    point.phase,
                                    installed@,
                                    reply.server_reasoning_included,
                                ),
                                final(self)@,
                                r,
                                point,
                                true,
                            )
                        } else {
                            gives_up_on_reply(
                                answered.with_conversation(
                                    answered.conversation().hearing(
                                        reply.server_reasoning_included,
                                    ),
                                ),
                                final(self)@,
                                r,
                                "mid-turn compaction is missing its context snapshot"@,
                            )
                        }
                    } else {
                        gives_up_on_reply(
                            old(self)@,
                            final(self)@,
                            r,
                            "compaction returned a non-compaction response"@,
                        )
                    },
                }
            }),
    {
        let point = match self.phase {
            TurnPhase::Compacting(point) => point,
            _ => return unreached(),
        };
        let left = match self.finish_compaction(
            point.after_model_call_index,
            reply,
            duration_ns,
        ) {
            Ok(left) => left,
            Err(error) => return self.give_up(error),
        };
        match self.install_compaction(point.phase, installed, left.server_reasoning_included) {
            Some(error) => self.give_up(error),
            None => self.resume(point, true),
        }
    }

    /// States the environment as far as it has to be, adds the message of a
    /// follow-on turn, and goes on to the first generation.
    pub fn told(
        &mut self,
        update: ContextUpdate,
        canonical_context: Arc<ResponseItem>,
        developer_context: Arc<ResponseItem>,
        context_baseline: ContextBaseline,
        user_content: Vec<ContentItem>,
    ) -> (r: TurnAction)
        requires
            old(self)@.phase == TurnPhase::Telling,
            old(self)@.session is Some,
            old(self)@.conversation().history.len() + 3 <= usize::MAX,
        ensures
            final(self)@.session is Some,
            final(self)@.conversation().history.len() > 0,
            ({
                let item = final(self)@.conversation().history.last();
                &&& turn::is_kept_user_item(
                    *item,
                    user_content@,
                    old(self)@.told(update, canonical_context, developer_context),
                )
                &&& prepares(
                    old(self)@.told_with(
                        update,
                        canonical_context,
                        developer_context,
                        context_baseline,
                        item,
                    ),
                    final(self)@,
                    r,
                )
            }),
    {
        self.finish_follow_on(
            update,
            canonical_context,
            developer_context,
            context_baseline,
            user_content,
        );
        self.prepare()
    }

    /// Takes a steering message in, and looks for the next one.
    pub fn steered(&mut self, steer: &Prompt, user_content: Vec<ContentItem>) -> (r: TurnAction)
        requires
            old(self)@.phase == TurnPhase::Steering,
            old(self)@.session is Some,
            old(self)@.can_drain_steers,
            steer.instruction.bytes() <= usize::MAX,
            old(self)@.stats.steers < u32::MAX,
            old(self)@.conversation().history.len() < usize::MAX,
        ensures
            r is PollSteer,
            final(self)@.session is Some,
            final(self)@.conversation().history.len() > 0,
            ({
                let item = final(self)@.conversation().history.last();
                let count = (old(self)@.stats.steers + 1) as u32;
                &&& turn::is_kept_user_item(*item, user_content@, old(self)@.conversation())
                &&& final(self)@ == old(self)@.with_conversation(
                    old(self)@.conversation().with_items(seq![item]),
                ).with_stats(RunStats { steers: count, ..old(self)@.stats }).emitting(
                    RunEvent::RunSteered {
                        steer_index: count,
                        instruction_bytes: steer.instruction.bytes() as usize,
                    },
                )
            }),
    {
        self.take_steer(steer, user_content);
        TurnAction::PollSteer
    }

    /// Goes on to the next generation: no steering message waits any more.
    pub fn steers_drained(&mut self) -> (r: TurnAction)
        requires
            old(self)@.phase == TurnPhase::Steering,
            old(self)@.session is Some,
        ensures
            prepares(old(self)@, final(self)@, r),
    {
        self.prepare()
    }

    /// Starts a generation. `prompt_history` is the history as the model is to
    /// see it.
    pub fn prepared(&mut self, prompt_history: Vec<Arc<ResponseItem>>, repaired: bool) -> (r:
        TurnAction)
        requires
            old(self)@.phase == TurnPhase::Preparing,
            old(self)@.session is Some,
            old(self)@.stats.model_calls < u32::MAX,
        ensures
            r matches TurnAction::Generate(request) && requests_generation(
                request,
                old(self)@,
                prompt_history@,
                repaired,
            ) && final(self)@ == old(self)@.with_stats(
                RunStats { model_calls: request.call_index, ..old(self)@.stats },
            ).emitting(
                RunEvent::ModelCallStarted {
                    call_index: request.call_index,
                    effort: old(self)@.thinking,
                    previous_response_id: request.previous_response_id,
                },
            ).at(TurnPhase::Generating(request.call_index)),
    {
        let request = self.begin_model_call(prompt_history, repaired);
        self.phase = TurnPhase::Generating(request.call_index);
        TurnAction::Generate(request)
    }

    /// Takes the reply to a generation. `repaired` is the history that the
    /// request showed in place of the conversation's own, if it had to be
    /// repaired.
    pub fn generated(
        &mut self,
        repaired: Option<Vec<Arc<ResponseItem>>>,
        reply: Result<ResponsesServiceResponse, NanocodexError>,
        duration_ns: u64,
        steers_waiting: bool,
    ) -> (r: TurnAction)
        requires
            old(self)@.phase is Generating,
            old(self)@.session is Some,
            old(self)@.reply_fits(calls::history_of(repaired), reply, duration_ns),
        ensures
            ({
                let call_index = old(self)@.phase->Generating_0;
                match reply {
                    Err(error) => {
                        let n = old(self)@.events.len() as int;
                        &&& final(self)@.events.len() == n + 1
                        &&& calls::reports_failed_call(
                            final(self)@.events[n],
                            call_index,
                            duration_ns,
                            error.text(),
                        )
                        &&& gives_up(
                            old(self)@.with_stats(old(self)@.stats.failed(duration_ns)).emitting(
                                final(self)@.events[n],
                            ),
                            final(self)@,
                            r,
                            error,
                        )
                    },
                    Ok(reply) => match reply.output {
                        ResponsesOutput::Generation(output) => proceeds(
                            old(self)@.generated(
                                call_index,
                                calls::history_of(repaired),
                                reply,
                                duration_ns,
                            ),
                            output,
                            steers_waiting,
                            call_index,
                            final(self)@,
                            r,
                        ),
                        _ => gives_up_on_reply(
                            old(self)@.with_conversation(
                                old(self)@.conversation().hearing(
                                    reply.server_reasoning_included,
                                ),
                            ),
                            final(self)@,
                            r,
                            "generation returned a non-generation response"@,
                        ),
                    },
                }
            }),
    {
        let call_index: u32 = match self.phase {
            TurnPhase::Generating(call_index) => call_index,
            _ => return unreached(),
        };
        let output = match self.finish_model_call(call_index, repaired, reply, duration_ns) {
            Ok(output) => output,
            Err(error) => return self.give_up(error),
        };
        match self.take_response(output, steers_waiting) {
            DriveStep::Completed(message) => {
                self.phase = TurnPhase::Ending;
                TurnAction::End(
                    ModelTaskOutcome::Completed(
                        TurnCompletion::Message { final_message: message },
                    ),
                )
            },
            DriveStep::Failed(error) => self.give_up(error),
            DriveStep::Continue { compaction_holds_steers } => self.size_after(
                call_index,
                compaction_holds_steers,
            ),
            DriveStep::RunTools { calls, history } => {
                self.prepare_tool_batch(call_index, &calls);
                self.phase = TurnPhase::RunningTools(call_index);
                TurnAction::RunTools { call_index, calls, history }
            },
        }
    }

    /// Asks for the size of the context after a generation.
    fn size_after(&mut self, call_index: u32, holds_steers: bool) -> (r: TurnAction)
        ensures
            r is SizeContext,
            final(self)@ == old(self)@.at(TurnPhase::Sizing(within_turn(call_index, holds_steers))),
    {
        self.phase =
        TurnPhase::Sizing(
            CompactionPoint {
                phase: CompactionPhase::MidTurn,
                after_model_call_index: call_index,
                holds_steers,
            },
        );
        TurnAction::SizeContext
    }

    /// Goes on, or ends the turn, after a batch of tool calls was answered.
    fn conclude_batch(&mut self, call_index: u32) -> (r: TurnAction)
        ensures
            concludes(old(self)@, call_index, final(self)@, r),
    {
        match self.take_batch_selection() {
            TerminalToolSelection::Unselected => self.size_after(call_index, true),
            TerminalToolSelection::Selected(receipt) => {
                self.phase = TurnPhase::Ending;
                TurnAction::End(
                    ModelTaskOutcome::Completed(TurnCompletion::TerminalTool { receipt }),
                )
            },
            TerminalToolSelection::Ambiguous => self.give_up(
                NanocodexError::AmbiguousTerminalTools,
            ),
            TerminalToolSelection::Invalid(error) => self.give_up(
                NanocodexError::TerminalToolReceipt(error),
            ),
        }
    }

    /// Takes the end of one tool call. Outcomes enter the conversation in the
    /// model's order, and a call without one makes the turn give up once those
    /// before it were answered. Once all were, a terminal tool may end the turn.
    /// `work_duration_ns` is the time since the tool was started, and `wall_ns`
    /// that since the batch was.
    pub fn tool_ended(
        &mut self,
        position: usize,
        result: Result<CompletedToolCall, NanocodexError>,
        work_duration_ns: u64,
        wall_ns: u64,
    ) -> (r: TurnAction)
        requires
            old(self)@.phase is RunningTools,
            old(self)@.session is Some,
            position < old(self)@.active.len(),
            old(self)@.active[position as int].completion is None,
            old(self)@.active[position as int].failure is None,
            old(self)@.batch_fits(wall_ns),
            old(self)@.call_ended(position as int, result, work_duration_ns).answering_fits(),
        ensures
            ({
                let ended = old(self)@.call_ended(position as int, result, work_duration_ns);
                let answered = ended.answered_in_order();
                if answered.active.len() == 0 {
                    concludes(
                        answered.batch_closed(wall_ns),
                        old(self)@.phase->RunningTools_0,
                        final(self)@,
                        r,
                    )
                } else if answered.active[0].failure is Some {
                    gives_up(
                        answered.first_failure_taken(),
                        final(self)@,
                        r,
                        answered.active[0].failure->0,
                    )
                } else {
                    &&& final(self)@ == answered
                    &&& r == (TurnAction::AwaitTools {
                        answered: (old(self)@.active.len() - answered.active.len()) as usize,
                    })
                }
            }),
    {
        let call_index: u32 = match self.phase {
            TurnPhase::RunningTools(call_index) => call_index,
            _ => return unreached(),
        };
        match result {
            Ok(completed) => self.record_completion(position, completed, work_duration_ns),
            Err(error) => self.fail_tool_call(position, error),
        }
        let ghost ended = self@;
        let answered: usize = self.answer_finished_calls();
        proof {
            tools::lemma_answering_keeps_the_batch(ended);
        }
        if self.active_tool_calls.len() == 0 {
            self.finish_active_tool_batch_wall(wall_ns);
            return self.conclude_batch(call_index);
        }
        match self.take_first_failure() {
            Some(error) => self.give_up(error),
            None => TurnAction::AwaitTools { answered },
        }
    }

    /// Cancels the turn. A follow-on turn that is still before its message
    /// keeps the message.
    pub fn cancel(&mut self) -> (r: TurnAction)
        requires
            old(self)@.phase.cancellable(),
        ensures
            if old(self)@.phase.before_message() {
                &&& final(self)@ == old(self)@.at(TurnPhase::Keeping)
                &&& r is KeepMessage
            } else {
                &&& final(self)@ == old(self)@.at(TurnPhase::Ending)
                &&& r == TurnAction::End(ModelTaskOutcome::Cancelled)
            },
    {
        let keeps = match self.phase {
            TurnPhase::Sizing(point) => point.phase == CompactionPhase::PreTurn,
            TurnPhase::Compacting(point) => point.phase == CompactionPhase::PreTurn,
            _ => false,
        };
        if keeps {
            self.phase = TurnPhase::Keeping;
            TurnAction::KeepMessage
        } else {
            self.phase = TurnPhase::Ending;
            TurnAction::End(ModelTaskOutcome::Cancelled)
        }
    }

    /// Keeps the message of a follow-on turn that was cancelled before it.
    pub fn message_kept(&mut self, user_content: Vec<ContentItem>) -> (r: TurnAction)
        requires
            old(self)@.phase == TurnPhase::Keeping,
            old(self)@.session is Some,
            old(self)@.conversation().history.len() < usize::MAX,
        ensures
            r == TurnAction::End(ModelTaskOutcome::Cancelled),
            final(self)@.session is Some,
            final(self)@.conversation().history.len() > 0,
            turn::is_kept_user_item(
                *final(self)@.conversation().history.last(),
                user_content@,
                old(self)@.conversation(),
            ),
            final(self)@ == old(self)@.with_conversation(
                old(self)@.conversation().with_items(
                    seq![final(self)@.conversation().history.last()],
                ),
            ).at(TurnPhase::Ending),
    {
        self.cancel_follow_on(user_content);
        self.phase = TurnPhase::Ending;
        TurnAction::End(ModelTaskOutcome::Cancelled)
    }

    /// Leaves the turn at its boundary.
    fn leave(
        &mut self,
        outcome: ModelTaskOutcome,
        rates: Option<&ServicePricing>,
        known: &Vec<InterruptedCall>,
        wall_ns: u64,
        notice: Arc<ResponseItem>,
    ) -> (r: Result<ModelTurnOutcome, NanocodexError>)
        requires
            old(self)@.phase == TurnPhase::Ending,
            match outcome {
                ModelTaskOutcome::Completed(_) => true,
                ModelTaskOutcome::Cancelled => old(self)@.interruption_fits(known@, wall_ns),
                ModelTaskOutcome::Failed(_) => old(self)@.failure_fits(known@, wall_ns),
            },
        ensures
            leaves(
                old(self)@.at(TurnPhase::Reporting),
                final(self)@,
                outcome,
                r,
                known@,
                wall_ns,
                notice,
                turn::priced(rates),
            ),
    {
        self.phase = TurnPhase::Reporting;
        match outcome {
            ModelTaskOutcome::Completed(completion) => match self.finish_completed_turn(
                completion,
                rates,
            ) {
                Ok(turn) => Ok(ModelTurnOutcome::Completed(turn)),
                Err(error) => Err(error),
            },
            ModelTaskOutcome::Cancelled => match self.finish_cancelled_turn(
                known,
                wall_ns,
                notice,
            ) {
                Ok(checkpoint) => Ok(ModelTurnOutcome::Cancelled(checkpoint)),
                Err(error) => Err(error),
            },
            ModelTaskOutcome::Failed(error) => self.finish_failed_turn(
                error,
                known,
                wall_ns,
                notice,
            ),
        }
    }

    /// Leaves the turn at its boundary. `known` holds what is known of each
    /// unanswered call, and `notice` tells the model that it was interrupted.
    pub fn finish(
        &mut self,
        outcome: ModelTaskOutcome,
        rates: Option<&ServicePricing>,
        known: &Vec<InterruptedCall>,
        wall_ns: u64,
        notice: Arc<ResponseItem>,
    ) -> (r: Result<ModelTurnOutcome, NanocodexError>)
        requires
            old(self)@.phase == TurnPhase::Ending,
            match outcome {
                ModelTaskOutcome::Completed(_) => true,
                ModelTaskOutcome::Cancelled => old(self)@.interruption_fits(known@, wall_ns),
                ModelTaskOutcome::Failed(_) => old(self)@.failure_fits(known@, wall_ns),
            },
        ensures
            final(self)@.ending is Some,
            final(self)@.ending->0.describes(r),
            ({
                let before = old(self)@.at(TurnPhase::Reporting);
                let after = RunView { ending: old(self)@.ending, ..final(self)@ };
                leaves(before, after, outcome, r, known@, wall_ns, notice, turn::priced(rates))
            }),
    {
        let ended = self.leave(outcome, rates, known, wall_ns, notice);
        self.ending = Some(TurnEnding::of(&ended));
        ended
    }

    /// Ends the turn: its end is reported once its boundary was handed to
    /// durable storage. `failure` says that storage failed, and `transport`
    /// what the transport counted since the turn started.
    pub fn report(
        &mut self,
        failure: Option<&NanocodexError>,
        elapsed_ns: u64,
        transport: TransportCounts,
        rates: Option<&ServicePricing>,
    )
        requires
            old(self)@.phase == TurnPhase::Reporting,
            old(self)@.ending is Some,
        ensures
            turn::reports(
                (RunView { ending: None, ..old(self)@.at(TurnPhase::Idle) }).with_transport(
                    transport,
                ),
                final(self)@,
                old(self)@.ending->0,
                match failure {
                    Some(failure) => Some(*failure),
                    None => None,
                },
                elapsed_ns,
                turn::priced(rates),
            ),
    {
        self.phase = TurnPhase::Idle;
        let ending = self.ending.take().unwrap();
        self.report_end(ending, failure, elapsed_ns, transport, rates);
    }

    /// Starts a requested compaction in the conversation that is there, or ends
    /// it at once where it names another workspace.
    pub fn start_compact(
        &mut self,
        requested_workspace: Option<&str>,
        thinking: Thinking,
        fast_mode: bool,
        logical_turn: u64,
    ) -> (r: Option<ModelCompactOutcome>)
        requires
            old(self)@.phase == TurnPhase::Idle,
            old(self)@.session is Some,
        ensures
            ({
                let turning = old(self)@.asked_to_compact(thinking, fast_mode);
                if turning.belongs(turn::text_of(requested_workspace)) {
                    &&& r is None
                    &&& final(self)@ == turning.taken_up(logical_turn).at(
                        TurnPhase::SizingRequested,
                    )
                } else {
                    &&& final(self)@ == turning.turned_away(logical_turn)
                    &&& r matches Some(ModelCompactOutcome::Failed { error, checkpoint })
                        && turn::refuses_workspace(
                        error,
                        turning.session->0,
                        requested_workspace->0@,
                    ) && checkpoint@ == final(self)@.session->0.checkpoint(
                        false,
                        old(self)@.global_instructions,
                    )
                }
            }),
    {
        let refusal = self.begin_compact(requested_workspace, thinking, fast_mode, logical_turn);
        if refusal.is_none() {
            self.phase = TurnPhase::SizingRequested;
        }
        refusal
    }

    /// Requests the compaction that was asked for, whatever the size of the
    /// context. Models without a limit are told the whole window.
    pub fn compact_sized(
        &mut self,
        active_context_tokens: u64,
        limit: Option<u64>,
        history: Vec<Arc<ResponseItem>>,
    ) -> (r: CompactionRequest)
        requires
            old(self)@.phase == TurnPhase::SizingRequested,
            old(self)@.session is Some,
            old(self)@.stats.compactions < u32::MAX,
        ensures
            requests_compaction(r, old(self)@, old(self)@.stats.model_calls, history@),
            final(self)@ == old(self)@.compacting(
                old(self)@.stats.model_calls,
                active_context_tokens,
                match limit {
                    Some(limit) => limit,
                    None => CONTEXT_WINDOW_TOKENS,
                },
            ).at(TurnPhase::CompactingRequested),
    {
        let most: u64 = match limit {
            Some(limit) => limit,
            None => CONTEXT_WINDOW_TOKENS,
        };
        let request = self.begin_compaction(
            self.stats.model_calls,
            history,
            active_context_tokens,
            most,
        );
        self.phase = TurnPhase::CompactingRequested;
        request
    }

    /// Takes the reply to a requested compaction, and ends it. `installed` is
    /// the history that a completed one leaves.
    pub fn compact_answered(
        &mut self,
        reply: Result<ResponsesServiceResponse, NanocodexError>,
        duration_ns: u64,
        installed: Vec<Arc<ResponseItem>>,
    ) -> (r: ModelCompactOutcome)
        requires
            old(self)@.phase == TurnPhase::CompactingRequested,
            old(self)@.session is Some,
            old(self)@.stats.model_duration_ns + duration_ns <= u64::MAX,
        ensures
            ({
                let idle = old(self)@.at(TurnPhase::Idle);
                let model_calls = old(self)@.stats.model_calls;
                match reply {
                    Err(error) => {
                        let n = old(self)@.events.len() as int;
                        let failed = idle.with_stats(idle.stats.failed(duration_ns)).emitting(
                            final(self)@.events[n],
                        );
                        &&& final(self)@.events.len() == n + 1
                        &&& calls::reports_failed_compaction(
                            final(self)@.events[n],
                            model_calls,
                            duration_ns,
                            error.text(),
                        )
                        &&& final(self)@ == failed.compact_ended(
                            CompactionReply::Failed(error),
                            installed@,
                        )
                        &&& turn::ends_compact(r, CompactionReply::Failed(error), final(self)@)
                    },
                    Ok(reply) => if reply.output is Compaction {
                        let left = CompactionReply::Completed(calls::context_of(reply));
                        &&& final(self)@ == idle.compaction_answered(
                            model_calls,
                            reply,
                            duration_ns,
                        ).compact_ended(left, installed@)
                        &&& turn::ends_compact(r, left, final(self)@)
                    } else {
                        &&& r matches ModelCompactOutcome::Failed { error, checkpoint }
                            && calls::misplaced(
                            error,
                            "compaction returned a non-compaction response"@,
                        ) && final(self)@ == idle.compact_ended(
                            CompactionReply::Failed(error),
                            installed@,
                        ) && turn::ends_compact(r, CompactionReply::Failed(error), final(self)@)
                    },
                }
            }),
    {
        self.phase = TurnPhase::Idle;
        let reply = match self.finish_compaction(self.stats.model_calls, reply, duration_ns) {
            Ok(left) => CompactionReply::Completed(left),
            Err(error) => CompactionReply::Failed(error),
        };
        self.finish_compact(reply, installed)
    }

    /// Cancels a requested compaction.
    pub fn cancel_compact(&mut self) -> (r: ModelCompactOutcome)
        requires
            old(self)@.phase == TurnPhase::SizingRequested || old(self)@.phase
                == TurnPhase::CompactingRequested,
            old(self)@.session is Some,
        ensures
            final(self)@ == old(self)@.at(TurnPhase::Idle).compact_ended(
                CompactionReply::Cancelled,
                Seq::empty(),
            ),
            turn::ends_compact(r, CompactionReply::Cancelled, final(self)@),
    {
        self.phase = TurnPhase::Idle;
        self.finish_compact(CompactionReply::Cancelled, Vec::new())
    }
}

/// The turn's own message is answered before any steering message is taken in:
/// nothing on the way to the first generation lets steering in.
pub proof fn law_steering_waits_for_the_first_answer(
    run: RunView,
    execution: Option<WarmupExecution>,
    duration_ns: u64,
    response_id: Option<String>,
    server_reasoning: bool,
    logical_turn: u64,
    active_context_tokens: u64,
    limit: u64,
    reply: ResponsesServiceResponse,
    installed: Seq<Arc<ResponseItem>>,
    compacted: bool,
    update: ContextUpdate,
    context: Arc<ResponseItem>,
    developer_context: Arc<ResponseItem>,
    context_baseline: ContextBaseline,
    item: Arc<ResponseItem>,
    after: RunView,
    action: TurnAction,
)
    requires
        !run.can_drain_steers,
    ensures
        !run.taken_up(logical_turn).can_drain_steers,
        !run.warmup_answered(execution, duration_ns).can_drain_steers,
        !run.warmed_up(response_id, server_reasoning).can_drain_steers,
        !run.compacting(0, active_context_tokens, limit).can_drain_steers,
        !run.compaction_answered(0, reply, duration_ns).can_drain_steers,
        !run.installing(
            CompactionPhase::PreTurn,
            installed,
            server_reasoning,
        ).can_drain_steers,
        !run.following_on(compacted).can_drain_steers,
        !run.told_with(
            update,
            context,
            developer_context,
            context_baseline,
            item,
        ).can_drain_steers,
        resumes(run, after, action, before_turn(0), compacted) ==> action is Tell
            && !after.can_drain_steers,
        prepares(run, after, action) ==> action is Prepare && !after.can_drain_steers,
        goes_on(run, after, action) ==> action is Prepare,
{
}

/// After a compaction within a turn, the model's own continuation goes on before
/// newer steering messages are taken in. Without one they are taken in at once.
pub proof fn law_compaction_holds_steering_back(
    before: RunView,
    generation: u32,
    after: RunView,
    action: TurnAction,
)
    requires
        before.can_drain_steers,
    ensures
        resumes(before, after, action, within_turn(generation, true), true) ==> action is Prepare
            && after.phase == TurnPhase::Preparing && !after.can_drain_steers,
        resumes(before, after, action, within_turn(generation, true), false) ==> action
            is PollSteer && after.phase == TurnPhase::Steering && after.can_drain_steers,
        resumes(before, after, action, within_turn(generation, false), true) ==> action
            is PollSteer,
{
}

/// A response with tool calls leads to the tools, and to nothing else: the model
/// is asked again only after the tools ended and the size of the context was
/// taken.
pub proof fn law_tools_precede_the_next_generation(
    before: RunView,
    output: GenerationOutput,
    steers_waiting: bool,
    call_index: u32,
    after: RunView,
    action: TurnAction,
)
    requires
        proceeds(before, output, steers_waiting, call_index, after, action),
    ensures
        output.code_calls@.len() > 0 <==> action is RunTools,
        action is RunTools ==> after.phase == TurnPhase::RunningTools(call_index)
            && after.tool_batch_open,
        !(action is Generate) && !(action is Prepare) && !(action is PollSteer),
        action is SizeContext ==> after.phase is Sizing,
{
}

/// Code that a response calls always has the copy of the history that it may
/// own: no call of the batch fails for want of one.
pub proof fn law_code_owns_its_history(
    before: RunView,
    output: GenerationOutput,
    steers_waiting: bool,
    call_index: u32,
    after: RunView,
    history: Option<Arc<Vec<Arc<ResponseItem>>>>,
    calls: Vec<CodeCall>,
    at: int,
    tool: tool_calls::ToolStanding,
    plan: tool_calls::ToolPlan,
)
    requires
        proceeds(
            before,
            output,
            steers_waiting,
            call_index,
            after,
            (TurnAction::RunTools { call_index, calls, history }),
        ),
        0 <= at < calls@.len(),
        tool_calls::planned(plan, calls@[at], tool, history),
    ensures
        !(plan is Fail),
        plan is Code ==> plan->Code_0@ == before.with_response(output).history,
{
}

/// The success of a terminal tool ends the turn before the model is asked again,
/// and the next turn's first request carries everything, the tool's output
/// included.
pub proof fn law_terminal_tool_ends_the_turn(
    before: RunView,
    call_index: u32,
    after: RunView,
    action: TurnAction,
    receipt: TerminalToolReceipt,
)
    requires
        before.session is Some,
        !before.batch_failed,
        before.batch_terminal == TerminalToolSelection::Selected(receipt),
        concludes(before, call_index, after, action),
    ensures
        action matches TurnAction::End(ModelTaskOutcome::Completed(completion)) && completion.said()
            is None && after.concluded(completion).conversation().history
            == before.conversation().history && after.concluded(
            completion,
        ).conversation().previous_response_id is None && after.concluded(
            completion,
        ).conversation().delta_start == 0,
{
}

/// A failed call leaves the decision to the model: whatever the other calls of
/// its batch would have ended, the turn goes on.
pub proof fn law_failed_call_discards_terminal_intent(
    run: RunView,
    call_index: u32,
    after: RunView,
    action: TurnAction,
)
    requires
        run.first_finished(),
        !run.active[0].completion->0.success,
        run.settled().active.len() == 0,
        concludes(run.settled(), call_index, after, action),
    ensures
        run.settled().batch_failed,
        action is SizeContext,
{
}

} // verus!
