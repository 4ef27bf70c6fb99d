//! The course of a turn: how it starts, what follows each response, and what
//! its end leaves behind.
use crate::code_mode::TerminalToolReceipt;
use crate::config::Thinking;
use crate::conversation;
use crate::conversation::{
    ContextBaseline, ContinuationPolicy, ConversationState, ModelCheckpoint, RequestProfile,
};
use crate::driver::FailedTurn;
use crate::error::NanocodexError;
use crate::items::{clone_text, ContentItem, ItemKind, MessageRole, ResponseItem};
use crate::prompt::Prompt;
use crate::run;
use crate::run::calls;
use crate::run::calls::CompactedContext;
use crate::run::events::{RunCompletion, RunEvent, RunStats, TerminalStatus, TransportCounts};
use crate::run::tools;
use crate::run::tools::InterruptedCall;
use crate::run::{ActiveToolCall, ModelRun, ModelSession, ModelSessionView, RunView};
use crate::service::GenerationOutput;
use crate::session_id;
use crate::text;
use crate::text::{is_blank, same_text};
use crate::tool_calls::CodeCall;
use crate::usage;
use crate::usage::{ServicePricing, TurnUsage};
use std::sync::Arc;
use vstd::prelude::*;
use vstd::string::*;

verus! {

/// What completed a turn.
#[derive(Debug)]
pub enum TurnCompletion {
    /// A message of the model.
    Message {
        /// The message.
        final_message: String,
    },
    /// A tool whose success ends the turn.
    TerminalTool {
        /// The call that did.
        receipt: TerminalToolReceipt,
    },
}

impl TurnCompletion {
    /// What an event says of it.
    pub open spec fn summary(self) -> RunCompletion {
        match self {
            TurnCompletion::Message { .. } => RunCompletion::Message,
            TurnCompletion::TerminalTool { receipt } => RunCompletion::TerminalTool {
                call_id: receipt@.call_id,
                tool_name: receipt@.tool,
            },
        }
    }

    /// The message, if the turn ended with one.
    pub open spec fn said(self) -> Option<Seq<char>> {
        match self {
            TurnCompletion::Message { final_message } => Some(final_message@),
            TurnCompletion::TerminalTool { .. } => None,
        }
    }

    /// Returns the message, if the turn ended with one.
    pub fn final_message(&self) -> (r: Option<&str>)
        ensures
            match r {
                Some(message) => self.said() == Some(message@),
                None => self.said() is None,
            },
    {
        match self {
            TurnCompletion::Message { final_message } => Some(final_message.as_str()),
            TurnCompletion::TerminalTool { .. } => None,
        }
    }

    /// Returns what an event says of it.
    fn summarize(&self) -> (r: RunCompletion)
        ensures
            r == self.summary(),
    {
        match self {
            TurnCompletion::Message { .. } => RunCompletion::Message,
            TurnCompletion::TerminalTool { receipt } => RunCompletion::TerminalTool {
                call_id: receipt.owned_call_id(),
                tool_name: receipt.owned_tool_name(),
            },
        }
    }
}

/// How the task of a turn ended.
pub enum ModelTaskOutcome {
    /// With what completed it.
    Completed(TurnCompletion),
    /// By cancellation.
    Cancelled,
    /// By an error.
    Failed(NanocodexError),
}

/// A turn that the model completed.
pub struct CompletedModelTurn {
    /// What completed it.
    pub completion: TurnCompletion,
    /// Priced token counts.
    pub usage: TurnUsage,
    /// The boundary that the turn left.
    pub checkpoint: ModelCheckpoint,
}

/// How a turn ended.
#[allow(inconsistent_fields)]
pub enum ModelTurnOutcome {
    /// The model completed it.
    Completed(CompletedModelTurn),
    /// It was cancelled.
    Cancelled(ModelCheckpoint),
    /// It failed.
    Failed {
        /// What went wrong.
        error: NanocodexError,
        /// The boundary that the turn left.
        checkpoint: ModelCheckpoint,
    },
}

/// What came of a requested compaction.
pub enum CompactionReply {
    /// It was cancelled.
    Cancelled,
    /// It failed.
    Failed(NanocodexError),
    /// It was completed.
    Completed(CompactedContext),
}

/// How a requested compaction ended.
#[allow(inconsistent_fields)]
pub enum ModelCompactOutcome {
    /// The conversation was compacted.
    Completed(ModelCheckpoint),
    /// It was cancelled.
    Cancelled(ModelCheckpoint),
    /// It failed.
    Failed {
        /// What went wrong.
        error: NanocodexError,
        /// The boundary that was left.
        checkpoint: ModelCheckpoint,
    },
}

/// How a task begins.
pub enum TaskStart {
    /// A conversation has to be opened.
    Fresh,
    /// The conversation goes on.
    FollowOn,
    /// The task does not belong to the conversation.
    Refused(NanocodexError),
}

/// What changed in the environment since the model was last told of it.
pub enum ContextUpdate {
    /// Nothing.
    Unchanged,
    /// Something that one item states.
    Partial(Arc<ResponseItem>),
    /// It has to be stated in full.
    Full(Arc<ResponseItem>),
}

/// What follows a response.
pub enum DriveStep {
    /// Compact the conversation if it has to be, and go on. Where a compaction
    /// holds steering back, the model goes on first.
    Continue {
        /// Whether a compaction holds steering back.
        compaction_holds_steers: bool,
    },
    /// Run tools, compact the conversation if it has to be, and go on.
    RunTools {
        /// The calls in the model's order.
        calls: Vec<CodeCall>,
        /// A copy of the history, where code may own one.
        history: Option<Arc<Vec<Arc<ResponseItem>>>>,
    },
    /// The turn is complete.
    Completed(String),
    /// The turn cannot go on.
    Failed(NanocodexError),
}

/// What a completed turn without text says.
pub const NO_TEXT_MESSAGE: &'static str = "The model completed without emitting assistant text.";

/// Whether any call runs code.
pub open spec fn any_exec(calls: Seq<CodeCall>) -> bool {
    exists|i: int| 0 <= i < calls.len() && (#[trigger] calls[i]).name@ == "exec"@
}

/// Returns whether any call runs code.
fn has_exec(calls: &Vec<CodeCall>) -> (r: bool)
    ensures
        r == any_exec(calls@),
{
    let mut i: usize = 0;
    while i < calls.len()
        invariant
            i <= calls@.len(),
            forall|j: int| 0 <= j < i ==> (#[trigger] calls@[j]).name@ != "exec"@,
        decreases calls@.len() - i,
    {
        if same_text(calls[i].name.as_str(), "exec") {
            proof {
                assert(calls@[i as int].name@ == "exec"@);
            }
            return true;
        }
        i = i + 1;
    }
    false
}

/// Whether an item is a user message with given content.
pub open spec fn is_user_item(item: ResponseItem, content: Seq<ContentItem>) -> bool {
    item matches ResponseItem::Message { role, content: parts, .. } && role == MessageRole::User
        && parts@ == content
}

/// Whether an item is a user message with given content, as a conversation
/// keeps it behind what it holds.
pub open spec fn is_kept_user_item(
    item: ResponseItem,
    content: Seq<ContentItem>,
    conversation: conversation::ConversationView,
) -> bool {
    &&& is_user_item(item, content)
    &&& item.identity() == Some(conversation.next_identity(ItemKind::Message))
}

/// Makes a user message.
fn user_item(content: Vec<ContentItem>) -> (r: Arc<ResponseItem>)
    ensures
        is_user_item(*r, content@),
        r.identity() is None,
{
    Arc::new(ResponseItem::message(MessageRole::User, content))
}

/// Whether a run ended early: the error is reported, and then the end.
pub open spec fn ends_early(
    before: RunView,
    after: RunView,
    status: TerminalStatus,
    reason: Seq<char>,
    elapsed_ns: u64,
    rates: Option<ServicePricing>,
) -> bool {
    let n = before.events.len() as int;
    &&& after.events.len() == n + 2
    &&& run::reports_error(after.events[n], reason)
    &&& before.reports_end(after.events[n + 1], status, None, elapsed_ns, rates)
    &&& after == before.emitting(after.events[n]).emitting(after.events[n + 1])
}

/// Whether a turn failed before it started: its start, why it failed, and its
/// end are reported.
pub open spec fn fails_unstarted(
    before: RunView,
    after: RunView,
    turn: FailedTurn,
    workspace: Option<String>,
    reason: Seq<char>,
    elapsed_ns: u64,
    rates: Option<ServicePricing>,
) -> bool {
    ends_early(
        before.begun(turn.prompt, workspace, turn.thinking, turn.fast_mode),
        after,
        TerminalStatus::Failed,
        reason,
        elapsed_ns,
        rates,
    )
}

/// Whether turns were given up before they started: each one fails in its
/// order.
pub open spec fn gives_up(
    before: RunView,
    after: RunView,
    turns: Seq<FailedTurn>,
    workspace: Option<String>,
    reason: Seq<char>,
    elapsed_ns: u64,
    rates: Option<ServicePricing>,
) -> bool
    decreases turns.len(),
{
    if turns.len() == 0 {
        after == before
    } else {
        exists|middle: RunView|
            {
                &&& #[trigger] fails_unstarted(
                    middle,
                    after,
                    turns.last(),
                    workspace,
                    reason,
                    elapsed_ns,
                    rates,
                )
                &&& gives_up(
                    before,
                    middle,
                    turns.drop_last(),
                    workspace,
                    reason,
                    elapsed_ns,
                    rates,
                )
            }
    }
}

/// Whether three events report a turn that was given up before it started: its
/// start, why it failed, and its end.
pub open spec fn reports_given_up(
    events: Seq<RunEvent>,
    at: int,
    turn: FailedTurn,
    workspace: Option<String>,
    reason: Seq<char>,
    took_ns: u64,
) -> bool {
    &&& (events[at] matches RunEvent::RunStarted { effort, workspace: stated, .. } && effort
        == turn.thinking && stated == workspace)
    &&& run::reports_error(events[at + 1], reason)
    &&& (events[at + 2] matches RunEvent::RunEnded { status, elapsed_ns, effort, completion, .. }
        && status == TerminalStatus::Failed && elapsed_ns == took_ns && effort == turn.thinking
        && completion is None)
}

/// Each turn that was given up is reported by three events of its own, in the
/// order of the turns, and its only end says that it failed; the conversation
/// and what the run has still to do stay.
pub proof fn law_given_up_turns_fail_once(
    before: RunView,
    after: RunView,
    turns: Seq<FailedTurn>,
    workspace: Option<String>,
    reason: Seq<char>,
    elapsed_ns: u64,
    rates: Option<ServicePricing>,
)
    requires
        gives_up(before, after, turns, workspace, reason, elapsed_ns, rates),
    ensures
        after.events.len() == before.events.len() + 3 * turns.len(),
        after.events.take(before.events.len() as int) == before.events,
        forall|i: int|
            0 <= i < turns.len() ==> reports_given_up(
                after.events,
                before.events.len() + 3 * i,
                #[trigger] turns[i],
                workspace,
                reason,
                elapsed_ns,
            ),
        after.session == before.session,
        after.phase == before.phase,
        after.force_compaction == before.force_compaction,
    decreases turns.len(),
{
    if turns.len() == 0 {
        assert(after.events.take(before.events.len() as int) =~= before.events);
    } else {
        let middle = choose|middle: RunView|
            {
                &&& #[trigger] fails_unstarted(
                    middle,
                    after,
                    turns.last(),
                    workspace,
                    reason,
                    elapsed_ns,
                    rates,
                )
                &&& gives_up(
                    before,
                    middle,
                    turns.drop_last(),
                    workspace,
                    reason,
                    elapsed_ns,
                    rates,
                )
            };
        law_given_up_turns_fail_once(
            before,
            middle,
            turns.drop_last(),
            workspace,
            reason,
            elapsed_ns,
            rates,
        );
        assert forall|k: int| 0 <= k < middle.events.len() implies #[trigger] after.events[k]
            == middle.events[k] by {}
        assert(after.events.take(before.events.len() as int) =~= before.events);
        assert forall|i: int| 0 <= i < turns.len() implies reports_given_up(
            after.events,
            before.events.len() + 3 * i,
            #[trigger] turns[i],
            workspace,
            reason,
            elapsed_ns,
        ) by {
            if i < turns.len() - 1 {
                assert(turns[i] == turns.drop_last()[i]);
            }
        }
    }
}

/// Whether calls were interrupted in a run that had no conversation to answer
/// them in.
pub open spec fn orphaned(
    before: RunView,
    after: RunView,
    known: Seq<InterruptedCall>,
    wall_ns: u64,
) -> bool {
    let events = after.events.skip(before.events.len() as int);
    &&& exists|items: Seq<Arc<ResponseItem>>|
        #[trigger] tools::interrupts(before.active, known, items, events)
    &&& after == before.calls_interrupted(known, events).batch_closed(wall_ns)
}

/// Whether a step is the one that follows a response: tool calls are run;
/// without any, the turn goes on when the model asked for it or steering
/// messages wait, and is complete otherwise.
pub open spec fn follows(
    step: DriveStep,
    before: RunView,
    output: GenerationOutput,
    steers_waiting: bool,
) -> bool {
    if output.code_calls@.len() > 0 {
        step matches DriveStep::RunTools { calls, history } && calls == output.code_calls
            && owns_history(history, calls@, before.with_response(output).history)
    } else if output.end_turn == Some(false) {
        step == (DriveStep::Continue { compaction_holds_steers: true })
    } else if steers_waiting {
        step == (DriveStep::Continue { compaction_holds_steers: false })
    } else {
        match output.final_message {
            Some(message) => step matches DriveStep::Completed(text) && final_text(message, text),
            None => step matches DriveStep::Failed(NanocodexError::MalformedResponse { detail })
                && detail@ == "model completed without a final message or exec call"@,
        }
    }
}

/// Whether a text is what a completed turn says: the model's message, unless it
/// is blank.
pub open spec fn final_text(message: String, text: String) -> bool {
    if text::blank(message@) {
        text@ == NO_TEXT_MESSAGE@
    } else {
        text == message
    }
}

/// Whether a copy of the history is there exactly where a call runs code.
pub open spec fn owns_history(
    owned: Option<Arc<Vec<Arc<ResponseItem>>>>,
    calls: Seq<CodeCall>,
    history: Seq<Arc<ResponseItem>>,
) -> bool {
    match owned {
        Some(owned) => any_exec(calls) && owned@ == history,
        None => !any_exec(calls),
    }
}

/// Whether an outcome is that of a requested compaction with a given reply: the
/// boundary is the one that the run is left at.
pub open spec fn ends_compact(
    outcome: ModelCompactOutcome,
    reply: CompactionReply,
    after: RunView,
) -> bool {
    let left = after.session->0.checkpoint(false, after.global_instructions);
    match reply {
        CompactionReply::Cancelled => outcome matches ModelCompactOutcome::Cancelled(checkpoint)
            && checkpoint@ == left,
        CompactionReply::Failed(error) => outcome matches ModelCompactOutcome::Failed {
            error: cause,
            checkpoint,
        } && cause == error && checkpoint@ == left,
        CompactionReply::Completed(_) => outcome matches ModelCompactOutcome::Completed(checkpoint)
            && checkpoint@ == left,
    }
}

/// The text of a workspace that was asked for, if any.
pub open spec fn text_of(requested: Option<&str>) -> Option<Seq<char>> {
    match requested {
        Some(requested) => Some(requested@),
        None => None,
    }
}

/// Whether an error says that a task names another workspace than the
/// conversation's own.
pub open spec fn refuses_workspace(
    error: NanocodexError,
    session: ModelSessionView,
    asked: Seq<char>,
) -> bool {
    error matches NanocodexError::WorkspaceChanged { current, requested } && current
        == session.workspace && requested@ == asked
}

/// Rates that were handed over, if any.
pub open spec fn priced(rates: Option<&ServicePricing>) -> Option<ServicePricing> {
    match rates {
        Some(rates) => Some(*rates),
        None => None,
    }
}

/// Whether a run left a turn that was completed. One that ended with a message
/// has to have an answered request to go on from.
pub open spec fn ends_completed(
    before: RunView,
    after: RunView,
    result: Result<CompletedModelTurn, NanocodexError>,
    completion: TurnCompletion,
    rates: Option<ServicePricing>,
) -> bool {
    match result {
        Ok(turn) => {
            &&& before.session is Some
            &&& completion is Message ==> before.conversation().previous_response_id is Some
            &&& after == before.concluded(completion)
            &&& turn.completion == completion
            &&& turn.usage@ == before.turn_usage(rates)
            &&& turn.checkpoint@ == after.session->0.checkpoint(false, after.global_instructions)
        },
        Err(error) => {
            &&& after == before
            &&& match before.session {
                None => calls::misplaced(error, "completed turn did not have a model session"@),
                Some(session) => completion is Message
                    && session.conversation.previous_response_id is None && (error matches
                    NanocodexError::MalformedResponse { detail } && detail@
                    == "completed turn did not have a response ID"@),
            }
        },
    }
}

/// The completed turn of an outcome.
pub open spec fn completed_turn(outcome: Result<ModelTurnOutcome, NanocodexError>) -> Result<
    CompletedModelTurn,
    NanocodexError,
> {
    match outcome {
        Ok(ended) => Ok(ended->Completed_0),
        Err(error) => Err(error),
    }
}

/// The boundary of a cancelled turn.
pub open spec fn cancelled_turn(outcome: Result<ModelTurnOutcome, NanocodexError>) -> Result<
    ModelCheckpoint,
    NanocodexError,
> {
    match outcome {
        Ok(ended) => Ok(ended->Cancelled_0),
        Err(error) => Err(error),
    }
}

/// Whether a run left a turn that was cancelled: its unanswered calls are
/// answered as interrupted.
pub open spec fn ends_cancelled(
    before: RunView,
    after: RunView,
    result: Result<ModelCheckpoint, NanocodexError>,
    known: Seq<InterruptedCall>,
    wall_ns: u64,
    notice: Arc<ResponseItem>,
) -> bool {
    match result {
        Ok(checkpoint) => {
            &&& before.session is Some
            &&& cut_short(before, after, known, wall_ns, notice)
            &&& checkpoint@ == after.session->0.checkpoint(false, after.global_instructions)
        },
        Err(error) => {
            &&& before.session is None
            &&& calls::misplaced(error, "interrupted turn did not have a model session"@)
            &&& orphaned(before, after, known, wall_ns)
        },
    }
}

/// Whether a run answered its unanswered calls as interrupted, and told the
/// model so.
pub open spec fn cut_short(
    before: RunView,
    after: RunView,
    known: Seq<InterruptedCall>,
    wall_ns: u64,
    notice: Arc<ResponseItem>,
) -> bool {
    exists|items: Seq<Arc<ResponseItem>>, events: Seq<RunEvent>|
        #[trigger] tools::interrupts(before.active, known, items, events) && after
            == before.interrupted(known, wall_ns, items, events, notice)
}

/// Whether a run left a turn that failed.
///
/// Without unanswered calls the conversation keeps what it holds and gives up
/// its continuation. Otherwise the calls are answered as after a cancellation.
/// Without a conversation there is no boundary, and the error is handed back.
pub open spec fn ends_failed(
    before: RunView,
    after: RunView,
    result: Result<ModelTurnOutcome, NanocodexError>,
    error: NanocodexError,
    known: Seq<InterruptedCall>,
    wall_ns: u64,
    notice: Arc<ResponseItem>,
) -> bool {
    let noted = before.noting(error);
    let bounded = result matches Ok(ModelTurnOutcome::Failed { error: cause, checkpoint }) && cause
        == error && checkpoint@ == after.session->0.checkpoint(false, after.global_instructions);
    if before.active.len() == 0 {
        &&& after == noted.failed_quietly(wall_ns)
        &&& match before.session {
            Some(_) => bounded,
            None => result == Err::<ModelTurnOutcome, NanocodexError>(error),
        }
    } else {
        match before.session {
            Some(_) => cut_short(noted, after, known, wall_ns, notice) && bounded,
            None => {
                &&& result is Err
                &&& calls::misplaced(
                    result->Err_0,
                    "interrupted turn did not have a model session"@,
                )
                &&& orphaned(noted, after, known, wall_ns)
            },
        }
    }
}

/// How a turn ended, before it is known whether its boundary was persisted.
pub struct TurnEnding {
    /// How it ended.
    pub status: TerminalStatus,
    /// What ended it early, if anything did.
    pub reason: Option<String>,
    /// What completed it, if it was completed.
    pub completion: Option<RunCompletion>,
}

impl TurnEnding {
    /// Whether an ending is that of an outcome.
    pub open spec fn describes(self, ended: Result<ModelTurnOutcome, NanocodexError>) -> bool {
        match ended {
            Ok(ModelTurnOutcome::Completed(turn)) => {
                &&& self.status == TerminalStatus::Completed
                &&& self.reason is None
                &&& self.completion == Some(turn.completion.summary())
            },
            Ok(ModelTurnOutcome::Cancelled(_)) => {
                &&& self.status == TerminalStatus::Cancelled
                &&& self.reason is Some
                &&& self.reason->0@ == NanocodexError::TurnCancelled.text()
                &&& self.completion is None
            },
            Ok(ModelTurnOutcome::Failed { error, .. }) => {
                &&& self.status == TerminalStatus::Failed
                &&& self.reason is Some
                &&& self.reason->0@ == error.text()
                &&& self.completion is None
            },
            Err(error) => {
                &&& self.status == TerminalStatus::Failed
                &&& self.reason is Some
                &&& self.reason->0@ == error.text()
                &&& self.completion is None
            },
        }
    }

    /// Returns the ending of an outcome.
    pub fn of(ended: &Result<ModelTurnOutcome, NanocodexError>) -> (r: Self)
        ensures
            r.describes(*ended),
    {
        match ended {
            Ok(ModelTurnOutcome::Completed(turn)) => TurnEnding {
                status: TerminalStatus::Completed,
                reason: None,
                completion: Some(turn.completion.summarize()),
            },
            Ok(ModelTurnOutcome::Cancelled(_)) => TurnEnding {
                status: TerminalStatus::Cancelled,
                reason: Some(NanocodexError::TurnCancelled.message()),
                completion: None,
            },
            Ok(ModelTurnOutcome::Failed { error, .. }) => TurnEnding {
                status: TerminalStatus::Failed,
                reason: Some(error.message()),
                completion: None,
            },
            Err(error) => TurnEnding {
                status: TerminalStatus::Failed,
                reason: Some(error.message()),
                completion: None,
            },
        }
    }
}

/// Whether a run reported the end of a turn: what ended it early, if anything,
/// and then the end. A failure to persist is what ended the turn, whatever its
/// own ending was.
pub open spec fn reports(
    before: RunView,
    after: RunView,
    ending: TurnEnding,
    failure: Option<NanocodexError>,
    elapsed_ns: u64,
    rates: Option<ServicePricing>,
) -> bool {
    match failure {
        Some(failure) => ends_early(
            before,
            after,
            TerminalStatus::Failed,
            failure.text(),
            elapsed_ns,
            rates,
        ),
        None => match ending.reason {
            Some(reason) => ends_early(
                before,
                after,
                ending.status,
                reason@,
                elapsed_ns,
                rates,
            ),
            None => {
                &&& after.events.len() == before.events.len() + 1
                &&& after == before.emitting(after.events.last())
                &&& before.reports_end(
                    after.events.last(),
                    ending.status,
                    ending.completion,
                    elapsed_ns,
                    rates,
                )
            },
        },
    }
}

/// Whether the provider said that the context does not fit its window.
pub open spec fn overflowed(error: NanocodexError) -> bool {
    error.transport_error() is Some && error.transport_error()->0 is ContextWindowExceeded
}

impl RunView {
    /// The run after an error was noted: exhausted context asks for a
    /// compaction before the next attempt.
    pub open spec fn noting(self, error: NanocodexError) -> RunView {
        RunView { force_compaction: self.force_compaction || overflowed(error), ..self }
    }

    /// The run after a failed turn without unanswered calls: the conversation
    /// keeps its items and gives up its continuation.
    pub open spec fn failed_quietly(self, wall_ns: u64) -> RunView {
        let closed = self.batch_closed(wall_ns);
        match closed.session {
            Some(session) => RunView {
                session: Some(
                    ModelSessionView {
                        conversation: session.conversation.replayed(),
                        preserve_inherited_delta: false,
                        ..session
                    },
                ),
                ..closed
            },
            None => closed,
        }
    }

    /// Whether the end of a failed turn can be accounted for.
    pub open spec fn failure_fits(self, known: Seq<InterruptedCall>, wall_ns: u64) -> bool {
        if self.active.len() == 0 {
            self.batch_fits(wall_ns)
        } else {
            self.interruption_fits(known, wall_ns)
        }
    }

    /// The run after a turn was completed. The provider has not seen the output
    /// of a tool that ended the turn, so that the next request carries
    /// everything.
    pub open spec fn concluded(self, completion: TurnCompletion) -> RunView {
        let session = self.session->0;
        match completion {
            TurnCompletion::Message { .. } => self,
            TurnCompletion::TerminalTool { .. } => RunView {
                session: Some(
                    ModelSessionView {
                        conversation: session.conversation.replayed(),
                        preserve_inherited_delta: false,
                        ..session
                    },
                ),
                ..self
            },
        }
    }

    /// The run after the conversation of a first turn was opened.
    pub open spec fn opened(
        self,
        workspace: String,
        profile: RequestProfile,
        logical_turn: u64,
        history: Seq<Arc<ResponseItem>>,
        context_snapshot: Arc<ResponseItem>,
        context_baseline: ContextBaseline,
        item_seed: String,
    ) -> RunView {
        RunView {
            has_tools: true,
            session: Some(
                ModelSessionView {
                    workspace,
                    profile,
                    logical_turn,
                    conversation: conversation::ConversationView::started(
                        conversation::first_user_message(history)->0,
                        history,
                        item_seed,
                    ).under_policy(self.policy()),
                    context_baseline,
                    context_snapshot: Some(context_snapshot),
                    reinject_context: false,
                    preserve_inherited_delta: false,
                },
            ),
            ..self
        }
    }

    /// The run after the task of a turn was started in the conversation that is
    /// there.
    pub open spec fn taken_up(self, logical_turn: u64) -> RunView {
        let session = self.session->0;
        RunView {
            session: Some(
                ModelSessionView {
                    logical_turn,
                    conversation: session.conversation.under_policy(self.policy()),
                    ..session
                },
            ),
            ..self
        }
    }

    /// The run after a task was refused in the conversation that is there.
    pub open spec fn turned_away(self, logical_turn: u64) -> RunView {
        RunView {
            session: Some(ModelSessionView { logical_turn, ..self.session->0 }),
            ..self
        }
    }

    /// Whether a task belongs to the conversation that is there.
    pub open spec fn belongs(self, requested_workspace: Option<Seq<char>>) -> bool {
        requested_workspace is None || requested_workspace->0 == self.session->0.workspace@
    }

    /// The run at the start of a requested compaction.
    pub open spec fn asked_to_compact(self, thinking: Thinking, fast_mode: bool) -> RunView {
        RunView { can_drain_steers: self.can_drain_steers, ..self.turning(thinking, fast_mode) }
    }

    /// The run after a requested compaction. A cancelled or failed one keeps
    /// the history and gives up the continuation.
    pub open spec fn compact_ended(
        self,
        reply: CompactionReply,
        installed: Seq<Arc<ResponseItem>>,
    ) -> RunView {
        let session = self.session->0;
        match reply {
            CompactionReply::Completed(compacted) => RunView {
                session: Some(
                    ModelSessionView {
                        conversation: session.conversation.hearing(
                            compacted.server_reasoning_included,
                        ).replaced(installed),
                        reinject_context: true,
                        preserve_inherited_delta: false,
                        ..session
                    },
                ),
                force_compaction: false,
                ..self
            },
            _ => self.with_conversation(session.conversation.replayed()),
        }
    }

    /// The run after the message of a follow-on turn was added.
    pub open spec fn told_with(
        self,
        update: ContextUpdate,
        canonical_context: Arc<ResponseItem>,
        developer_context: Arc<ResponseItem>,
        context_baseline: ContextBaseline,
        item: Arc<ResponseItem>,
    ) -> RunView {
        RunView {
            session: Some(
                ModelSessionView {
                    conversation: self.told(
                        update,
                        canonical_context,
                        developer_context,
                    ).with_items(seq![item]),
                    context_baseline,
                    context_snapshot: Some(canonical_context),
                    reinject_context: false,
                    ..self.session->0
                },
            ),
            ..self
        }
    }

    /// The run after a response was taken in.
    pub open spec fn responded(self, output: GenerationOutput, steers_waiting: bool) -> RunView {
        let conversation = self.with_response(output);
        let goes_on = output.code_calls@.len() > 0 || output.end_turn == Some(false)
            || steers_waiting;
        RunView {
            can_drain_steers: true,
            ..self.with_conversation(
                if goes_on {
                    conversation.without_delta()
                } else {
                    conversation
                },
            )
        }
    }

    /// The conversation after a response.
    pub open spec fn with_response(self, output: GenerationOutput) -> conversation::ConversationView {
        conversation::ConversationView {
            previous_response_id: Some(output.id),
            ..self.conversation()
        }.with_items(output.output_items@)
    }

    /// The run at the start of a follow-on turn, once it is settled whether the
    /// conversation was compacted.
    pub open spec fn following_on(self, compacted: bool) -> RunView {
        let session = self.session->0;
        RunView {
            session: Some(
                ModelSessionView {
                    conversation: if compacted || session.preserve_inherited_delta {
                        session.conversation
                    } else {
                        session.conversation.without_delta()
                    },
                    preserve_inherited_delta: false,
                    reinject_context: session.reinject_context || compacted,
                    ..session
                },
            ),
            ..self
        }
    }

    /// The conversation after the environment was stated as far as it has to
    /// be.
    pub open spec fn told(
        self,
        update: ContextUpdate,
        canonical_context: Arc<ResponseItem>,
        developer_context: Arc<ResponseItem>,
    ) -> conversation::ConversationView {
        let conversation = self.conversation();
        match update {
            ContextUpdate::Unchanged => conversation::ConversationView {
                canonical_context,
                ..conversation
            },
            ContextUpdate::Partial(item) => conversation::ConversationView {
                canonical_context,
                ..conversation.with_items(seq![item])
            },
            ContextUpdate::Full(item) => conversation::ConversationView {
                canonical_context: item,
                ..conversation.with_items(seq![developer_context, item])
            },
        }
    }
}

impl ModelRun {
    /// Reports a turn that was cancelled before it started.
    pub fn emit_cancelled_before_start(
        &mut self,
        task: &Prompt,
        workspace: Option<String>,
        thinking: Thinking,
        fast_mode: bool,
        elapsed_ns: u64,
        rates: Option<&ServicePricing>,
    )
        requires
            task.instruction.bytes() <= usize::MAX,
        ensures
            ends_early(
                old(self)@.begun(*task, workspace, thinking, fast_mode),
                final(self)@,
                TerminalStatus::Cancelled,
                NanocodexError::TurnCancelled.text(),
                elapsed_ns,
                priced(rates),
            ),
    {
        self.begin_turn(task, workspace, thinking, fast_mode);
        let message = NanocodexError::TurnCancelled.message();
        self.end_early(TerminalStatus::Cancelled, message, elapsed_ns, rates);
    }

    /// Reports a turn that failed before it started: the agent stopped.
    pub fn emit_failed_before_start(
        &mut self,
        task: &Prompt,
        workspace: Option<String>,
        thinking: Thinking,
        fast_mode: bool,
        error: &NanocodexError,
        elapsed_ns: u64,
        rates: Option<&ServicePricing>,
    )
        requires
            task.instruction.bytes() <= usize::MAX,
        ensures
            ends_early(
                old(self)@.begun(*task, workspace, thinking, fast_mode),
                final(self)@,
                TerminalStatus::Failed,
                error.text(),
                elapsed_ns,
                priced(rates),
            ),
    {
        self.begin_turn(task, workspace, thinking, fast_mode);
        let message = error.message();
        self.end_early(TerminalStatus::Failed, message, elapsed_ns, rates);
    }

    /// Reports the turns that a failure to persist gave up before they started,
    /// each as failed, in their order.
    pub fn emit_given_up(
        &mut self,
        turns: &Vec<FailedTurn>,
        workspace: &Option<String>,
        error: &NanocodexError,
        elapsed_ns: u64,
        rates: Option<&ServicePricing>,
    )
        requires
            forall|i: int|
                0 <= i < turns@.len() ==> (#[trigger] turns@[i]).prompt.instruction.bytes()
                    <= usize::MAX,
        ensures
            gives_up(
                old(self)@,
                final(self)@,
                turns@,
                *workspace,
                error.text(),
                elapsed_ns,
                priced(rates),
            ),
    {
        let ghost before = self@;
        proof {
            assert(turns@.take(0) =~= Seq::empty());
        }
        let mut i: usize = 0;
        while i < turns.len()
            invariant
                i <= turns@.len(),
                forall|j: int|
                    0 <= j < turns@.len() ==> (#[trigger] turns@[j]).prompt.instruction.bytes()
                        <= usize::MAX,
                gives_up(
                    before,
                    self@,
                    turns@.take(i as int),
                    *workspace,
                    error.text(),
                    elapsed_ns,
                    priced(rates),
                ),
            decreases turns@.len() - i,
        {
            let ghost middle = self@;
            self.emit_failed_before_start(
                &turns[i].prompt,
                clone_text(workspace),
                turns[i].thinking,
                turns[i].fast_mode,
                error,
                elapsed_ns,
                rates,
            );
            proof {
                assert(turns@.take(i as int + 1).drop_last() =~= turns@.take(i as int));
                assert(turns@.take(i as int + 1).last() == turns@[i as int]);
                assert(fails_unstarted(
                    middle,
                    self@,
                    turns@[i as int],
                    *workspace,
                    error.text(),
                    elapsed_ns,
                    priced(rates),
                ));
            }
            i = i + 1;
        }
        proof {
            assert(turns@.take(turns@.len() as int) =~= turns@);
        }
    }

    /// Reports the end of a turn.
    fn push_end(
        &mut self,
        status: TerminalStatus,
        completion: Option<RunCompletion>,
        elapsed_ns: u64,
        rates: Option<&ServicePricing>,
    )
        ensures
            final(self)@.events.len() == old(self)@.events.len() + 1,
            final(self)@ == old(self)@.emitting(final(self)@.events.last()),
            old(self)@.reports_end(
                final(self)@.events.last(),
                status,
                completion,
                elapsed_ns,
                priced(rates),
            ),
    {
        let usage = self.turn_usage(rates);
        let stats = self.stats.clone();
        self.events.push(
            RunEvent::RunEnded {
                status,
                elapsed_ns,
                effort: self.thinking,
                stats,
                usage,
                completion,
            },
        );
    }

    /// Reports what ended a turn early, and the end.
    fn end_early(
        &mut self,
        status: TerminalStatus,
        message: String,
        elapsed_ns: u64,
        rates: Option<&ServicePricing>,
    )
        ensures
            ends_early(old(self)@, final(self)@, status, message@, elapsed_ns, priced(rates)),
    {
        self.events.push(RunEvent::RunError { message });
        self.push_end(status, None, elapsed_ns, rates);
    }

    /// Starts the task of a turn in the conversation that is there, if any.
    pub fn start_task(&mut self, requested_workspace: Option<&str>, logical_turn: u64) -> (r:
        TaskStart)
        ensures
            match old(self)@.session {
                None => r is Fresh && final(self)@ == old(self)@,
                Some(session) => if old(self)@.belongs(text_of(requested_workspace)) {
                    &&& r is FollowOn
                    &&& final(self)@ == old(self)@.taken_up(logical_turn)
                } else {
                    &&& r matches TaskStart::Refused(error) && refuses_workspace(
                        error,
                        session,
                        requested_workspace->0@,
                    )
                    &&& final(self)@ == old(self)@.turned_away(logical_turn)
                },
            },
    {
        let mut session = match self.session.take() {
            None => return TaskStart::Fresh,
            Some(session) => session,
        };
        session.logical_turn = logical_turn;
        let refusal = session.validate_workspace(requested_workspace);
        if let Some(error) = refusal {
            self.session = Some(session);
            return TaskStart::Refused(error);
        }
        let policy = ContinuationPolicy { thinking: self.thinking, fast_mode: self.fast_mode };
        session.conversation.prepare_request_policy(policy);
        self.session = Some(session);
        TaskStart::FollowOn
    }

    /// Opens the conversation of a first turn, and returns the boundary that
    /// branches may start from before the first response. `context_snapshot`
    /// states the environment in full.
    pub fn open_session(
        &mut self,
        workspace: String,
        profile: RequestProfile,
        logical_turn: u64,
        history: Vec<Arc<ResponseItem>>,
        context_snapshot: Arc<ResponseItem>,
        context_baseline: ContextBaseline,
    ) -> (r: Result<ModelCheckpoint, NanocodexError>)
        ensures
            match r {
                Ok(checkpoint) => {
                    &&& conversation::first_user_message(history@) is Some
                    &&& final(self)@ == old(self)@.opened(
                        workspace,
                        profile,
                        logical_turn,
                        history@,
                        context_snapshot,
                        context_baseline,
                        final(self)@.conversation().item_seed,
                    )
                    &&& session_id::names_session(final(self)@.conversation().item_seed@)
                    &&& checkpoint@ == final(self)@.session->0.checkpoint(
                        true,
                        final(self)@.global_instructions,
                    )
                },
                Err(error) => {
                    &&& conversation::first_user_message(history@) is None
                    &&& error matches NanocodexError::MalformedResponse { detail } && detail@
                        == "task input did not include initial context"@
                    &&& final(self)@ == (RunView { has_tools: true, ..old(self)@ })
                },
            },
    {
        self.has_tools = true;
        let mut conversation = match ConversationState::new(history) {
            Ok(conversation) => conversation,
            Err(error) => return Err(error),
        };
        let policy = ContinuationPolicy { thinking: self.thinking, fast_mode: self.fast_mode };
        conversation.prepare_request_policy(policy);
        let session = ModelSession {
            workspace,
            profile,
            logical_turn,
            conversation,
            context_baseline,
            context_snapshot: Some(context_snapshot),
            reinject_context: false,
            preserve_inherited_delta: false,
        };
        let checkpoint = session.checkpoint(true, &self.global_instructions);
        self.session = Some(session);
        Ok(checkpoint)
    }

    /// Opens a conversation without items, for a compaction before any turn.
    pub fn open_empty_session(
        &mut self,
        workspace: String,
        profile: RequestProfile,
        canonical_context: Arc<ResponseItem>,
    )
        ensures
            final(self)@ == (RunView {
                has_tools: true,
                session: Some(
                    ModelSessionView {
                        workspace,
                        profile,
                        logical_turn: 0,
                        conversation: conversation::ConversationView::started(
                            canonical_context,
                            Seq::empty(),
                            final(self)@.conversation().item_seed,
                        ),
                        context_baseline: ContextBaseline::Missing,
                        context_snapshot: None,
                        reinject_context: false,
                        preserve_inherited_delta: false,
                    },
                ),
                ..old(self)@
            }),
            session_id::names_session(final(self)@.conversation().item_seed@),
    {
        self.has_tools = true;
        self.session =
        Some(
            ModelSession {
                workspace,
                profile,
                logical_turn: 0,
                conversation: ConversationState::empty(canonical_context),
                context_baseline: ContextBaseline::Missing,
                context_snapshot: None,
                reinject_context: false,
                preserve_inherited_delta: false,
            },
        );
    }

    /// Keeps the message of a follow-on turn that was cancelled while the
    /// conversation was being compacted.
    pub fn cancel_follow_on(&mut self, user_content: Vec<ContentItem>)
        requires
            old(self)@.session is Some,
            old(self)@.conversation().history.len() < usize::MAX,
        ensures
            final(self)@.session is Some,
            final(self)@.conversation().history.len() > 0,
            is_kept_user_item(
                *final(self)@.conversation().history.last(),
                user_content@,
                old(self)@.conversation(),
            ),
            final(self)@ == old(self)@.with_conversation(
                old(self)@.conversation().with_items(
                    seq![final(self)@.conversation().history.last()],
                ),
            ),
    {
        let item = user_item(user_content);
        let mut session = self.session.take().unwrap();
        session.conversation.append_one(item);
        self.session = Some(session);
        proof {
            conversation::lemma_kept_item(old(self)@.conversation(), item);
        }
    }

    /// Starts a follow-on turn, once it is settled whether the conversation was
    /// compacted. A compacted conversation states the environment in full
    /// again; an inherited delta is still owed to the provider.
    pub fn begin_follow_on(&mut self, compacted: bool)
        requires
            old(self)@.session is Some,
        ensures
            final(self)@ == old(self)@.following_on(compacted),
    {
        let mut session = self.session.take().unwrap();
        if !compacted && !session.preserve_inherited_delta {
            session.conversation.clear_delta();
        }
        session.preserve_inherited_delta = false;
        if compacted {
            session.reinject_context = true;
        }
        self.session = Some(session);
    }

    /// States the environment as far as it has to be, and adds the message of a
    /// follow-on turn. `canonical_context` states the environment in full.
    pub fn finish_follow_on(
        &mut self,
        update: ContextUpdate,
        canonical_context: Arc<ResponseItem>,
        developer_context: Arc<ResponseItem>,
        context_baseline: ContextBaseline,
        user_content: Vec<ContentItem>,
    )
        requires
            old(self)@.session is Some,
            old(self)@.conversation().history.len() + 3 <= usize::MAX,
        ensures
            final(self)@.session is Some,
            final(self)@.conversation().history.len() > 0,
            ({
                let item = final(self)@.conversation().history.last();
                &&& is_kept_user_item(
                    *item,
                    user_content@,
                    old(self)@.told(update, canonical_context, developer_context),
                )
                &&& final(self)@ == old(self)@.told_with(
                    update,
                    canonical_context,
                    developer_context,
                    context_baseline,
                    item,
                )
            }),
    {
        let mut session = self.session.take().unwrap();
        match update {
            ContextUpdate::Unchanged => {
                session.conversation.set_canonical_context(canonical_context.clone());
            },
            ContextUpdate::Partial(item) => {
                session.conversation.append_one(item);
                session.conversation.set_canonical_context(canonical_context.clone());
            },
            ContextUpdate::Full(item) => {
                session.conversation.append_canonical_context(developer_context, item);
            },
        }
        let item = user_item(user_content);
        session.conversation.append_one(item);
        session.context_baseline = context_baseline;
        session.context_snapshot = Some(canonical_context);
        session.reinject_context = false;
        self.session = Some(session);
        proof {
            conversation::lemma_kept_item(
                old(self)@.told(update, canonical_context, developer_context),
                item,
            );
        }
    }

    /// Takes the boundary that branches may start from while the turn runs.
    pub fn publish_fork_snapshot(&self) -> (r: ModelCheckpoint)
        requires
            self@.session is Some,
        ensures
            r@ == self@.session->0.checkpoint(true, self@.global_instructions),
    {
        self.session.as_ref().unwrap().checkpoint(true, &self.global_instructions)
    }

    /// Returns whether steering messages are to be taken in before the next
    /// generation.
    pub fn drains_steers(&self) -> (r: bool)
        ensures
            r == self@.can_drain_steers,
    {
        self.can_drain_steers
    }

    /// Takes a steering message in and reports it.
    pub fn take_steer(&mut self, steer: &Prompt, user_content: Vec<ContentItem>)
        requires
            old(self)@.session is Some,
            old(self)@.can_drain_steers,
            steer.instruction.bytes() <= usize::MAX,
            old(self)@.stats.steers < u32::MAX,
            old(self)@.conversation().history.len() < usize::MAX,
        ensures
            final(self)@.session is Some,
            final(self)@.conversation().history.len() > 0,
            ({
                let item = final(self)@.conversation().history.last();
                let count = (old(self)@.stats.steers + 1) as u32;
                &&& is_kept_user_item(*item, user_content@, old(self)@.conversation())
                &&& final(self)@ == old(self)@.with_conversation(
                    old(self)@.conversation().with_items(seq![item]),
                ).with_stats(RunStats { steers: count, ..old(self)@.stats }).emitting(
                    RunEvent::RunSteered {
                        steer_index: count,
                        instruction_bytes: steer.instruction.bytes() as usize,
                    },
                )
            }),
    {
        let instruction_bytes: usize = steer.instruction.text_bytes();
        let item = user_item(user_content);
        let mut session = self.session.take().unwrap();
        session.conversation.append_one(item);
        self.session = Some(session);
        self.stats.steers = self.stats.steers + 1;
        self.events.push(
            RunEvent::RunSteered { steer_index: self.stats.steers, instruction_bytes },
        );
        proof {
            conversation::lemma_kept_item(old(self)@.conversation(), item);
        }
    }

    /// Takes a response into the conversation and decides what follows.
    ///
    /// Tool calls are run. Without any, the turn goes on when the model asked
    /// for it or steering messages wait, and is complete otherwise.
    pub fn take_response(&mut self, output: GenerationOutput, steers_waiting: bool) -> (r: DriveStep)
        requires
            old(self)@.session is Some,
            old(self)@.conversation().history.len() + output.output_items@.len() <= usize::MAX,
        ensures
            final(self)@ == old(self)@.responded(output, steers_waiting),
            follows(r, old(self)@, output, steers_waiting),
    {
        let mut session = self.session.take().unwrap();
        session.conversation.set_previous_response_id(output.id.clone());
        session.conversation.append(&output.output_items);
        self.can_drain_steers = true;
        if output.code_calls.len() == 0 {
            let model_goes_on = match output.end_turn {
                Some(end_turn) => !end_turn,
                None => false,
            };
            if model_goes_on || steers_waiting {
                session.conversation.clear_delta();
                self.session = Some(session);
                return DriveStep::Continue { compaction_holds_steers: model_goes_on };
            }
            self.session = Some(session);
            return match output.final_message {
                Some(message) => {
                    if is_blank(message.as_str()) {
                        DriveStep::Completed(NO_TEXT_MESSAGE.to_owned())
                    } else {
                        DriveStep::Completed(message)
                    }
                },
                None => DriveStep::Failed(
                    NanocodexError::MalformedResponse {
                        detail: "model completed without a final message or exec call",
                    },
                ),
            };
        }
        session.conversation.clear_delta();
        let history = if has_exec(&output.code_calls) {
            Some(Arc::new(session.conversation.flattened_history()))
        } else {
            None
        };
        self.session = Some(session);
        DriveStep::RunTools { calls: output.code_calls, history }
    }

    /// Notes whether the conversation was compacted where a compaction holds
    /// steering back: the model goes on before newer messages are taken in.
    pub fn note_compaction(&mut self, compacted: bool)
        ensures
            final(self)@ == (RunView { can_drain_steers: !compacted, ..old(self)@ }),
    {
        self.can_drain_steers = !compacted;
    }

    /// Returns whether tools that still run have to be stopped before the turn
    /// ends.
    pub fn stops_tools(&self, outcome: &ModelTaskOutcome) -> (r: bool)
        ensures
            r == (self@.has_tools && match *outcome {
                ModelTaskOutcome::Completed(_) => false,
                ModelTaskOutcome::Cancelled => true,
                ModelTaskOutcome::Failed(_) => self@.active.len() > 0,
            }),
    {
        match outcome {
            ModelTaskOutcome::Completed(_) => false,
            ModelTaskOutcome::Cancelled => self.has_tools,
            ModelTaskOutcome::Failed(_) => self.has_tools && self.active_tool_calls.len() > 0,
        }
    }

    /// Leaves a turn that was completed.
    pub fn finish_completed_turn(
        &mut self,
        completion: TurnCompletion,
        rates: Option<&ServicePricing>,
    ) -> (r: Result<CompletedModelTurn, NanocodexError>)
        ensures
            ends_completed(old(self)@, final(self)@, r, completion, priced(rates)),
    {
        let usage = self.turn_usage(rates);
        let mut session = match self.session.take() {
            Some(session) => session,
            None => return Err(
                NanocodexError::InvalidAttemptState {
                    detail: "completed turn did not have a model session",
                },
            ),
        };
        match &completion {
            TurnCompletion::Message { .. } => {
                if let Some(error) = session.conversation.commit() {
                    self.session = Some(session);
                    return Err(error);
                }
            },
            TurnCompletion::TerminalTool { .. } => {
                session.conversation.commit_interrupted();
                session.preserve_inherited_delta = false;
            },
        }
        let checkpoint = session.checkpoint(false, &self.global_instructions);
        self.session = Some(session);
        Ok(CompletedModelTurn { completion, usage, checkpoint })
    }

    /// Leaves a turn that was cancelled. Its unanswered calls are answered as
    /// interrupted.
    pub fn finish_cancelled_turn(
        &mut self,
        known: &Vec<InterruptedCall>,
        wall_ns: u64,
        notice: Arc<ResponseItem>,
    ) -> (r: Result<ModelCheckpoint, NanocodexError>)
        requires
            old(self)@.interruption_fits(known@, wall_ns),
        ensures
            ends_cancelled(old(self)@, final(self)@, r, known@, wall_ns, notice),
    {
        self.commit_interrupted_checkpoint(known, wall_ns, notice)
    }

    /// Leaves a turn that failed.
    ///
    /// Without unanswered calls the conversation keeps what it holds and gives
    /// up its continuation: the provider may have seen the failed request.
    /// Otherwise the calls are answered as after a cancellation. Without a
    /// conversation there is no boundary, and the error is handed back.
    pub fn finish_failed_turn(
        &mut self,
        error: NanocodexError,
        known: &Vec<InterruptedCall>,
        wall_ns: u64,
        notice: Arc<ResponseItem>,
    ) -> (r: Result<ModelTurnOutcome, NanocodexError>)
        requires
            old(self)@.failure_fits(known@, wall_ns),
        ensures
            ends_failed(old(self)@, final(self)@, r, error, known@, wall_ns, notice),
    {
        let exhausted = match error.responses_error() {
            Some(cause) => cause.is_context_window_exceeded(),
            None => false,
        };
        if exhausted {
            self.force_compaction = true;
        }
        if self.active_tool_calls.len() == 0 {
            self.finish_active_tool_batch_wall(wall_ns);
            return match self.session.take() {
                Some(session) => {
                    let mut session = session;
                    session.conversation.commit_interrupted();
                    session.preserve_inherited_delta = false;
                    let checkpoint = session.checkpoint(false, &self.global_instructions);
                    self.session = Some(session);
                    Ok(ModelTurnOutcome::Failed { error, checkpoint })
                },
                None => Err(error),
            };
        }
        match self.commit_interrupted_checkpoint(known, wall_ns, notice) {
            Ok(checkpoint) => Ok(ModelTurnOutcome::Failed { error, checkpoint }),
            Err(problem) => Err(problem),
        }
    }

    /// Reports the end of a turn, once its boundary was handed to durable
    /// storage. `failure` says that storage failed, and `transport` what the
    /// transport counted since the turn started.
    pub fn report_end(
        &mut self,
        ending: TurnEnding,
        failure: Option<&NanocodexError>,
        elapsed_ns: u64,
        transport: TransportCounts,
        rates: Option<&ServicePricing>,
    )
        ensures
            reports(
                old(self)@.with_transport(transport),
                final(self)@,
                ending,
                match failure {
                    Some(failure) => Some(*failure),
                    None => None,
                },
                elapsed_ns,
                priced(rates),
            ),
    {
        self.stats.transport = transport;
        if let Some(failure) = failure {
            let message = failure.message();
            self.end_early(TerminalStatus::Failed, message, elapsed_ns, rates);
            return;
        }
        match ending.reason {
            Some(reason) => self.end_early(ending.status, reason, elapsed_ns, rates),
            None => self.push_end(ending.status, ending.completion, elapsed_ns, rates),
        }
    }

    /// Starts a requested compaction in the conversation that is there. One
    /// that names another workspace is refused.
    pub fn begin_compact(
        &mut self,
        requested_workspace: Option<&str>,
        thinking: Thinking,
        fast_mode: bool,
        logical_turn: u64,
    ) -> (r: Option<ModelCompactOutcome>)
        requires
            old(self)@.session is Some,
        ensures
            ({
                let turning = old(self)@.asked_to_compact(thinking, fast_mode);
                if turning.belongs(text_of(requested_workspace)) {
                    &&& r is None
                    &&& final(self)@ == turning.taken_up(logical_turn)
                } else {
                    &&& final(self)@ == turning.turned_away(logical_turn)
                    &&& r matches Some(ModelCompactOutcome::Failed { error, checkpoint })
                        && refuses_workspace(
                        error,
                        turning.session->0,
                        requested_workspace->0@,
                    ) && checkpoint@ == final(self)@.session->0.checkpoint(
                        false,
                        old(self)@.global_instructions,
                    )
                }
            }),
    {
        self.thinking = thinking;
        self.fast_mode = fast_mode;
        self.stats = RunStats::new();
        match self.start_task(requested_workspace, logical_turn) {
            TaskStart::Refused(error) => {
                let checkpoint = self.session.as_ref().unwrap().checkpoint(
                    false,
                    &self.global_instructions,
                );
                Some(ModelCompactOutcome::Failed { error, checkpoint })
            },
            _ => None,
        }
    }

    /// Ends a requested compaction. `installed` is the history that a completed
    /// compaction leaves. A cancelled or failed one keeps the history and gives
    /// up the continuation.
    pub fn finish_compact(
        &mut self,
        reply: CompactionReply,
        installed: Vec<Arc<ResponseItem>>,
    ) -> (r: ModelCompactOutcome)
        requires
            old(self)@.session is Some,
        ensures
            final(self)@ == old(self)@.compact_ended(reply, installed@),
            ends_compact(r, reply, final(self)@),
    {
        let mut session = self.session.take().unwrap();
        match reply {
            CompactionReply::Cancelled => {
                session.conversation.reset_for_full_request();
                let checkpoint = session.checkpoint(false, &self.global_instructions);
                self.session = Some(session);
                ModelCompactOutcome::Cancelled(checkpoint)
            },
            CompactionReply::Failed(error) => {
                session.conversation.reset_for_full_request();
                let checkpoint = session.checkpoint(false, &self.global_instructions);
                self.session = Some(session);
                ModelCompactOutcome::Failed { error, checkpoint }
            },
            CompactionReply::Completed(compacted) => {
                session.conversation.observe_server_reasoning(
                    compacted.server_reasoning_included,
                );
                session.conversation.install_pre_turn_compaction(installed);
                session.reinject_context = true;
                session.preserve_inherited_delta = false;
                self.force_compaction = false;
                let checkpoint = session.checkpoint(false, &self.global_instructions);
                self.session = Some(session);
                ModelCompactOutcome::Completed(checkpoint)
            },
        }
    }
}

/// The first generation of a turn sees the turn's own message alone: steering
/// waits until it was answered.
pub proof fn law_first_generation_precedes_steering(
    before: RunView,
    task: Prompt,
    workspace: Option<String>,
    thinking: Thinking,
    fast_mode: bool,
)
    ensures
        !before.begun(task, workspace, thinking, fast_mode).can_drain_steers,
        before.begun(task, workspace, thinking, fast_mode).session == before.session,
{
}

/// A turn reports its end once, after everything else, and whatever its end was:
/// also when its calls were interrupted, and when its boundary could not be
/// persisted.
pub proof fn law_turn_reports_one_end(
    before: RunView,
    known: Seq<InterruptedCall>,
    wall_ns: u64,
    items: Seq<Arc<ResponseItem>>,
    events: Seq<RunEvent>,
    notice: Arc<ResponseItem>,
    after: RunView,
    ended: Result<ModelTurnOutcome, NanocodexError>,
    ending: TurnEnding,
    failure: Option<NanocodexError>,
    elapsed_ns: u64,
    transport: TransportCounts,
    rates: Option<ServicePricing>,
    at: int,
)
    requires
        tools::interrupts(before.active, known, items, events),
        ending.describes(ended),
        reports(
            before.interrupted(known, wall_ns, items, events, notice).with_transport(transport),
            after,
            ending,
            failure,
            elapsed_ns,
            rates,
        ),
        before.events.len() <= at < after.events.len(),
    ensures
        after.events[at].terminal() <==> at == after.events.len() - 1,
        after.events.take(before.events.len() as int) == before.events,
        after.events.last()->RunEnded_status == TerminalStatus::Completed <==> failure is None
            && ended is Ok && ended->Ok_0 is Completed,
        after.events.last()->RunEnded_stats.transport == transport,
{
    let middle = before.interrupted(known, wall_ns, items, events, notice);
    assert(middle.events == before.events + events);
    let n = middle.events.len() as int;
    if at < n {
        lemma_interruption_reports_no_end(
            before.active,
            known,
            items,
            events,
            at - before.events.len(),
        );
        assert(after.events[at] == events[at - before.events.len()]);
    }
    assert(after.events.take(before.events.len() as int) =~= before.events);
}

/// Interrupted calls do not report the end of a turn.
proof fn lemma_interruption_reports_no_end(
    active: Seq<ActiveToolCall>,
    known: Seq<InterruptedCall>,
    items: Seq<Arc<ResponseItem>>,
    events: Seq<RunEvent>,
    at: int,
)
    requires
        tools::interrupts(active, known, items, events),
        0 <= at < events.len(),
    ensures
        !events[at].terminal(),
    decreases active.len(),
{
    if active.len() > 0 {
        match active.last().completion {
            Some(completed) => lemma_interruption_reports_no_end(
                active.drop_last(),
                known.drop_last(),
                items.take(items.len() - completed.response_items@.len()),
                events,
                at,
            ),
            None => {
                if at < events.len() - 1 {
                    lemma_interruption_reports_no_end(
                        active.drop_last(),
                        known.drop_last(),
                        items.drop_last(),
                        events.drop_last(),
                        at,
                    );
                }
            },
        }
    }
}

/// A failed or cancelled turn loses nothing that the conversation held: the
/// history grows at its end only, and the next request carries all of it.
pub proof fn law_cut_short_turns_keep_the_history(
    before: RunView,
    error: NanocodexError,
    known: Seq<InterruptedCall>,
    wall_ns: u64,
    items: Seq<Arc<ResponseItem>>,
    events: Seq<RunEvent>,
    notice: Arc<ResponseItem>,
)
    requires
        before.session is Some,
    ensures
        ({
            let failed = before.noting(error).failed_quietly(wall_ns).conversation();
            let cut = before.interrupted(known, wall_ns, items, events, notice).conversation();
            &&& failed.history == before.conversation().history
            &&& failed.previous_response_id is None
            &&& failed.delta_start == 0
            &&& cut.history == before.conversation().with_items(items + seq![notice]).history
            &&& cut.history.len() == before.conversation().history.len() + items.len() + 1
            &&& forall|i: int|
                0 <= i < before.conversation().history.len() ==> #[trigger] cut.history[i]
                    == before.conversation().history[i]
            &&& cut.previous_response_id is None
            &&& cut.delta_start == 0
        }),
{
    conversation::law_batches_join(before.conversation(), items, seq![notice]);
}

/// When the provider says that the context is exhausted, the conversation is
/// compacted before the next attempt, however small it seems.
pub proof fn law_exhausted_context_is_compacted_next(
    before: RunView,
    error: NanocodexError,
    wall_ns: u64,
    tokens: u64,
    limit: u64,
)
    requires
        overflowed(error),
    ensures
        before.noting(error).failed_quietly(wall_ns).must_compact(tokens, Some(limit)),
{
}

/// A turn that follows a committed boundary sends the provider its own items
/// only; one that branches off inside a turn still sends what that turn owed.
pub proof fn law_branches_still_owe_their_delta(before: RunView)
    requires
        before.session is Some,
    ensures
        ({
            let session = before.session->0;
            let conversation = before.following_on(false).conversation();
            &&& conversation.history == session.conversation.history
            &&& conversation.delta_start == if session.preserve_inherited_delta {
                session.conversation.delta_start
            } else {
                session.conversation.history.len()
            }
        }),
        !before.following_on(false).session->0.preserve_inherited_delta,
{
}

} // verus!
