//! Decisions of the task that owns an agent's turns.
//!
//! The owner receives commands, runs one turn at a time, and answers callers.
//! What it waits for and performs lies outside; each function here takes what
//! happened and says what to do next. A caller who waits for an answer is
//! identified by a ticket.
use crate::config::{Model, Thinking};
use crate::control;
use crate::control::TicketAnswer;
use crate::error::NanocodexError;
use crate::prompt::Prompt;
use crate::queue;
use crate::queue::{cancel_queued_turn, QueuedTurn, TurnKey};
use crate::rollout::RolloutTurnStatus;
use crate::run::turn::TurnCompletion;
use crate::usage::TurnUsage;
use std::sync::Arc;
use vstd::multiset::Multiset;
use vstd::prelude::*;

verus! {

/// Commands that may wait for an agent.
pub const COMMAND_CAPACITY: usize = 8;

/// Steering inputs that may wait for an active turn.
pub const STEER_CAPACITY: usize = 8;

/// A request to an agent. `C` is a committed conversation.
#[allow(inconsistent_fields)]
pub enum TurnCommand<C> {
    /// Run a turn.
    Prompt {
        /// Identity of the turn.
        key: TurnKey,
        /// What the user asked.
        prompt: Prompt,
        /// Effort of this turn; the agent's default without one.
        thinking: Option<Thinking>,
        /// Processing mode of this turn; the agent's default without one.
        fast_mode: Option<bool>,
        /// Who waits for the turn's result.
        ticket: u64,
    },
    /// Add input to a running turn.
    Steer {
        /// The turn to steer.
        key: TurnKey,
        /// The added input.
        prompt: Prompt,
        /// Who waits for the answer.
        ticket: u64,
    },
    /// Cancel a turn.
    Cancel {
        /// The turn to cancel.
        key: TurnKey,
        /// Who waits for the answer.
        ticket: u64,
    },
    /// Start an agent that continues from a committed conversation.
    Fork {
        /// The conversation; the latest one without it.
        checkpoint: Option<Arc<C>>,
        /// Who waits for the agent.
        ticket: u64,
    },
    /// Start an agent with an empty conversation.
    Spawn {
        /// Who waits for the agent.
        ticket: u64,
    },
    /// Compact the conversation.
    Compact {
        /// Who waits for the answer.
        ticket: u64,
    },
    /// Hand everything that is kept of the conversation to durable storage.
    Flush {
        /// Who waits for the answer.
        ticket: u64,
    },
    /// Change the effort of turns accepted from now on.
    SetThinking {
        /// The new default.
        thinking: Thinking,
        /// Who waits for the answer.
        ticket: u64,
    },
    /// Change the processing mode of turns accepted from now on.
    SetFastMode {
        /// The new default.
        enabled: bool,
        /// Who waits for the answer.
        ticket: u64,
    },
}

impl<C> TurnCommand<C> {
    /// Who waits for the command.
    pub open spec fn waiter(self) -> u64 {
        match self {
            TurnCommand::Prompt { ticket, .. } => ticket,
            TurnCommand::Steer { ticket, .. } => ticket,
            TurnCommand::Cancel { ticket, .. } => ticket,
            TurnCommand::Fork { ticket, .. } => ticket,
            TurnCommand::Spawn { ticket } => ticket,
            TurnCommand::Compact { ticket } => ticket,
            TurnCommand::Flush { ticket } => ticket,
            TurnCommand::SetThinking { ticket, .. } => ticket,
            TurnCommand::SetFastMode { ticket, .. } => ticket,
        }
    }

    /// Returns who waits for the command.
    pub fn ticket(&self) -> (r: u64)
        ensures
            r == self.waiter(),
    {
        match self {
            TurnCommand::Prompt { ticket, .. } => *ticket,
            TurnCommand::Steer { ticket, .. } => *ticket,
            TurnCommand::Cancel { ticket, .. } => *ticket,
            TurnCommand::Fork { ticket, .. } => *ticket,
            TurnCommand::Spawn { ticket } => *ticket,
            TurnCommand::Compact { ticket } => *ticket,
            TurnCommand::Flush { ticket } => *ticket,
            TurnCommand::SetThinking { ticket, .. } => *ticket,
            TurnCommand::SetFastMode { ticket, .. } => *ticket,
        }
    }
}

/// Why a command is refused.
#[derive(Clone, Copy, Debug, PartialEq, Eq, Structural)]
pub enum Refusal {
    /// The turn is not active.
    TurnNotSteerable,
    /// The active turn takes no more steering input for now.
    SteerQueueFull,
    /// The turn is terminal or already being cancelled.
    TurnNotCancellable,
    /// A newer request took the place of this one.
    Replaced,
    /// There is no committed conversation yet.
    ForkBeforeCompletedTurn,
    /// The agent takes no more commands.
    AgentStopped,
    /// The agent failed to persist its conversation.
    PersistRollout,
}

/// The answer to a command.
#[derive(Clone, Copy, Debug, PartialEq, Eq, Structural)]
pub enum Answer {
    /// The command took effect.
    Done,
    /// The command was refused.
    Refused(Refusal),
}

/// What the owner does next.
pub enum DriverAction<C> {
    /// Start a turn.
    Start {
        /// Number of the turn among those started or reported.
        turn_index: u64,
        /// Identity of the turn.
        key: TurnKey,
        /// What the user asked.
        prompt: Prompt,
        /// The turn's effort.
        thinking: Thinking,
        /// The turn's processing mode.
        fast_mode: bool,
        /// Who waits for the result.
        ticket: u64,
    },
    /// Report a turn that was cancelled before it started.
    ReportCancelled {
        /// Number of the turn among those started or reported.
        turn_index: u64,
        /// What the user asked.
        prompt: Prompt,
        /// The turn's effort.
        thinking: Thinking,
        /// The turn's processing mode.
        fast_mode: bool,
        /// Who waits for the result.
        ticket: u64,
    },
    /// Compact the conversation.
    StartCompaction {
        /// Number of the compaction among the turns started or reported.
        turn_index: u64,
        /// Effort.
        thinking: Thinking,
        /// Processing mode.
        fast_mode: bool,
        /// Who waits for the result.
        ticket: u64,
    },
    /// Hand what is kept to durable storage, and tell [`AgentDriver::flushed`].
    Flush {
        /// Who waits for the answer.
        ticket: u64,
    },
    /// Wait for a command.
    Receive,
    /// Shut the model down and stop.
    Stop,
    /// Answer a caller.
    Answer {
        /// Who waits.
        ticket: u64,
        /// The answer.
        answer: Answer,
    },
    /// Offer input to the active turn, and answer as [`steer_answer`] says.
    OfferSteer {
        /// The added input.
        prompt: Prompt,
        /// Who waits for the answer.
        ticket: u64,
    },
    /// Start an agent that continues from a committed conversation.
    Fork {
        /// The conversation.
        checkpoint: Arc<C>,
        /// The new agent's model.
        model: Model,
        /// The new agent's default effort.
        thinking: Thinking,
        /// The new agent's default processing mode.
        fast_mode: bool,
        /// Who waits for the agent.
        ticket: u64,
    },
    /// Start an agent with an empty conversation.
    Spawn {
        /// The new agent's model.
        model: Model,
        /// The new agent's default effort.
        thinking: Thinking,
        /// The new agent's default processing mode.
        fast_mode: bool,
        /// Who waits for the agent.
        ticket: u64,
    },
    /// Signal cancellation to what runs and wait for its end.
    CancelActive,
    /// Keep waiting.
    Continue,
}

/// The turn that runs.
#[derive(Clone, Copy, Debug, PartialEq, Eq, Structural)]
pub struct ActiveTurn {
    /// Identity of the turn.
    pub key: TurnKey,
    /// Who waits for the turn's result.
    pub ticket: u64,
    /// Whether cancellation was signalled.
    pub cancel_sent: bool,
    /// Who waits for the cancellation.
    pub cancel_ticket: Option<u64>,
}

/// The requested compaction that runs.
#[derive(Clone, Copy, Debug, PartialEq, Eq, Structural)]
pub struct ActiveCompaction {
    /// Who waits for the result.
    pub ticket: u64,
    /// Whether cancellation was signalled.
    pub cancel_sent: bool,
}

/// A requested compaction's end.
#[allow(inconsistent_fields)]
pub enum CompactionOutcome<C> {
    /// The conversation was compacted.
    Completed {
        /// The compacted conversation.
        checkpoint: Arc<C>,
    },
    /// The compaction was cancelled.
    Cancelled {
        /// The conversation at the boundary.
        checkpoint: Arc<C>,
    },
    /// The compaction failed.
    Failed {
        /// Why.
        error: NanocodexError,
        /// The conversation at the last safe boundary, if there is one.
        checkpoint: Option<Arc<C>>,
    },
}

impl<C> CompactionOutcome<C> {
    /// The conversation that the compaction ends at.
    pub open spec fn boundary(self) -> Option<Arc<C>> {
        match self {
            CompactionOutcome::Completed { checkpoint } => Some(checkpoint),
            CompactionOutcome::Cancelled { checkpoint } => Some(checkpoint),
            CompactionOutcome::Failed { checkpoint, .. } => checkpoint,
        }
    }

    /// Returns how the record states the compaction. `replaced` tells that
    /// another one takes its place.
    pub fn recorded(&self, replaced: bool) -> (r: RolloutTurnStatus)
        ensures
            r == match *self {
                CompactionOutcome::Completed { .. } => RolloutTurnStatus::Completed,
                CompactionOutcome::Cancelled { .. } => if replaced {
                    RolloutTurnStatus::Replaced
                } else {
                    RolloutTurnStatus::Interrupted
                },
                CompactionOutcome::Failed { .. } => RolloutTurnStatus::Failed,
            },
    {
        match self {
            CompactionOutcome::Completed { .. } => RolloutTurnStatus::Completed,
            CompactionOutcome::Cancelled { .. } => {
                if replaced {
                    RolloutTurnStatus::Replaced
                } else {
                    RolloutTurnStatus::Interrupted
                }
            },
            CompactionOutcome::Failed { .. } => RolloutTurnStatus::Failed,
        }
    }
}

/// A queued turn that a failure to persist gave up. It is reported as failed,
/// and its caller is answered.
pub struct FailedTurn {
    /// What the user asked.
    pub prompt: Prompt,
    /// The turn's effort.
    pub thinking: Thinking,
    /// The turn's processing mode.
    pub fast_mode: bool,
    /// The answer to who waits for the turn's result.
    pub answer: TicketAnswer,
}

/// The queued turn as a failure to persist leaves it.
pub open spec fn failed_turn(turn: QueuedTurn) -> FailedTurn {
    match turn {
        QueuedTurn::Pending { prompt, thinking, fast_mode, ticket, .. } => FailedTurn {
            prompt,
            thinking,
            fast_mode,
            answer: control::refused(ticket, Refusal::PersistRollout),
        },
        QueuedTurn::Cancelled { prompt, thinking, fast_mode, ticket } => FailedTurn {
            prompt,
            thinking,
            fast_mode,
            answer: control::refused(ticket, Refusal::PersistRollout),
        },
    }
}

/// What is left to do when a failure to persist stops an agent.
pub struct FailStop {
    /// The turns that were queued, in their order.
    pub turns: Vec<FailedTurn>,
    /// The answers to everybody else who waited.
    pub answers: Vec<TicketAnswer>,
}

/// A turn's end.
#[allow(inconsistent_fields)]
pub enum TurnOutcome<C> {
    /// The turn completed.
    Completed(CompletedTurn<C>),
    /// The turn was cancelled at a safe boundary.
    Cancelled {
        /// The conversation at the boundary.
        checkpoint: Arc<C>,
    },
    /// The turn failed.
    Failed {
        /// Why.
        error: NanocodexError,
        /// The conversation at the last safe boundary, if there is one.
        checkpoint: Option<Arc<C>>,
    },
}

/// What a completed turn delivers.
pub struct CompletedTurn<C> {
    /// What completed the turn.
    pub completion: TurnCompletion,
    /// The turn's token usage.
    pub usage: TurnUsage,
    /// The conversation after the turn.
    pub checkpoint: Arc<C>,
}

impl<C> CompletedTurn<C> {
    /// Returns what completed the turn.
    pub fn completion(&self) -> (r: &TurnCompletion)
        ensures
            *r == self.completion,
    {
        &self.completion
    }

    /// Returns the model's final message, if the turn ended with one.
    pub fn final_message(&self) -> (r: Option<&str>)
        ensures
            match r {
                Some(message) => self.completion.said() == Some(message@),
                None => self.completion.said() is None,
            },
    {
        self.completion.final_message()
    }
}

impl<C> TurnOutcome<C> {
    /// The conversation that the turn ends at.
    pub open spec fn boundary(self) -> Option<Arc<C>> {
        match self {
            TurnOutcome::Completed(turn) => Some(turn.checkpoint),
            TurnOutcome::Cancelled { checkpoint } => Some(checkpoint),
            TurnOutcome::Failed { checkpoint, .. } => checkpoint,
        }
    }

    /// Returns how the record states the turn.
    pub fn recorded(&self) -> (r: RolloutTurnStatus)
        ensures
            r == match *self {
                TurnOutcome::Completed(_) => RolloutTurnStatus::Completed,
                TurnOutcome::Cancelled { .. } => RolloutTurnStatus::Interrupted,
                TurnOutcome::Failed { .. } => RolloutTurnStatus::Failed,
            },
    {
        match self {
            TurnOutcome::Completed(_) => RolloutTurnStatus::Completed,
            TurnOutcome::Cancelled { .. } => RolloutTurnStatus::Interrupted,
            TurnOutcome::Failed { .. } => RolloutTurnStatus::Failed,
        }
    }
}

/// What a caller learns of its turn.
pub enum TurnReply<C> {
    /// The turn completed.
    Completed(CompletedTurn<C>),
    /// The turn did not complete.
    Failed(NanocodexError),
}

/// What is left to do at the end of a turn.
pub struct SettledTurn<C> {
    /// Who waits for the turn's result.
    pub ticket: u64,
    /// The turn's result.
    pub reply: TurnReply<C>,
    /// Status of the turn.
    pub status: &'static str,
    /// Status code of the turn's trace span.
    pub otel_status: &'static str,
    /// Who waits for the cancellation.
    pub cancel_ticket: Option<u64>,
    /// The answer to who waits for the cancellation.
    pub cancel_answer: Answer,
    /// Whether the model continues from the boundary with a fresh connection.
    pub rebuild_model: bool,
    /// What is left to do when the agent stops because the boundary could not
    /// be persisted.
    pub stop: Option<FailStop>,
}

/// What is left to do at the end of a requested compaction.
pub struct SettledCompaction {
    /// Who waits for the result.
    pub ticket: u64,
    /// The result.
    pub reply: Result<(), NanocodexError>,
    /// Whether the model continues from the boundary with a fresh connection.
    pub rebuild_model: bool,
    /// What is left to do when the agent stops because the boundary could not
    /// be persisted.
    pub stop: Option<FailStop>,
}

/// What is left to do after durable storage was asked to keep up.
pub struct Flushed {
    /// The answer to who asked.
    pub answer: TicketAnswer,
    /// What is left to do when the agent stops because storage failed.
    pub stop: Option<FailStop>,
}

/// A failure to persist a conversation.
#[derive(Debug)]
pub struct PersistRolloutFailure {
    /// File that could not be written.
    pub path: String,
    /// Underlying failure.
    pub source: String,
}

impl Clone for PersistRolloutFailure {
    fn clone(&self) -> (r: Self)
        ensures
            r == *self,
    {
        PersistRolloutFailure { path: self.path.clone(), source: self.source.clone() }
    }
}

impl PersistRolloutFailure {
    /// Whether an error reports the failure.
    pub open spec fn reported_by(self, error: NanocodexError) -> bool {
        error matches NanocodexError::PersistRollout { path, source } && path@ == self.path@
            && source@ == self.source@
    }

    /// Returns the error that reports the failure.
    pub fn into_error(self) -> (r: NanocodexError)
        ensures
            self.reported_by(r),
    {
        NanocodexError::PersistRollout { path: self.path, source: self.source }
    }
}

/// State of the task that owns an agent's turns.
pub struct AgentDriver<C> {
    model: Model,
    thinking: Thinking,
    fast_mode: bool,
    turn_index: u64,
    latest: Option<Arc<C>>,
    queue: Vec<QueuedTurn>,
    commands_open: bool,
    active: Option<ActiveTurn>,
    compacting: Option<ActiveCompaction>,
    waiting_compaction: Option<u64>,
    flushes: Vec<u64>,
    failure: Option<PersistRolloutFailure>,
}

/// What the state of an [`AgentDriver`] holds.
#[verifier::ext_equal]
pub struct DriverView<C> {
    /// Model of the agent and of those that it starts.
    pub model: Model,
    /// Default effort of turns accepted from now on.
    pub thinking: Thinking,
    /// Default processing mode of turns accepted from now on.
    pub fast_mode: bool,
    /// Turns started or reported so far.
    pub turn_index: u64,
    /// The latest committed conversation.
    pub latest: Option<Arc<C>>,
    /// Accepted turns that wait for their start.
    pub queue: Seq<QueuedTurn>,
    /// Whether commands may still arrive.
    pub commands_open: bool,
    /// The turn that runs.
    pub active: Option<ActiveTurn>,
    /// The requested compaction that runs.
    pub compacting: Option<ActiveCompaction>,
    /// Who waits for a compaction that starts when what runs has ended.
    pub waiting_compaction: Option<u64>,
    /// Who waits for durable storage until what runs has ended, in order.
    pub flushes: Seq<u64>,
    /// The failure to persist that stopped the agent.
    pub failure: Option<PersistRolloutFailure>,
}

/// Nobody, or who holds a ticket.
pub open spec fn holder(ticket: Option<u64>) -> Multiset<u64> {
    match ticket {
        Some(ticket) => Multiset::singleton(ticket),
        None => Multiset::empty(),
    }
}

impl<C> DriverView<C> {
    /// Whether at most one thing runs.
    pub open spec fn exclusive(self) -> bool {
        self.active is None || self.compacting is None
    }

    /// Whether nothing runs.
    pub open spec fn idle(self) -> bool {
        self.active is None && self.compacting is None
    }

    /// Callers who wait for the result of a turn or a compaction, or for
    /// durable storage, with one count for each.
    pub open spec fn owed(self) -> Multiset<u64> {
        let running = match self.active {
            Some(turn) => Some(turn.ticket),
            None => None,
        };
        let compacting = match self.compacting {
            Some(compaction) => Some(compaction.ticket),
            None => None,
        };
        queue::waiters(self.queue).to_multiset().add(holder(running)).add(holder(compacting)).add(
            holder(self.waiting_compaction),
        ).add(self.flushes.to_multiset())
    }

    /// The state after a turn starts.
    pub open spec fn starting(self, key: TurnKey, ticket: u64) -> DriverView<C> {
        DriverView {
            turn_index: (self.turn_index + 1) as u64,
            active: Some(
                ActiveTurn { key, ticket, cancel_sent: false, cancel_ticket: None },
            ),
            ..self
        }
    }

    /// The state after a requested compaction starts.
    pub open spec fn compacts(self, ticket: u64) -> (DriverView<C>, DriverAction<C>) {
        (
            DriverView {
                turn_index: (self.turn_index + 1) as u64,
                compacting: Some(ActiveCompaction { ticket, cancel_sent: false }),
                ..self
            },
            DriverAction::StartCompaction {
                turn_index: (self.turn_index + 1) as u64,
                thinking: self.thinking,
                fast_mode: self.fast_mode,
                ticket,
            },
        )
    }

    /// The state after a failure to persist: nothing runs, nothing waits, and
    /// no command is taken any more.
    pub open spec fn stopped(self, failure: PersistRolloutFailure) -> DriverView<C> {
        DriverView {
            queue: Seq::empty(),
            commands_open: false,
            active: None,
            compacting: None,
            waiting_compaction: None,
            flushes: Seq::empty(),
            failure: Some(failure),
            ..self
        }
    }

    /// What those who wait for a compaction or for durable storage are
    /// answered when the agent stops after a failure to persist.
    pub open spec fn turned_away(self) -> Seq<TicketAnswer> {
        let compaction = match self.waiting_compaction {
            Some(ticket) => seq![control::refused(ticket, Refusal::PersistRollout)],
            None => Seq::empty(),
        };
        compaction + self.flushes.map_values(
            |ticket: u64| control::refused(ticket, Refusal::PersistRollout),
        )
    }

    /// Whether an agent that stops after a failure to persist deals with
    /// everybody: each queued turn fails once, in order, and everybody else is
    /// refused.
    pub open spec fn stops_with(self, stop: FailStop) -> bool {
        &&& stop.turns@ == self.queue.map_values(|turn: QueuedTurn| failed_turn(turn))
        &&& stop.answers@ == self.turned_away()
    }

    /// What happens when nothing runs: first storage keeps up, then a waiting
    /// compaction starts, then queued turns in their order; without any the
    /// owner waits for a command, or stops when none can come.
    pub open spec fn next(self) -> (DriverView<C>, DriverAction<C>) {
        if self.flushes.len() > 0 {
            (
                DriverView { flushes: self.flushes.skip(1), ..self },
                DriverAction::Flush { ticket: self.flushes[0] },
            )
        } else if self.waiting_compaction is Some {
            DriverView { waiting_compaction: None, ..self }.compacts(self.waiting_compaction->0)
        } else if self.queue.len() > 0 {
            let rest = DriverView { queue: self.queue.skip(1), ..self };
            match self.queue[0] {
                QueuedTurn::Pending { key, prompt, thinking, fast_mode, ticket } => (
                    rest.starting(key, ticket),
                    DriverAction::Start {
                        turn_index: (self.turn_index + 1) as u64,
                        key,
                        prompt,
                        thinking,
                        fast_mode,
                        ticket,
                    },
                ),
                QueuedTurn::Cancelled { prompt, thinking, fast_mode, ticket } => (
                    DriverView { turn_index: (self.turn_index + 1) as u64, ..rest },
                    DriverAction::ReportCancelled {
                        turn_index: (self.turn_index + 1) as u64,
                        prompt,
                        thinking,
                        fast_mode,
                        ticket,
                    },
                ),
            }
        } else if self.commands_open {
            (self, DriverAction::Receive)
        } else {
            (self, DriverAction::Stop)
        }
    }

    /// How a request for another agent is treated, whether or not a turn runs.
    pub open spec fn branch_command(self, command: TurnCommand<C>) -> DriverAction<C> {
        match command {
            TurnCommand::Fork { checkpoint, ticket } => {
                let source = if checkpoint is Some {
                    checkpoint
                } else {
                    self.latest
                };
                match source {
                    Some(checkpoint) => DriverAction::Fork {
                        checkpoint,
                        model: self.model,
                        thinking: self.thinking,
                        fast_mode: self.fast_mode,
                        ticket,
                    },
                    None => DriverAction::Answer {
                        ticket,
                        answer: Answer::Refused(Refusal::ForkBeforeCompletedTurn),
                    },
                }
            },
            TurnCommand::Spawn { ticket } => DriverAction::Spawn {
                model: self.model,
                thinking: self.thinking,
                fast_mode: self.fast_mode,
                ticket,
            },
            _ => DriverAction::Continue,
        }
    }

    /// How a command is treated when nothing runs. An agent that failed to
    /// persist refuses every one.
    pub open spec fn idle_command(self, command: TurnCommand<C>) -> (
        DriverView<C>,
        DriverAction<C>,
    ) {
        if self.failure is Some {
            (
                self,
                DriverAction::Answer {
                    ticket: command.waiter(),
                    answer: Answer::Refused(Refusal::PersistRollout),
                },
            )
        } else {
            self.accepted(command)
        }
    }

    /// How a command is treated when nothing runs and nothing failed.
    pub open spec fn accepted(self, command: TurnCommand<C>) -> (DriverView<C>, DriverAction<C>) {
        match command {
            TurnCommand::Compact { ticket } => self.compacts(ticket),
            TurnCommand::Flush { ticket } => (self, DriverAction::Flush { ticket }),
            TurnCommand::Prompt { key, prompt, thinking, fast_mode, ticket } => (
                self.starting(key, ticket),
                DriverAction::Start {
                    turn_index: (self.turn_index + 1) as u64,
                    key,
                    prompt,
                    thinking: match thinking {
                        Some(thinking) => thinking,
                        None => self.thinking,
                    },
                    fast_mode: match fast_mode {
                        Some(fast_mode) => fast_mode,
                        None => self.fast_mode,
                    },
                    ticket,
                },
            ),
            TurnCommand::Steer { ticket, .. } => (
                self,
                DriverAction::Answer { ticket, answer: Answer::Refused(Refusal::TurnNotSteerable) },
            ),
            TurnCommand::Cancel { ticket, .. } => (
                self,
                DriverAction::Answer {
                    ticket,
                    answer: Answer::Refused(Refusal::TurnNotCancellable),
                },
            ),
            TurnCommand::SetThinking { thinking, ticket } => (
                DriverView { thinking, ..self },
                DriverAction::Answer { ticket, answer: Answer::Done },
            ),
            TurnCommand::SetFastMode { enabled, ticket } => (
                DriverView { fast_mode: enabled, ..self },
                DriverAction::Answer { ticket, answer: Answer::Done },
            ),
            _ => (self, self.branch_command(command)),
        }
    }

    /// How a command is treated while a turn or a compaction runs, where it
    /// makes no difference which.
    pub open spec fn busy_command(self, command: TurnCommand<C>) -> (
        DriverView<C>,
        DriverAction<C>,
    ) {
        match command {
            TurnCommand::Prompt { key, prompt, thinking: _, fast_mode: _, ticket } => (
                DriverView {
                    queue: self.queue.push(
                        QueuedTurn::Pending {
                            key,
                            prompt,
                            thinking: self.thinking,
                            fast_mode: self.fast_mode,
                            ticket,
                        },
                    ),
                    ..self
                },
                DriverAction::Continue,
            ),
            TurnCommand::Steer { ticket, .. } => (
                self,
                DriverAction::Answer { ticket, answer: Answer::Refused(Refusal::TurnNotSteerable) },
            ),
            TurnCommand::Cancel { key, ticket } => (
                DriverView { queue: queue::with_cancelled(self.queue, key), ..self },
                DriverAction::Answer {
                    ticket,
                    answer: if queue::pending_position(self.queue, key) < self.queue.len() {
                        Answer::Done
                    } else {
                        Answer::Refused(Refusal::TurnNotCancellable)
                    },
                },
            ),
            TurnCommand::Compact { ticket } => (
                DriverView { waiting_compaction: Some(ticket), ..self },
                match self.waiting_compaction {
                    Some(earlier) => DriverAction::Answer {
                        ticket: earlier,
                        answer: Answer::Refused(Refusal::Replaced),
                    },
                    None => DriverAction::Continue,
                },
            ),
            TurnCommand::Flush { ticket } => (
                DriverView { flushes: self.flushes.push(ticket), ..self },
                DriverAction::Continue,
            ),
            TurnCommand::SetThinking { thinking, ticket } => (
                DriverView { thinking, ..self },
                DriverAction::Answer { ticket, answer: Answer::Done },
            ),
            TurnCommand::SetFastMode { enabled, ticket } => (
                DriverView { fast_mode: enabled, ..self },
                DriverAction::Answer { ticket, answer: Answer::Done },
            ),
            _ => (self, self.branch_command(command)),
        }
    }

    /// How a command is treated while a turn runs.
    pub open spec fn active_command(self, command: TurnCommand<C>) -> (
        DriverView<C>,
        DriverAction<C>,
    )
        recommends
            self.active is Some,
    {
        let turn = self.active->0;
        match command {
            TurnCommand::Steer { key, prompt, ticket } => if key == turn.key {
                (self, DriverAction::OfferSteer { prompt, ticket })
            } else {
                self.busy_command(command)
            },
            TurnCommand::Cancel { key, ticket } => if key != turn.key {
                self.busy_command(command)
            } else if turn.cancel_sent {
                (
                    self,
                    DriverAction::Answer {
                        ticket,
                        answer: Answer::Refused(Refusal::TurnNotCancellable),
                    },
                )
            } else {
                (
                    DriverView {
                        active: Some(
                            ActiveTurn { cancel_sent: true, cancel_ticket: Some(ticket), ..turn },
                        ),
                        ..self
                    },
                    DriverAction::CancelActive,
                )
            },
            _ => self.busy_command(command),
        }
    }

    /// How a command is treated while a requested compaction runs: a newer
    /// request cancels it and takes its place.
    pub open spec fn compacting_command(self, command: TurnCommand<C>) -> (
        DriverView<C>,
        DriverAction<C>,
    )
        recommends
            self.compacting is Some,
    {
        let compaction = self.compacting->0;
        match command {
            TurnCommand::Compact { ticket } => if compaction.cancel_sent {
                self.busy_command(command)
            } else {
                (
                    DriverView {
                        compacting: Some(ActiveCompaction { cancel_sent: true, ..compaction }),
                        ..self.busy_command(command).0
                    },
                    DriverAction::CancelActive,
                )
            },
            _ => self.busy_command(command),
        }
    }

    /// What happens when no further command can arrive: while something runs,
    /// what waits for a start is given up and what runs is cancelled.
    pub open spec fn closed(self) -> (DriverView<C>, DriverAction<C>) {
        let shut = DriverView { commands_open: false, ..self };
        let emptied = DriverView { queue: Seq::empty(), waiting_compaction: None, ..shut };
        match self.active {
            Some(turn) => (
                DriverView { active: Some(ActiveTurn { cancel_sent: true, ..turn }), ..emptied },
                if turn.cancel_sent {
                    DriverAction::Continue
                } else {
                    DriverAction::CancelActive
                },
            ),
            None => match self.compacting {
                Some(compaction) => (
                    DriverView {
                        compacting: Some(ActiveCompaction { cancel_sent: true, ..compaction }),
                        ..emptied
                    },
                    if compaction.cancel_sent {
                        DriverAction::Continue
                    } else {
                        DriverAction::CancelActive
                    },
                ),
                None => (shut, DriverAction::Continue),
            },
        }
    }

    /// The state after the running turn published a safe boundary.
    pub open spec fn with_boundary(self, checkpoint: Option<Arc<C>>) -> DriverView<C> {
        DriverView {
            latest: if checkpoint is Some {
                checkpoint
            } else {
                self.latest
            },
            ..self
        }
    }
}

/// Whether a settled turn is what an outcome calls for.
///
/// A failure to persist the boundary is what both the turn's caller and the
/// one who cancelled it learn, whatever the turn's own end was. It stops the
/// agent, with nobody left waiting.
pub open spec fn settles<C>(
    settled: SettledTurn<C>,
    state: DriverView<C>,
    outcome: TurnOutcome<C>,
    failure: Option<PersistRolloutFailure>,
) -> bool {
    let turn = state.active->0;
    &&& settled.ticket == turn.ticket
    &&& settled.cancel_ticket == turn.cancel_ticket
    &&& settled.stop is Some == failure is Some
    &&& match failure {
        Some(failure) => {
            &&& state.stops_with(settled.stop->0)
            &&& settled.reply matches TurnReply::Failed(error) && failure.reported_by(error)
            &&& settled.status@ == "failed"@
            &&& settled.otel_status@ == "ERROR"@
            &&& settled.cancel_answer == Answer::Refused(Refusal::PersistRollout)
            &&& !settled.rebuild_model
        },
        None => match outcome {
            TurnOutcome::Completed(completed) => {
                &&& settled.reply == TurnReply::Completed(completed)
                &&& settled.status@ == "completed"@
                &&& settled.otel_status@ == "OK"@
                &&& settled.cancel_answer == Answer::Refused(Refusal::TurnNotCancellable)
                &&& !settled.rebuild_model
            },
            TurnOutcome::Cancelled { .. } => {
                &&& settled.reply matches TurnReply::Failed(error) && error is TurnCancelled
                &&& settled.status@ == "cancelled"@
                &&& settled.otel_status@ == "ERROR"@
                &&& settled.cancel_answer == Answer::Done
                &&& settled.rebuild_model
            },
            TurnOutcome::Failed { error, .. } => {
                &&& settled.reply == TurnReply::<C>::Failed(error)
                &&& settled.status@ == "failed"@
                &&& settled.otel_status@ == "ERROR"@
                &&& settled.cancel_answer == Answer::Refused(Refusal::TurnNotCancellable)
                &&& !settled.rebuild_model
            },
        },
    }
}

/// Whether a settled compaction is what an outcome calls for. A failure to
/// persist the boundary is what its caller learns, whatever its own end was,
/// and stops the agent.
pub open spec fn settles_compaction<C>(
    settled: SettledCompaction,
    state: DriverView<C>,
    outcome: CompactionOutcome<C>,
    failure: Option<PersistRolloutFailure>,
) -> bool {
    &&& settled.ticket == state.compacting->0.ticket
    &&& settled.stop is Some == failure is Some
    &&& settled.rebuild_model == (failure is None && outcome is Cancelled)
    &&& match failure {
        Some(failure) => {
            &&& state.stops_with(settled.stop->0)
            &&& settled.reply matches Err(error) && failure.reported_by(error)
        },
        None => match outcome {
            CompactionOutcome::Completed { .. } => settled.reply is Ok,
            CompactionOutcome::Cancelled { .. } => settled.reply matches Err(error)
                && error is TurnCancelled,
            CompactionOutcome::Failed { error, .. } => settled.reply
                == Err::<(), NanocodexError>(error),
        },
    }
}

impl<C> View for AgentDriver<C> {
    type V = DriverView<C>;

    closed spec fn view(&self) -> DriverView<C> {
        DriverView {
            model: self.model,
            thinking: self.thinking,
            fast_mode: self.fast_mode,
            turn_index: self.turn_index,
            latest: self.latest,
            queue: self.queue@,
            commands_open: self.commands_open,
            active: self.active,
            compacting: self.compacting,
            waiting_compaction: self.waiting_compaction,
            flushes: self.flushes@,
            failure: self.failure,
        }
    }
}

impl<C> AgentDriver<C> {
    /// Starts with no turn and, for a fork, the inherited conversation.
    pub fn new(
        model: Model,
        thinking: Thinking,
        fast_mode: bool,
        inherited: Option<Arc<C>>,
    ) -> (r: Self)
        ensures
            r@ == (DriverView {
                model,
                thinking,
                fast_mode,
                turn_index: 0,
                latest: inherited,
                queue: Seq::<QueuedTurn>::empty(),
                commands_open: true,
                active: None::<ActiveTurn>,
                compacting: None::<ActiveCompaction>,
                waiting_compaction: None::<u64>,
                flushes: Seq::<u64>::empty(),
                failure: None::<PersistRolloutFailure>,
            }),
    {
        AgentDriver {
            model,
            thinking,
            fast_mode,
            turn_index: 0,
            latest: inherited,
            queue: Vec::new(),
            commands_open: true,
            active: None,
            compacting: None,
            waiting_compaction: None,
            flushes: Vec::new(),
            failure: None,
        }
    }

    /// Returns the number of turns started or reported so far.
    pub fn turn_index(&self) -> (r: u64)
        ensures
            r == self@.turn_index,
    {
        self.turn_index
    }

    /// Returns the number of turns that wait for their start.
    pub fn queued(&self) -> (r: usize)
        ensures
            r == self@.queue.len(),
    {
        self.queue.len()
    }

    /// Returns the turn that runs.
    pub fn active(&self) -> (r: Option<ActiveTurn>)
        ensures
            r == self@.active,
    {
        self.active
    }

    /// Returns the requested compaction that runs.
    pub fn compacting(&self) -> (r: Option<ActiveCompaction>)
        ensures
            r == self@.compacting,
    {
        self.compacting
    }

    /// Returns whether another compaction waits for the end of what runs.
    pub fn compaction_waits(&self) -> (r: bool)
        ensures
            r == self@.waiting_compaction is Some,
    {
        self.waiting_compaction.is_some()
    }

    /// Returns the failure to persist that stopped the agent.
    pub fn failure(&self) -> (r: Option<&PersistRolloutFailure>)
        ensures
            match r {
                Some(failure) => self@.failure == Some(*failure),
                None => self@.failure is None,
            },
    {
        self.failure.as_ref()
    }

    /// Returns whether commands may still arrive.
    pub fn commands_open(&self) -> (r: bool)
        ensures
            r == self@.commands_open,
    {
        self.commands_open
    }

    /// Starts a requested compaction.
    fn compact(&mut self, ticket: u64) -> (r: DriverAction<C>)
        requires
            old(self)@.turn_index < u64::MAX,
        ensures
            (final(self)@, r) == old(self)@.compacts(ticket),
    {
        self.turn_index = self.turn_index + 1;
        self.compacting = Some(ActiveCompaction { ticket, cancel_sent: false });
        DriverAction::StartCompaction {
            turn_index: self.turn_index,
            thinking: self.thinking,
            fast_mode: self.fast_mode,
            ticket,
        }
    }

    /// Says what to do when nothing runs.
    pub fn next(&mut self) -> (r: DriverAction<C>)
        requires
            old(self)@.idle(),
            old(self)@.turn_index < u64::MAX,
        ensures
            final(self)@ == old(self)@.next().0,
            r == old(self)@.next().1,
    {
        if self.flushes.len() > 0 {
            let ticket: u64 = self.flushes.remove(0);
            proof {
                assert(self.flushes@ =~= old(self).flushes@.skip(1));
            }
            DriverAction::Flush { ticket }
        } else if let Some(ticket) = self.waiting_compaction {
            self.waiting_compaction = None;
            self.compact(ticket)
        } else if self.queue.len() > 0 {
            let turn = self.queue.remove(0);
            proof {
                assert(self.queue@ =~= old(self).queue@.skip(1));
            }
            self.turn_index = self.turn_index + 1;
            match turn {
                QueuedTurn::Pending { key, prompt, thinking, fast_mode, ticket } => {
                    self.active = Some(
                        ActiveTurn { key, ticket, cancel_sent: false, cancel_ticket: None },
                    );
                    DriverAction::Start {
                        turn_index: self.turn_index,
                        key,
                        prompt,
                        thinking,
                        fast_mode,
                        ticket,
                    }
                },
                QueuedTurn::Cancelled { prompt, thinking, fast_mode, ticket } => {
                    DriverAction::ReportCancelled {
                        turn_index: self.turn_index,
                        prompt,
                        thinking,
                        fast_mode,
                        ticket,
                    }
                },
            }
        } else if self.commands_open {
            DriverAction::Receive
        } else {
            DriverAction::Stop
        }
    }

    /// Answers a request for a fork.
    fn fork(&self, checkpoint: Option<Arc<C>>, ticket: u64) -> (r: DriverAction<C>)
        ensures
            r == self@.branch_command(TurnCommand::Fork { checkpoint, ticket }),
    {
        let source = match checkpoint {
            Some(checkpoint) => Some(checkpoint),
            None => match &self.latest {
                Some(latest) => Some(latest.clone()),
                None => None,
            },
        };
        match source {
            Some(checkpoint) => DriverAction::Fork {
                checkpoint,
                model: self.model,
                thinking: self.thinking,
                fast_mode: self.fast_mode,
                ticket,
            },
            None => DriverAction::Answer {
                ticket,
                answer: Answer::Refused(Refusal::ForkBeforeCompletedTurn),
            },
        }
    }

    /// Treats a command that arrives when nothing runs.
    pub fn handle_idle_command(&mut self, command: TurnCommand<C>) -> (r: DriverAction<C>)
        requires
            old(self)@.idle(),
            old(self)@.turn_index < u64::MAX,
        ensures
            (final(self)@, r) == old(self)@.idle_command(command),
    {
        if self.failure.is_some() {
            return DriverAction::Answer {
                ticket: command.ticket(),
                answer: Answer::Refused(Refusal::PersistRollout),
            };
        }
        match command {
            TurnCommand::Prompt { key, prompt, thinking, fast_mode, ticket } => {
                let thinking = match thinking {
                    Some(thinking) => thinking,
                    None => self.thinking,
                };
                let fast_mode = match fast_mode {
                    Some(fast_mode) => fast_mode,
                    None => self.fast_mode,
                };
                self.turn_index = self.turn_index + 1;
                self.active = Some(
                    ActiveTurn { key, ticket, cancel_sent: false, cancel_ticket: None },
                );
                DriverAction::Start {
                    turn_index: self.turn_index,
                    key,
                    prompt,
                    thinking,
                    fast_mode,
                    ticket,
                }
            },
            TurnCommand::Steer { key: _, prompt: _, ticket } => DriverAction::Answer {
                ticket,
                answer: Answer::Refused(Refusal::TurnNotSteerable),
            },
            TurnCommand::Cancel { key: _, ticket } => DriverAction::Answer {
                ticket,
                answer: Answer::Refused(Refusal::TurnNotCancellable),
            },
            TurnCommand::Fork { checkpoint, ticket } => self.fork(checkpoint, ticket),
            TurnCommand::Spawn { ticket } => DriverAction::Spawn {
                model: self.model,
                thinking: self.thinking,
                fast_mode: self.fast_mode,
                ticket,
            },
            TurnCommand::Compact { ticket } => self.compact(ticket),
            TurnCommand::Flush { ticket } => DriverAction::Flush { ticket },
            TurnCommand::SetThinking { thinking, ticket } => {
                self.thinking = thinking;
                DriverAction::Answer { ticket, answer: Answer::Done }
            },
            TurnCommand::SetFastMode { enabled, ticket } => {
                self.fast_mode = enabled;
                DriverAction::Answer { ticket, answer: Answer::Done }
            },
        }
    }

    /// Treats a command that arrives while a turn or a compaction runs, where
    /// it makes no difference which.
    fn handle_busy_command(&mut self, command: TurnCommand<C>) -> (r: DriverAction<C>)
        ensures
            (final(self)@, r) == old(self)@.busy_command(command),
    {
        match command {
            TurnCommand::Prompt { key, prompt, thinking: _, fast_mode: _, ticket } => {
                self.queue.push(
                    QueuedTurn::Pending {
                        key,
                        prompt,
                        thinking: self.thinking,
                        fast_mode: self.fast_mode,
                        ticket,
                    },
                );
                DriverAction::Continue
            },
            TurnCommand::Steer { key: _, prompt: _, ticket } => DriverAction::Answer {
                ticket,
                answer: Answer::Refused(Refusal::TurnNotSteerable),
            },
            TurnCommand::Cancel { key, ticket } => {
                let answer = if cancel_queued_turn(&mut self.queue, key) {
                    Answer::Done
                } else {
                    Answer::Refused(Refusal::TurnNotCancellable)
                };
                DriverAction::Answer { ticket, answer }
            },
            TurnCommand::Fork { checkpoint, ticket } => self.fork(checkpoint, ticket),
            TurnCommand::Spawn { ticket } => DriverAction::Spawn {
                model: self.model,
                thinking: self.thinking,
                fast_mode: self.fast_mode,
                ticket,
            },
            TurnCommand::Compact { ticket } => {
                let earlier = self.waiting_compaction;
                self.waiting_compaction = Some(ticket);
                match earlier {
                    Some(earlier) => DriverAction::Answer {
                        ticket: earlier,
                        answer: Answer::Refused(Refusal::Replaced),
                    },
                    None => DriverAction::Continue,
                }
            },
            TurnCommand::Flush { ticket } => {
                self.flushes.push(ticket);
                DriverAction::Continue
            },
            TurnCommand::SetThinking { thinking, ticket } => {
                self.thinking = thinking;
                DriverAction::Answer { ticket, answer: Answer::Done }
            },
            TurnCommand::SetFastMode { enabled, ticket } => {
                self.fast_mode = enabled;
                DriverAction::Answer { ticket, answer: Answer::Done }
            },
        }
    }

    /// Treats a command that arrives while a turn runs.
    pub fn handle_active_command(&mut self, command: TurnCommand<C>) -> (r: DriverAction<C>)
        requires
            old(self)@.active is Some,
        ensures
            (final(self)@, r) == old(self)@.active_command(command),
    {
        let Some(turn) = self.active else {
            return DriverAction::Continue;
        };
        match command {
            TurnCommand::Steer { key, prompt, ticket } => {
                if key == turn.key {
                    DriverAction::OfferSteer { prompt, ticket }
                } else {
                    self.handle_busy_command(TurnCommand::Steer { key, prompt, ticket })
                }
            },
            TurnCommand::Cancel { key, ticket } => {
                if key != turn.key {
                    return self.handle_busy_command(TurnCommand::Cancel { key, ticket });
                }
                if turn.cancel_sent {
                    return DriverAction::Answer {
                        ticket,
                        answer: Answer::Refused(Refusal::TurnNotCancellable),
                    };
                }
                self.active = Some(
                    ActiveTurn {
                        key: turn.key,
                        ticket: turn.ticket,
                        cancel_sent: true,
                        cancel_ticket: Some(ticket),
                    },
                );
                DriverAction::CancelActive
            },
            other => self.handle_busy_command(other),
        }
    }

    /// Treats a command that arrives while a requested compaction runs.
    pub fn handle_compacting_command(&mut self, command: TurnCommand<C>) -> (r: DriverAction<C>)
        requires
            old(self)@.compacting is Some,
        ensures
            (final(self)@, r) == old(self)@.compacting_command(command),
    {
        let Some(compaction) = self.compacting else {
            return DriverAction::Continue;
        };
        match command {
            TurnCommand::Compact { ticket } => {
                if compaction.cancel_sent {
                    return self.handle_busy_command(TurnCommand::Compact { ticket });
                }
                self.waiting_compaction = Some(ticket);
                self.compacting = Some(
                    ActiveCompaction { ticket: compaction.ticket, cancel_sent: true },
                );
                DriverAction::CancelActive
            },
            other => self.handle_busy_command(other),
        }
    }

    /// Notes that no further command can arrive.
    pub fn handle_closed(&mut self) -> (r: DriverAction<C>)
        ensures
            final(self)@ == old(self)@.closed().0,
            r == old(self)@.closed().1,
    {
        self.commands_open = false;
        let cancel_sent = match self.active {
            Some(turn) => {
                self.active = Some(
                    ActiveTurn {
                        key: turn.key,
                        ticket: turn.ticket,
                        cancel_sent: true,
                        cancel_ticket: turn.cancel_ticket,
                    },
                );
                turn.cancel_sent
            },
            None => match self.compacting {
                Some(compaction) => {
                    self.compacting = Some(
                        ActiveCompaction { ticket: compaction.ticket, cancel_sent: true },
                    );
                    compaction.cancel_sent
                },
                None => return DriverAction::Continue,
            },
        };
        self.queue.clear();
        self.waiting_compaction = None;
        if cancel_sent {
            DriverAction::Continue
        } else {
            DriverAction::CancelActive
        }
    }

    /// Notes a safe boundary that the running turn published.
    pub fn observe_boundary(&mut self, checkpoint: Option<Arc<C>>)
        ensures
            final(self)@ == old(self)@.with_boundary(checkpoint),
    {
        if let Some(checkpoint) = checkpoint {
            self.latest = Some(checkpoint);
        }
    }

    /// Stops after a failure to persist. Nothing starts any more, and everybody
    /// who waited is dealt with.
    fn stop(&mut self, failure: PersistRolloutFailure) -> (r: FailStop)
        ensures
            final(self)@ == old(self)@.stopped(failure),
            old(self)@.stops_with(r),
    {
        let mut queue: Vec<QueuedTurn> = Vec::new();
        std::mem::swap(&mut queue, &mut self.queue);
        let mut flushes: Vec<u64> = Vec::new();
        std::mem::swap(&mut flushes, &mut self.flushes);
        let turns = fail_turns(queue);
        let mut answers: Vec<TicketAnswer> = Vec::new();
        if let Some(ticket) = self.waiting_compaction {
            answers.push(TicketAnswer { ticket, answer: Answer::Refused(Refusal::PersistRollout) });
        }
        let ghost first = answers@;
        let ghost owed = flushes@.map_values(
            |ticket: u64| control::refused(ticket, Refusal::PersistRollout),
        );
        let mut i: usize = 0;
        while i < flushes.len()
            invariant
                i <= flushes@.len(),
                owed == flushes@.map_values(
                    |ticket: u64| control::refused(ticket, Refusal::PersistRollout),
                ),
                answers@ == first + owed.take(i as int),
            decreases flushes@.len() - i,
        {
            answers.push(
                TicketAnswer {
                    ticket: flushes[i],
                    answer: Answer::Refused(Refusal::PersistRollout),
                },
            );
            proof {
                assert(owed.take(i as int + 1) =~= owed.take(i as int).push(owed[i as int]));
                assert(answers@ =~= first + owed.take(i as int + 1));
            }
            i = i + 1;
        }
        proof {
            assert(owed.take(flushes@.len() as int) =~= owed);
            assert(answers@ =~= old(self)@.turned_away());
        }
        self.commands_open = false;
        self.active = None;
        self.compacting = None;
        self.waiting_compaction = None;
        self.failure = Some(failure);
        FailStop { turns, answers }
    }

    /// Notes how durable storage kept up for a caller who asked for it. A
    /// failure stops the agent.
    pub fn flushed(&mut self, ticket: u64, failure: Option<PersistRolloutFailure>) -> (r: Flushed)
        requires
            old(self)@.idle(),
        ensures
            match failure {
                None => {
                    &&& final(self)@ == old(self)@
                    &&& r.answer == (TicketAnswer { ticket, answer: Answer::Done })
                    &&& r.stop is None
                },
                Some(failure) => {
                    &&& final(self)@ == old(self)@.stopped(failure)
                    &&& r.answer == control::refused(ticket, Refusal::PersistRollout)
                    &&& r.stop is Some
                    &&& old(self)@.stops_with(r.stop->0)
                },
            },
    {
        match failure {
            None => Flushed { answer: TicketAnswer { ticket, answer: Answer::Done }, stop: None },
            Some(failure) => {
                let stop = self.stop(failure);
                let answer = Answer::Refused(Refusal::PersistRollout);
                Flushed { answer: TicketAnswer { ticket, answer }, stop: Some(stop) }
            },
        }
    }

    /// Settles the requested compaction that runs, once its boundary was handed
    /// to durable storage. `failure` says that storage failed: the agent stops.
    pub fn settle_compaction(
        &mut self,
        outcome: CompactionOutcome<C>,
        failure: Option<PersistRolloutFailure>,
    ) -> (r: SettledCompaction)
        requires
            old(self)@.compacting is Some,
        ensures
            match failure {
                None => final(self)@ == (DriverView {
                    compacting: None::<ActiveCompaction>,
                    ..old(self)@.with_boundary(outcome.boundary())
                }),
                Some(failure) => final(self)@ == old(self)@.with_boundary(
                    outcome.boundary(),
                ).stopped(failure),
            },
            settles_compaction(r, old(self)@, outcome, failure),
    {
        let ticket: u64 = match self.compacting {
            Some(compaction) => compaction.ticket,
            None => 0,
        };
        self.compacting = None;
        let (reply, rebuild_model) = match outcome {
            CompactionOutcome::Completed { checkpoint } => {
                self.latest = Some(checkpoint);
                (Ok(()), false)
            },
            CompactionOutcome::Cancelled { checkpoint } => {
                self.latest = Some(checkpoint);
                (Err(NanocodexError::TurnCancelled), true)
            },
            CompactionOutcome::Failed { error, checkpoint } => {
                if let Some(checkpoint) = checkpoint {
                    self.latest = Some(checkpoint);
                }
                (Err(error), false)
            },
        };
        match failure {
            Some(failure) => {
                let stop = self.stop(failure.clone());
                SettledCompaction {
                    ticket,
                    reply: Err(failure.into_error()),
                    rebuild_model: false,
                    stop: Some(stop),
                }
            },
            None => SettledCompaction { ticket, reply, rebuild_model, stop: None },
        }
    }

    /// Settles the running turn, once its boundary was handed to durable
    /// storage. `failure` says that storage failed: the agent stops.
    pub fn settle(
        &mut self,
        outcome: TurnOutcome<C>,
        failure: Option<PersistRolloutFailure>,
    ) -> (r: SettledTurn<C>)
        requires
            old(self)@.active is Some,
        ensures
            match failure {
                None => final(self)@ == (DriverView {
                    active: None::<ActiveTurn>,
                    ..old(self)@.with_boundary(outcome.boundary())
                }),
                Some(failure) => final(self)@ == old(self)@.with_boundary(
                    outcome.boundary(),
                ).stopped(failure),
            },
            settles(r, old(self)@, outcome, failure),
    {
        let (ticket, cancel_ticket) = match self.active {
            Some(turn) => (turn.ticket, turn.cancel_ticket),
            None => (0, None),
        };
        self.active = None;
        let (reply, status, otel_status, cancel_answer, rebuild_model) = match outcome {
            TurnOutcome::Completed(completed) => {
                self.latest = Some(completed.checkpoint.clone());
                (
                    TurnReply::Completed(completed),
                    "completed",
                    "OK",
                    Answer::Refused(Refusal::TurnNotCancellable),
                    false,
                )
            },
            TurnOutcome::Cancelled { checkpoint } => {
                self.latest = Some(checkpoint);
                (
                    TurnReply::Failed(NanocodexError::TurnCancelled),
                    "cancelled",
                    "ERROR",
                    Answer::Done,
                    true,
                )
            },
            TurnOutcome::Failed { error, checkpoint } => {
                if let Some(checkpoint) = checkpoint {
                    self.latest = Some(checkpoint);
                }
                (
                    TurnReply::Failed(error),
                    "failed",
                    "ERROR",
                    Answer::Refused(Refusal::TurnNotCancellable),
                    false,
                )
            },
        };
        match failure {
            Some(failure) => {
                let stop = self.stop(failure.clone());
                SettledTurn {
                    ticket,
                    reply: TurnReply::Failed(failure.into_error()),
                    status: "failed",
                    otel_status: "ERROR",
                    cancel_ticket,
                    cancel_answer: Answer::Refused(Refusal::PersistRollout),
                    rebuild_model: false,
                    stop: Some(stop),
                }
            },
            None => SettledTurn {
                ticket,
                reply,
                status,
                otel_status,
                cancel_ticket,
                cancel_answer,
                rebuild_model,
                stop: None,
            },
        }
    }

    /// Takes the queued turns out, for a shutdown or a stop after a failure.
    pub fn take_queue(&mut self) -> (r: Vec<QueuedTurn>)
        ensures
            r@ == old(self)@.queue,
            final(self)@ == (DriverView { queue: Seq::<QueuedTurn>::empty(), ..old(self)@ }),
    {
        let mut taken: Vec<QueuedTurn> = Vec::new();
        std::mem::swap(&mut taken, &mut self.queue);
        taken
    }

    /// Puts queued turns back in front of the owner, and takes no more
    /// commands.
    pub fn restore_queue(&mut self, queue: Vec<QueuedTurn>)
        ensures
            final(self)@ == (DriverView { queue: queue@, commands_open: false, ..old(self)@ }),
    {
        self.queue = queue;
        self.commands_open = false;
    }
}

/// Gives queued turns up after a failure to persist.
fn fail_turns(queue: Vec<QueuedTurn>) -> (r: Vec<FailedTurn>)
    ensures
        r@ == queue@.map_values(|turn: QueuedTurn| failed_turn(turn)),
{
    let ghost all = queue@;
    let ghost owed = all.map_values(|turn: QueuedTurn| failed_turn(turn));
    let ghost mut done: int = 0;
    let mut queue = queue;
    let mut turns: Vec<FailedTurn> = Vec::new();
    while queue.len() > 0
        invariant
            0 <= done <= all.len(),
            owed == all.map_values(|turn: QueuedTurn| failed_turn(turn)),
            queue@ == all.skip(done),
            turns@ == owed.take(done),
        decreases queue@.len(),
    {
        let turn = queue.remove(0);
        proof {
            assert(all.skip(done).remove(0) =~= all.skip(done + 1));
            assert(all.skip(done)[0] == all[done]);
            assert(owed.take(done + 1) =~= owed.take(done).push(owed[done]));
        }
        let answer = Answer::Refused(Refusal::PersistRollout);
        let failed = match turn {
            QueuedTurn::Pending { key: _, prompt, thinking, fast_mode, ticket } => FailedTurn {
                prompt,
                thinking,
                fast_mode,
                answer: TicketAnswer { ticket, answer },
            },
            QueuedTurn::Cancelled { prompt, thinking, fast_mode, ticket } => FailedTurn {
                prompt,
                thinking,
                fast_mode,
                answer: TicketAnswer { ticket, answer },
            },
        };
        turns.push(failed);
        proof {
            done = done + 1;
        }
    }
    proof {
        assert(owed.take(all.len() as int) =~= owed);
    }
    turns
}

/// How the running turn took a steering input.
#[derive(Clone, Copy, Debug, PartialEq, Eq, Structural)]
pub enum SteerOffer {
    /// The input waits for the turn.
    Accepted,
    /// As many inputs wait as the turn takes.
    Full,
    /// The turn takes no more input.
    Closed,
}

/// Returns the answer to a steering request by how the turn took the input.
pub fn steer_answer(offer: SteerOffer) -> (r: Answer)
    ensures
        r == match offer {
            SteerOffer::Accepted => Answer::Done,
            SteerOffer::Full => Answer::Refused(Refusal::SteerQueueFull),
            SteerOffer::Closed => Answer::Refused(Refusal::TurnNotSteerable),
        },
{
    match offer {
        SteerOffer::Accepted => Answer::Done,
        SteerOffer::Full => Answer::Refused(Refusal::SteerQueueFull),
        SteerOffer::Closed => Answer::Refused(Refusal::TurnNotSteerable),
    }
}

impl Refusal {
    /// Whether an error reports the refusal.
    pub open spec fn reported_by(self, error: NanocodexError) -> bool {
        match self {
            Refusal::TurnNotSteerable => error is TurnNotSteerable,
            Refusal::SteerQueueFull => error is SteerQueueFull,
            Refusal::TurnNotCancellable => error is TurnNotCancellable,
            Refusal::Replaced => error is TurnCancelled,
            Refusal::ForkBeforeCompletedTurn => error is ForkBeforeCompletedTurn,
            Refusal::AgentStopped => error is AgentStopped,
            Refusal::PersistRollout => error is PersistRollout,
        }
    }

    /// Returns the error that reports the refusal. A failed persistence is
    /// reported with the failure that the agent recorded.
    pub fn error(self, failure: &PersistRolloutFailure) -> (r: NanocodexError)
        ensures
            self.reported_by(r),
            self == Refusal::PersistRollout ==> failure.reported_by(r),
    {
        match self {
            Refusal::TurnNotSteerable => NanocodexError::TurnNotSteerable,
            Refusal::SteerQueueFull => NanocodexError::SteerQueueFull,
            Refusal::TurnNotCancellable => NanocodexError::TurnNotCancellable,
            Refusal::Replaced => NanocodexError::TurnCancelled,
            Refusal::ForkBeforeCompletedTurn => NanocodexError::ForkBeforeCompletedTurn,
            Refusal::AgentStopped => NanocodexError::AgentStopped,
            Refusal::PersistRollout => failure.clone().into_error(),
        }
    }
}

/// Taking the first turn from the queue takes its waiter from the account.
proof fn lemma_first_waiter(turns: Seq<QueuedTurn>)
    requires
        turns.len() > 0,
    ensures
        queue::waiters(turns).to_multiset() == queue::waiters(
            turns.skip(1),
        ).to_multiset().insert(turns[0].waiter()),
{
    let all = queue::waiters(turns);
    let rest = queue::waiters(turns.skip(1));
    all.to_multiset_ensures();
    assert(all.remove(0) =~= rest);
    assert(all.to_multiset().contains(all[0]));
    assert(all.to_multiset().remove(all[0]).insert(all[0]) =~= all.to_multiset());
}

/// Taking the first of those who wait for storage takes it from the account.
proof fn lemma_first_flush(flushes: Seq<u64>)
    requires
        flushes.len() > 0,
    ensures
        flushes.to_multiset() == flushes.skip(1).to_multiset().insert(flushes[0]),
{
    flushes.to_multiset_ensures();
    assert(flushes.remove(0) =~= flushes.skip(1));
    assert(flushes.to_multiset().contains(flushes[0]));
    assert(flushes.to_multiset().remove(flushes[0]).insert(flushes[0]) =~= flushes.to_multiset());
}

/// Between turns nobody is forgotten and nobody is answered twice: starting a
/// turn or a compaction keeps its caller waiting, and reporting a cancelled
/// turn or letting storage keep up takes exactly its caller from those who
/// wait.
pub proof fn law_next_keeps_accounts<C>(state: DriverView<C>)
    requires
        state.idle(),
    ensures
        match state.next().1 {
            DriverAction::Start { ticket, .. } => state.next().0.owed() == state.owed()
                && state.owed().contains(ticket),
            DriverAction::StartCompaction { ticket, .. } => state.next().0.owed() == state.owed()
                && state.owed().contains(ticket),
            DriverAction::ReportCancelled { ticket, .. } => state.owed()
                == state.next().0.owed().insert(ticket),
            DriverAction::Flush { ticket } => state.owed() == state.next().0.owed().insert(ticket),
            _ => state.next().0 == state,
        },
{
    if state.flushes.len() > 0 {
        lemma_first_flush(state.flushes);
        assert(state.owed() =~= state.next().0.owed().insert(state.flushes[0]));
    } else if state.waiting_compaction is Some {
        assert(state.next().0.owed() =~= state.owed());
    } else if state.queue.len() > 0 {
        lemma_first_waiter(state.queue);
        let ticket = state.queue[0].waiter();
        match state.queue[0] {
            QueuedTurn::Pending { .. } => {
                assert(state.next().0.owed() =~= state.owed());
            },
            QueuedTurn::Cancelled { .. } => {
                assert(state.owed() =~= state.next().0.owed().insert(ticket));
            },
        }
    }
}

/// Who waits for more than an answer after a command: the callers of prompts
/// and compactions, and, while something runs, of storage. A newer compaction
/// takes the place of one that still waits for its start.
pub open spec fn owed_after<C>(state: DriverView<C>, command: TurnCommand<C>) -> Multiset<u64> {
    match command {
        TurnCommand::Prompt { ticket, .. } => state.owed().insert(ticket),
        TurnCommand::Compact { ticket } => if state.idle() {
            state.owed().insert(ticket)
        } else {
            DriverView { waiting_compaction: Some(ticket), ..state }.owed()
        },
        TurnCommand::Flush { ticket } => if state.idle() {
            state.owed()
        } else {
            state.owed().insert(ticket)
        },
        _ => state.owed(),
    }
}

/// A command adds its caller to those who wait exactly when it asks for more
/// than an answer, whatever runs; nobody else is forgotten, but for who waited
/// for a compaction that a newer request replaced, and who is told so.
pub proof fn law_commands_keep_accounts<C>(state: DriverView<C>, command: TurnCommand<C>)
    requires
        state.failure is None,
    ensures
        state.idle() ==> state.idle_command(command).0.owed() == owed_after(state, command),
        state.active is Some && state.compacting is None ==> state.active_command(
            command,
        ).0.owed() == owed_after(state, command),
        state.active is None && state.compacting is Some ==> state.compacting_command(
            command,
        ).0.owed() == owed_after(state, command),
{
    if state.idle() {
        assert(state.idle_command(command).0.owed() =~= owed_after(state, command));
    } else {
        match command {
            TurnCommand::Prompt { key, prompt, ticket, .. } => {
                let turn = QueuedTurn::Pending {
                    key,
                    prompt,
                    thinking: state.thinking,
                    fast_mode: state.fast_mode,
                    ticket,
                };
                let before = queue::waiters(state.queue);
                before.to_multiset_ensures();
                assert(queue::waiters(state.queue.push(turn)) =~= before.push(ticket));
                assert(state.busy_command(command).0.owed() =~= state.owed().insert(ticket));
            },
            TurnCommand::Cancel { key, .. } => {
                queue::law_cancelling_keeps_every_place(state.queue, key);
            },
            TurnCommand::Flush { ticket } => {
                state.flushes.to_multiset_ensures();
                assert(state.busy_command(command).0.owed() =~= state.owed().insert(ticket));
            },
            _ => {},
        }
    }
}

/// Settling a turn or a compaction takes exactly its caller from those who
/// wait.
pub proof fn law_settling_keeps_accounts<C>(state: DriverView<C>, boundary: Option<Arc<C>>)
    ensures
        state.active is Some ==> state.owed() == (DriverView {
            active: None::<ActiveTurn>,
            ..state.with_boundary(boundary)
        }).owed().insert(state.active->0.ticket),
        state.compacting is Some ==> state.owed() == (DriverView {
            compacting: None::<ActiveCompaction>,
            ..state.with_boundary(boundary)
        }).owed().insert(state.compacting->0.ticket),
{
    if state.active is Some {
        assert(state.owed() =~= (DriverView {
            active: None::<ActiveTurn>,
            ..state.with_boundary(boundary)
        }).owed().insert(state.active->0.ticket));
    }
    if state.compacting is Some {
        assert(state.owed() =~= (DriverView {
            compacting: None::<ActiveCompaction>,
            ..state.with_boundary(boundary)
        }).owed().insert(state.compacting->0.ticket));
    }
}

/// Nobody waits for anything in an empty queue.
proof fn lemma_nobody_waits()
    ensures
        queue::waiters(Seq::<QueuedTurn>::empty()).to_multiset() == Multiset::<u64>::empty(),
        Seq::<u64>::empty().to_multiset() == Multiset::<u64>::empty(),
{
    let none = queue::waiters(Seq::<QueuedTurn>::empty());
    assert(none =~= Seq::<u64>::empty());
    Seq::<u64>::empty().to_multiset_ensures();
    assert(Seq::<u64>::empty().to_multiset() =~= Multiset::empty());
}

/// When no further command can arrive, an idle agent still owes what it owed;
/// a busy one gives up what waits for a start, and owes what runs and storage
/// alone.
pub proof fn law_closing_gives_up_queued_turns<C>(state: DriverView<C>)
    ensures
        state.idle() ==> state.closed().0.owed() == state.owed(),
        state.active is Some && state.compacting is None ==> state.closed().0.owed()
            == state.flushes.to_multiset().insert(state.active->0.ticket),
        state.active is None && state.compacting is Some ==> state.closed().0.owed()
            == state.flushes.to_multiset().insert(state.compacting->0.ticket),
        !state.closed().0.commands_open,
{
    lemma_nobody_waits();
    if state.active is Some && state.compacting is None {
        assert(state.closed().0.owed() =~= state.flushes.to_multiset().insert(
            state.active->0.ticket,
        ));
    }
    if state.active is None && state.compacting is Some {
        assert(state.closed().0.owed() =~= state.flushes.to_multiset().insert(
            state.compacting->0.ticket,
        ));
    }
}

/// An agent that failed to persist starts nothing any more: its next step is to
/// stop, it owes nobody anything, and whatever command still arrives is refused
/// with the failure and changes nothing.
pub proof fn law_failure_to_persist_stops_the_agent<C>(
    state: DriverView<C>,
    failure: PersistRolloutFailure,
    command: TurnCommand<C>,
)
    ensures
        ({
            let stopped = state.stopped(failure);
            &&& stopped.idle()
            &&& stopped.next() == (stopped, DriverAction::<C>::Stop)
            &&& stopped.owed() == Multiset::<u64>::empty()
            &&& stopped.idle_command(command) == (
                stopped,
                DriverAction::<C>::Answer {
                    ticket: command.waiter(),
                    answer: Answer::Refused(Refusal::PersistRollout),
                },
            )
            &&& stopped.closed() == (stopped, DriverAction::<C>::Continue)
        }),
{
    lemma_nobody_waits();
    assert(state.stopped(failure).owed() =~= Multiset::empty());
}

/// When a failure to persist stops an agent, each queued turn fails once, in
/// the order of the queue and with what it was accepted with, and each of its
/// callers learns of the failure; so does everybody else who waited for
/// something other than what ran.
pub proof fn law_failure_to_persist_reaches_everybody<C>(state: DriverView<C>, stop: FailStop)
    requires
        state.stops_with(stop),
    ensures
        stop.turns@.len() == state.queue.len(),
        forall|i: int|
            0 <= i < state.queue.len() ==> (#[trigger] stop.turns@[i]).answer == control::refused(
                state.queue[i].waiter(),
                Refusal::PersistRollout,
            ),
        stop.turns@.map_values(|turn: FailedTurn| turn.answer.ticket) == queue::waiters(
            state.queue,
        ),
        stop.answers@.len() == state.flushes.len() + if state.waiting_compaction is Some {
            1nat
        } else {
            0nat
        },
        forall|i: int|
            0 <= i < stop.answers@.len() ==> (#[trigger] stop.answers@[i]).answer
                == Answer::Refused(Refusal::PersistRollout),
        state.waiting_compaction is Some ==> stop.answers@[0].ticket
            == state.waiting_compaction->0,
        stop.answers@.skip(
            if state.waiting_compaction is Some {
                1
            } else {
                0
            },
        ).map_values(|answer: TicketAnswer| answer.ticket) == state.flushes,
{
    assert(stop.turns@.map_values(|turn: FailedTurn| turn.answer.ticket) =~= queue::waiters(
        state.queue,
    ));
    assert(stop.answers@.skip(
        if state.waiting_compaction is Some {
            1
        } else {
            0
        },
    ).map_values(|answer: TicketAnswer| answer.ticket) =~= state.flushes);
}

/// A newer compaction replaces one that runs: the running one is cancelled
/// once, its caller still learns how it ended, and the newest one starts when
/// it has ended; the caller of one in between is told that it was replaced.
/// Prompts that arrive meanwhile run after it.
pub proof fn law_newest_compaction_replaces_the_others<C>(
    state: DriverView<C>,
    second: u64,
    third: u64,
    boundary: Arc<C>,
)
    requires
        state.active is None,
        state.compacting is Some,
        !state.compacting->0.cancel_sent,
        state.flushes.len() == 0,
    ensures
        ({
            let (once, first_action) = state.compacting_command(
                TurnCommand::Compact { ticket: second },
            );
            let (twice, second_action) = once.compacting_command(
                TurnCommand::Compact { ticket: third },
            );
            let ended = DriverView {
                compacting: None::<ActiveCompaction>,
                ..twice.with_boundary(Some(boundary))
            };
            &&& first_action is CancelActive
            &&& second_action == DriverAction::<C>::Answer {
                ticket: second,
                answer: Answer::Refused(Refusal::Replaced),
            }
            &&& twice.compacting->0.ticket == state.compacting->0.ticket
            &&& (ended.next().1 matches DriverAction::StartCompaction { ticket, .. } && ticket
                == third)
            &&& ended.next().0.queue == state.queue
        }),
{
}

/// A turn and a compaction never run at the same time, whatever commands
/// arrive and in whatever order things end.
pub proof fn law_one_thing_runs_at_a_time<C>(
    state: DriverView<C>,
    command: TurnCommand<C>,
    boundary: Option<Arc<C>>,
    failure: PersistRolloutFailure,
)
    requires
        state.exclusive(),
    ensures
        state.idle() ==> state.next().0.exclusive(),
        state.idle() ==> state.idle_command(command).0.exclusive(),
        state.active is Some ==> state.active_command(command).0.exclusive(),
        state.compacting is Some ==> state.compacting_command(command).0.exclusive(),
        state.closed().0.exclusive(),
        state.with_boundary(boundary).exclusive(),
        state.stopped(failure).exclusive(),
{
}

/// Storage that keeps up while something runs waits for its end, and comes
/// before anything else starts.
pub proof fn law_storage_keeps_up_at_the_boundary<C>(
    state: DriverView<C>,
    ticket: u64,
    boundary: Option<Arc<C>>,
)
    requires
        !state.idle(),
        state.flushes.len() == 0,
    ensures
        ({
            let (waiting, action) = state.busy_command(TurnCommand::Flush { ticket });
            let ended = DriverView {
                active: None::<ActiveTurn>,
                compacting: None::<ActiveCompaction>,
                ..waiting.with_boundary(boundary)
            };
            &&& action is Continue
            &&& ended.next().1 == DriverAction::<C>::Flush { ticket }
            &&& ended.next().0.queue == state.queue
        }),
{
}

/// New defaults reach turns accepted later and no others: the queued turns and
/// the running one keep what they captured, and the next accepted turn runs
/// with the new setting.
pub proof fn law_settings_reach_later_turns_only<C>(
    state: DriverView<C>,
    thinking: Thinking,
    enabled: bool,
    ticket: u64,
    key: TurnKey,
    prompt: Prompt,
    waiter: u64,
)
    requires
        state.active is Some,
    ensures
        ({
            let changed = state.active_command(TurnCommand::SetThinking { thinking, ticket }).0;
            let changed = changed.active_command(TurnCommand::SetFastMode { enabled, ticket }).0;
            let accepted = changed.active_command(
                TurnCommand::Prompt {
                    key,
                    prompt,
                    thinking: None,
                    fast_mode: None,
                    ticket: waiter,
                },
            ).0;
            &&& changed.queue == state.queue
            &&& changed.active == state.active
            &&& accepted.queue == state.queue.push(
                QueuedTurn::Pending { key, prompt, thinking, fast_mode: enabled, ticket: waiter },
            )
        }),
        ({
            let idle = DriverView {
                active: None::<ActiveTurn>,
                compacting: None::<ActiveCompaction>,
                failure: None::<PersistRolloutFailure>,
                ..state
            };
            let changed = idle.idle_command(TurnCommand::SetThinking { thinking, ticket }).0;
            let changed = changed.idle_command(TurnCommand::SetFastMode { enabled, ticket }).0;
            let started = changed.idle_command(
                TurnCommand::Prompt {
                    key,
                    prompt,
                    thinking: None,
                    fast_mode: None,
                    ticket: waiter,
                },
            ).1;
            &&& changed.queue == state.queue
            &&& started matches DriverAction::Start { thinking: used, fast_mode: mode, .. } && used
                == thinking && mode == enabled
        }),
{
}

/// A running turn can be cancelled once: the second request is refused, and
/// leaves the first one's caller waiting.
pub proof fn law_running_turn_cancels_once<C>(state: DriverView<C>, first: u64, second: u64)
    requires
        state.active is Some,
        !state.active->0.cancel_sent,
    ensures
        ({
            let key = state.active->0.key;
            let (once, action) = state.active_command(TurnCommand::Cancel { key, ticket: first });
            let (twice, answer) = once.active_command(TurnCommand::Cancel { key, ticket: second });
            &&& action is CancelActive
            &&& once.active->0.cancel_ticket == Some(first)
            &&& twice == once
            &&& answer == DriverAction::<C>::Answer {
                ticket: second,
                answer: Answer::Refused(Refusal::TurnNotCancellable),
            }
        }),
{
}

/// A fork without a stated conversation continues from the latest safe
/// boundary, and is refused as long as there is none.
pub proof fn law_fork_uses_latest_boundary<C>(
    state: DriverView<C>,
    boundary: Arc<C>,
    ticket: u64,
)
    ensures
        ({
            let command = TurnCommand::Fork { checkpoint: None, ticket };
            let published = state.with_boundary(Some(boundary));
            &&& published.branch_command(command) == DriverAction::Fork {
                checkpoint: boundary,
                model: state.model,
                thinking: state.thinking,
                fast_mode: state.fast_mode,
                ticket,
            }
            &&& state.latest is None ==> state.branch_command(command)
                == DriverAction::<C>::Answer {
                ticket,
                answer: Answer::Refused(Refusal::ForkBeforeCompletedTurn),
            }
        }),
{
}

/// Whether two states differ in nothing but what a step that starts something
/// may touch.
pub open spec fn same_defaults<C>(before: DriverView<C>, after: DriverView<C>) -> bool {
    &&& after.model == before.model
    &&& after.thinking == before.thinking
    &&& after.fast_mode == before.fast_mode
    &&& after.latest == before.latest
    &&& after.commands_open == before.commands_open
    &&& after.failure == before.failure
}

/// A prompt that finds the agent idle starts at once, as the next turn, under
/// its own identity and for its own caller; with its own effort and mode, or the
/// agent's where it states none. Nothing else changes.
pub proof fn law_idle_prompts_start_at_once<C>(
    state: DriverView<C>,
    key: TurnKey,
    prompt: Prompt,
    thinking: Option<Thinking>,
    fast_mode: Option<bool>,
    ticket: u64,
)
    requires
        state.idle(),
        state.failure is None,
        state.turn_index < u64::MAX,
    ensures
        ({
            let (after, action) = state.idle_command(
                TurnCommand::Prompt { key, prompt, thinking, fast_mode, ticket },
            );
            &&& action matches DriverAction::Start {
                turn_index,
                key: started,
                prompt: asked,
                thinking: effort,
                fast_mode: mode,
                ticket: waiter,
            } && turn_index == state.turn_index + 1 && started == key && asked == prompt && waiter
                == ticket && (thinking is Some ==> effort == thinking->0) && (thinking is None
                ==> effort == state.thinking) && (fast_mode is Some ==> mode == fast_mode->0) && (
            fast_mode is None ==> mode == state.fast_mode)
            &&& after.turn_index == state.turn_index + 1
            &&& after.active == Some(
                ActiveTurn { key, ticket, cancel_sent: false, cancel_ticket: None },
            )
            &&& after.compacting is None
            &&& after.queue == state.queue
            &&& after.flushes == state.flushes
            &&& after.waiting_compaction == state.waiting_compaction
            &&& same_defaults(state, after)
        }),
{
}

/// A prompt that finds something running waits last in the queue, with the
/// agent's effort and mode of that moment, whether a turn or a compaction runs;
/// what runs goes on.
pub proof fn law_busy_prompts_wait_their_turn<C>(
    state: DriverView<C>,
    key: TurnKey,
    prompt: Prompt,
    thinking: Option<Thinking>,
    fast_mode: Option<bool>,
    ticket: u64,
)
    ensures
        ({
            let command = TurnCommand::Prompt { key, prompt, thinking, fast_mode, ticket };
            let (during, action) = state.active_command(command);
            &&& state.active is Some ==> state.active_command(command) == state.busy_command(
                command,
            )
            &&& state.compacting is Some ==> state.compacting_command(command)
                == state.busy_command(command)
            &&& action is Continue
            &&& during.queue.len() == state.queue.len() + 1
            &&& forall|i: int|
                0 <= i < state.queue.len() ==> (#[trigger] during.queue[i]) == state.queue[i]
            &&& during.queue.last() matches QueuedTurn::Pending {
                key: kept,
                prompt: asked,
                thinking: effort,
                fast_mode: mode,
                ticket: waiter,
            } && kept == key && asked == prompt && effort == state.thinking && mode
                == state.fast_mode && waiter == ticket
            &&& during.active == state.active
            &&& during.compacting == state.compacting
            &&& during.waiting_compaction == state.waiting_compaction
            &&& during.flushes == state.flushes
            &&& during.turn_index == state.turn_index
            &&& same_defaults(state, during)
        }),
{
}

/// When nothing runs, the first of those who wait comes next: storage before a
/// compaction, a compaction before a turn, and turns in the order in which they
/// were accepted, each with what it was accepted with. Everybody else keeps
/// their place.
pub proof fn law_first_come_first_served<C>(state: DriverView<C>)
    requires
        state.idle(),
        state.turn_index < u64::MAX,
    ensures
        ({
            let (after, action) = state.next();
            let turn = state.queue[0];
            &&& same_defaults(state, after)
            &&& state.flushes.len() > 0 ==> {
                &&& action matches DriverAction::Flush { ticket } && ticket == state.flushes[0]
                &&& state.flushes == seq![state.flushes[0]] + after.flushes
                &&& after.waiting_compaction == state.waiting_compaction
                &&& after.queue == state.queue
                &&& after.turn_index == state.turn_index
                &&& after.idle()
            }
            &&& state.flushes.len() == 0 && state.waiting_compaction is Some ==> {
                &&& action matches DriverAction::StartCompaction {
                    turn_index,
                    thinking,
                    fast_mode,
                    ticket,
                } && turn_index == state.turn_index + 1 && thinking == state.thinking && fast_mode
                    == state.fast_mode && ticket == state.waiting_compaction->0
                &&& after.compacting matches Some(compaction) && compaction.ticket
                    == state.waiting_compaction->0 && !compaction.cancel_sent
                &&& after.active is None
                &&& after.waiting_compaction is None
                &&& after.queue == state.queue
                &&& after.turn_index == state.turn_index + 1
            }
            &&& state.flushes.len() == 0 && state.waiting_compaction is None && state.queue.len()
                > 0 ==> {
                &&& state.queue == seq![turn] + after.queue
                &&& after.turn_index == state.turn_index + 1
                &&& after.compacting is None
                &&& match turn {
                    QueuedTurn::Pending { key, prompt, thinking, fast_mode, ticket } => {
                        &&& action == DriverAction::<C>::Start {
                            turn_index: after.turn_index,
                            key,
                            prompt,
                            thinking,
                            fast_mode,
                            ticket,
                        }
                        &&& after.active matches Some(active) && active.key == key
                            && active.ticket == ticket && !active.cancel_sent
                            && active.cancel_ticket is None
                    },
                    QueuedTurn::Cancelled { prompt, thinking, fast_mode, ticket } => {
                        &&& action == DriverAction::<C>::ReportCancelled {
                            turn_index: after.turn_index,
                            prompt,
                            thinking,
                            fast_mode,
                            ticket,
                        }
                        &&& after.active is None
                    },
                }
            }
            &&& state.flushes.len() == 0 && state.waiting_compaction is None && state.queue.len()
                == 0 ==> {
                &&& after == state
                &&& action is Receive <==> state.commands_open
                &&& action is Stop <==> !state.commands_open
            }
        }),
{
    if state.flushes.len() > 0 {
        assert(state.flushes =~= seq![state.flushes[0]] + state.next().0.flushes);
    } else if state.waiting_compaction is None && state.queue.len() > 0 {
        assert(state.queue =~= seq![state.queue[0]] + state.next().0.queue);
    }
}

/// Added input reaches the running turn and that turn only: it is offered
/// exactly when the turn that it names runs, and refused otherwise, without
/// changing anything.
pub proof fn law_added_input_reaches_the_running_turn<C>(
    state: DriverView<C>,
    key: TurnKey,
    prompt: Prompt,
    ticket: u64,
)
    ensures
        ({
            let command = TurnCommand::Steer { key, prompt, ticket };
            let refused = DriverAction::<C>::Answer {
                ticket,
                answer: Answer::Refused(Refusal::TurnNotSteerable),
            };
            &&& state.idle() && state.failure is None ==> state.idle_command(command) == (
                state,
                refused,
            )
            &&& state.active is Some ==> state.active_command(command).0 == state
            &&& state.active is Some && state.active->0.key == key ==> state.active_command(
                command,
            ).1 == DriverAction::<C>::OfferSteer { prompt, ticket }
            &&& state.active is Some && state.active->0.key != key ==> state.active_command(
                command,
            ).1 == refused
            &&& state.compacting is Some ==> state.compacting_command(command) == (state, refused)
        }),
{
}

/// A request to cancel reaches the turn that it names: the running one is
/// signalled once and its end answers the request; a queued one is cancelled in
/// its place; any other cannot be cancelled.
pub proof fn law_cancellation_reaches_its_turn<C>(state: DriverView<C>, key: TurnKey, ticket: u64)
    ensures
        ({
            let command = TurnCommand::<C>::Cancel { key, ticket };
            let refused = DriverAction::<C>::Answer {
                ticket,
                answer: Answer::Refused(Refusal::TurnNotCancellable),
            };
            let done = DriverAction::<C>::Answer { ticket, answer: Answer::Done };
            let waits = exists|i: int|
                0 <= i < state.queue.len() && queue::is_pending(#[trigger] state.queue[i], key);
            &&& state.idle() && state.failure is None ==> state.idle_command(command) == (
                state,
                refused,
            )
            &&& state.active is Some && state.active->0.key == key ==> {
                let (after, action) = state.active_command(command);
                &&& state.active->0.cancel_sent ==> after == state && action == refused
                &&& !state.active->0.cancel_sent ==> {
                    &&& action is CancelActive
                    &&& after.active == Some(
                        ActiveTurn {
                            key,
                            ticket: state.active->0.ticket,
                            cancel_sent: true,
                            cancel_ticket: Some(ticket),
                        },
                    )
                    &&& after.queue == state.queue
                    &&& after.compacting == state.compacting
                    &&& after.waiting_compaction == state.waiting_compaction
                    &&& after.flushes == state.flushes
                    &&& after.turn_index == state.turn_index
                    &&& same_defaults(state, after)
                }
            }
            &&& (state.active is Some && state.active->0.key != key) || state.active is None ==> {
                let (after, action) = if state.active is Some {
                    state.active_command(command)
                } else {
                    state.compacting_command(command)
                };
                &&& action == if waits {
                    done
                } else {
                    refused
                }
                &&& after.queue == queue::with_cancelled(state.queue, key)
                &&& after.active == state.active
                &&& after.compacting == state.compacting
                &&& after.waiting_compaction == state.waiting_compaction
                &&& after.flushes == state.flushes
                &&& after.turn_index == state.turn_index
                &&& same_defaults(state, after)
            }
        }),
{
    queue::law_cancelling_touches_one_turn(state.queue, key);
}

/// A fork continues from the conversation that it states, whatever the latest
/// one is; a started agent has the model, effort and mode of this one. Neither
/// changes anything here, whatever runs.
pub proof fn law_branches_start_like_this_agent<C>(
    state: DriverView<C>,
    stated: Arc<C>,
    ticket: u64,
    command: TurnCommand<C>,
)
    requires
        state.failure is None,
    ensures
        state.branch_command(TurnCommand::Fork { checkpoint: Some(stated), ticket })
            == (DriverAction::Fork {
            checkpoint: stated,
            model: state.model,
            thinking: state.thinking,
            fast_mode: state.fast_mode,
            ticket,
        }),
        state.branch_command(TurnCommand::Spawn { ticket }) == (DriverAction::<C>::Spawn {
            model: state.model,
            thinking: state.thinking,
            fast_mode: state.fast_mode,
            ticket,
        }),
        command is Fork || command is Spawn ==> {
            let treated = (state, state.branch_command(command));
            &&& state.idle() ==> state.idle_command(command) == treated
            &&& state.active is Some ==> state.active_command(command) == treated
            &&& state.compacting is Some ==> state.compacting_command(command) == treated
        },
{
}

/// A change of the defaults changes that default, answers who asked and leaves
/// everything else, whatever runs.
pub proof fn law_new_defaults_change_nothing_else<C>(
    state: DriverView<C>,
    thinking: Thinking,
    enabled: bool,
    ticket: u64,
)
    requires
        state.failure is None,
    ensures
        ({
            let effort = TurnCommand::<C>::SetThinking { thinking, ticket };
            let mode = TurnCommand::<C>::SetFastMode { enabled, ticket };
            let done = DriverAction::<C>::Answer { ticket, answer: Answer::Done };
            let thinks = DriverView { thinking, ..state };
            let moves = DriverView { fast_mode: enabled, ..state };
            &&& state.idle() ==> state.idle_command(effort) == (thinks, done)
                && state.idle_command(mode) == (moves, done)
            &&& state.active is Some ==> state.active_command(effort) == (thinks, done)
                && state.active_command(mode) == (moves, done)
            &&& state.compacting is Some ==> state.compacting_command(effort) == (thinks, done)
                && state.compacting_command(mode) == (moves, done)
        }),
{
}

/// A requested compaction starts at once when nothing runs, as the next turn
/// and with the agent's effort and mode. While a turn runs it waits for its end,
/// and the caller of one that waited already is told that it was replaced.
pub proof fn law_compactions_wait_for_the_turn<C>(state: DriverView<C>, ticket: u64)
    requires
        state.failure is None,
        state.turn_index < u64::MAX,
    ensures
        ({
            let command = TurnCommand::<C>::Compact { ticket };
            &&& state.idle() ==> {
                let (after, action) = state.idle_command(command);
                &&& action matches DriverAction::StartCompaction {
                    turn_index,
                    thinking,
                    fast_mode,
                    ticket: waiter,
                } && turn_index == state.turn_index + 1 && thinking == state.thinking && fast_mode
                    == state.fast_mode && waiter == ticket
                &&& after.compacting == Some(ActiveCompaction { ticket, cancel_sent: false })
                &&& after.active is None
                &&& after.turn_index == state.turn_index + 1
                &&& after.queue == state.queue
                &&& after.flushes == state.flushes
                &&& after.waiting_compaction == state.waiting_compaction
                &&& same_defaults(state, after)
            }
            &&& state.active is Some ==> {
                let (after, action) = state.active_command(command);
                &&& after == (DriverView { waiting_compaction: Some(ticket), ..state })
                &&& state.waiting_compaction is None ==> action is Continue
                &&& state.waiting_compaction matches Some(earlier) ==> action
                    == DriverAction::<C>::Answer {
                    ticket: earlier,
                    answer: Answer::Refused(Refusal::Replaced),
                }
            }
        }),
{
}

/// Storage keeps up at once when nothing runs, and else after everybody who
/// asked before.
pub proof fn law_storage_is_served_in_order<C>(state: DriverView<C>, ticket: u64)
    requires
        state.failure is None,
    ensures
        ({
            let command = TurnCommand::<C>::Flush { ticket };
            let waiting = DriverView { flushes: state.flushes.push(ticket), ..state };
            &&& state.idle() ==> state.idle_command(command) == (
                state,
                DriverAction::<C>::Flush { ticket },
            )
            &&& state.active is Some ==> state.active_command(command) == (
                waiting,
                DriverAction::<C>::Continue,
            )
            &&& state.compacting is Some ==> state.compacting_command(command) == (
                waiting,
                DriverAction::<C>::Continue,
            )
        }),
{
}

/// When no further command can arrive, what runs is signalled once and goes on
/// to its end, and nothing waits for a start any more.
pub proof fn law_closing_cancels_what_runs<C>(state: DriverView<C>)
    requires
        state.exclusive(),
    ensures
        ({
            let (after, action) = state.closed();
            &&& !after.commands_open
            &&& after.flushes == state.flushes
            &&& after.turn_index == state.turn_index
            &&& after.model == state.model
            &&& after.thinking == state.thinking
            &&& after.fast_mode == state.fast_mode
            &&& after.latest == state.latest
            &&& after.failure == state.failure
            &&& state.idle() ==> {
                &&& action is Continue
                &&& after.idle()
                &&& after.queue == state.queue
                &&& after.waiting_compaction == state.waiting_compaction
            }
            &&& !state.idle() ==> after.queue.len() == 0 && after.waiting_compaction is None
            &&& state.active matches Some(turn) ==> {
                &&& after.active == Some(
                    ActiveTurn {
                        key: turn.key,
                        ticket: turn.ticket,
                        cancel_sent: true,
                        cancel_ticket: turn.cancel_ticket,
                    },
                )
                &&& after.compacting is None
                &&& action is CancelActive <==> !turn.cancel_sent
                &&& action is Continue <==> turn.cancel_sent
            }
            &&& state.compacting matches Some(compaction) ==> {
                &&& after.compacting == Some(
                    ActiveCompaction { ticket: compaction.ticket, cancel_sent: true },
                )
                &&& after.active is None
                &&& action is CancelActive <==> !compaction.cancel_sent
                &&& action is Continue <==> compaction.cancel_sent
            }
        }),
{
}

/// What ends at a boundary ends at that conversation; a failure without one
/// leaves the latest conversation as it was.
pub proof fn law_boundaries_are_the_latest_conversation<C>(
    state: DriverView<C>,
    turn: TurnOutcome<C>,
    compaction: CompactionOutcome<C>,
)
    ensures
        match turn {
            TurnOutcome::Completed(completed) => state.with_boundary(turn.boundary()).latest
                == Some(completed.checkpoint),
            TurnOutcome::Cancelled { checkpoint } => state.with_boundary(turn.boundary()).latest
                == Some(checkpoint),
            TurnOutcome::Failed { checkpoint: Some(checkpoint), .. } => state.with_boundary(
                turn.boundary(),
            ).latest == Some(checkpoint),
            TurnOutcome::Failed { checkpoint: None, .. } => state.with_boundary(
                turn.boundary(),
            ).latest == state.latest,
        },
        match compaction {
            CompactionOutcome::Completed { checkpoint } => state.with_boundary(
                compaction.boundary(),
            ).latest == Some(checkpoint),
            CompactionOutcome::Cancelled { checkpoint } => state.with_boundary(
                compaction.boundary(),
            ).latest == Some(checkpoint),
            CompactionOutcome::Failed { checkpoint: Some(checkpoint), .. } => state.with_boundary(
                compaction.boundary(),
            ).latest == Some(checkpoint),
            CompactionOutcome::Failed { checkpoint: None, .. } => state.with_boundary(
                compaction.boundary(),
            ).latest == state.latest,
        },
        forall|boundary: Option<Arc<C>>|
            (#[trigger] state.with_boundary(boundary)) == (DriverView {
                latest: state.with_boundary(boundary).latest,
                ..state
            }),
{
}

/// The caller of a turn learns its end: the completed turn, its cancellation or
/// its own error. Who cancelled it learns whether that came in time, and only a
/// cancelled turn needs a fresh connection.
pub proof fn law_callers_learn_how_their_turn_ended<C>(
    settled: SettledTurn<C>,
    state: DriverView<C>,
    outcome: TurnOutcome<C>,
)
    requires
        state.active is Some,
        settles(settled, state, outcome, None),
    ensures
        settled.ticket == state.active->0.ticket,
        settled.cancel_ticket == state.active->0.cancel_ticket,
        settled.stop is None,
        outcome is Completed <==> settled.reply is Completed,
        outcome matches TurnOutcome::Completed(completed) ==> settled.reply
            == TurnReply::Completed(completed) && settled.status@ == "completed"@
            && settled.otel_status@ == "OK"@,
        outcome is Cancelled ==> settled.status@ == "cancelled"@ && settled.otel_status@ == "ERROR"@
            && (settled.reply matches TurnReply::Failed(error) && error is TurnCancelled),
        outcome matches TurnOutcome::Failed { error, .. } ==> settled.reply == TurnReply::<
            C,
        >::Failed(error) && settled.status@ == "failed"@ && settled.otel_status@ == "ERROR"@,
        settled.cancel_answer == Answer::Done <==> outcome is Cancelled,
        settled.cancel_answer == Answer::Refused(Refusal::TurnNotCancellable) <==> !(
        outcome is Cancelled),
        settled.rebuild_model <==> outcome is Cancelled,
{
}

/// A failure to persist is what the caller of the turn or compaction learns,
/// whatever its own end was; so does who cancelled it, and the agent stops.
pub proof fn law_failures_to_persist_come_first<C>(
    settled: SettledTurn<C>,
    compacted: SettledCompaction,
    state: DriverView<C>,
    outcome: TurnOutcome<C>,
    end: CompactionOutcome<C>,
    failure: PersistRolloutFailure,
)
    ensures
        state.active is Some && settles(settled, state, outcome, Some(failure)) ==> {
            &&& settled.ticket == state.active->0.ticket
            &&& settled.cancel_ticket == state.active->0.cancel_ticket
            &&& settled.reply matches TurnReply::Failed(NanocodexError::PersistRollout {
                path,
                source,
            }) && path@ == failure.path@ && source@ == failure.source@
            &&& settled.status@ == "failed"@
            &&& settled.otel_status@ == "ERROR"@
            &&& settled.cancel_answer == Answer::Refused(Refusal::PersistRollout)
            &&& !settled.rebuild_model
            &&& settled.stop matches Some(stop) && stop.turns@.len() == state.queue.len()
        },
        state.compacting is Some && settles_compaction(compacted, state, end, Some(failure)) ==> {
            &&& compacted.ticket == state.compacting->0.ticket
            &&& compacted.reply matches Err(NanocodexError::PersistRollout { path, source })
                && path@ == failure.path@ && source@ == failure.source@
            &&& !compacted.rebuild_model
            &&& compacted.stop matches Some(stop) && stop.turns@.len() == state.queue.len()
        },
{
}

/// The caller of a requested compaction learns its end, and only a cancelled
/// one needs a fresh connection.
pub proof fn law_callers_learn_how_their_compaction_ended<C>(
    settled: SettledCompaction,
    state: DriverView<C>,
    outcome: CompactionOutcome<C>,
)
    requires
        state.compacting is Some,
        settles_compaction(settled, state, outcome, None),
    ensures
        settled.ticket == state.compacting->0.ticket,
        settled.stop is None,
        settled.reply is Ok <==> outcome is Completed,
        outcome is Cancelled ==> (settled.reply matches Err(error) && error is TurnCancelled),
        outcome matches CompactionOutcome::Failed { error, .. } ==> settled.reply == Err::<
            (),
            NanocodexError,
        >(error),
        settled.rebuild_model <==> outcome is Cancelled,
{
}

/// A turn that a failure to persist gave up is reported as it was accepted, and
/// its caller learns of the failure.
pub proof fn law_given_up_turns_keep_their_request(turn: QueuedTurn)
    ensures
        turn matches QueuedTurn::Pending { prompt, thinking, fast_mode, ticket, .. }
            ==> failed_turn(turn) == (FailedTurn {
            prompt,
            thinking,
            fast_mode,
            answer: TicketAnswer { ticket, answer: Answer::Refused(Refusal::PersistRollout) },
        }),
        turn matches QueuedTurn::Cancelled { prompt, thinking, fast_mode, ticket }
            ==> failed_turn(turn) == (FailedTurn {
            prompt,
            thinking,
            fast_mode,
            answer: TicketAnswer { ticket, answer: Answer::Refused(Refusal::PersistRollout) },
        }),
{
}

/// An answer goes to who sent the command. The one exception tells an earlier
/// caller that a newer compaction took its place.
pub proof fn law_answers_go_to_who_asked<C>(state: DriverView<C>, command: TurnCommand<C>)
    ensures
        state.idle() ==> (state.idle_command(command).1 matches DriverAction::Answer {
            ticket,
            ..
        } ==> ticket == command.waiter()),
        state.active is Some ==> (state.active_command(command).1 matches DriverAction::Answer {
            ticket,
            answer,
        } ==> ticket == command.waiter() || (command is Compact && state.waiting_compaction
            == Some(ticket) && answer == Answer::Refused(Refusal::Replaced))),
        state.compacting is Some ==> (state.compacting_command(
            command,
        ).1 matches DriverAction::Answer { ticket, answer } ==> ticket == command.waiter() || (
        command is Compact && state.waiting_compaction == Some(ticket) && answer
            == Answer::Refused(Refusal::Replaced))),
{
}

/// Whatever a command asks for, its caller is who holds its ticket.
pub proof fn law_commands_know_their_caller<C>(command: TurnCommand<C>)
    ensures
        command matches TurnCommand::Prompt { ticket, .. } ==> command.waiter() == ticket,
        command matches TurnCommand::Steer { ticket, .. } ==> command.waiter() == ticket,
        command matches TurnCommand::Cancel { ticket, .. } ==> command.waiter() == ticket,
        command matches TurnCommand::Fork { ticket, .. } ==> command.waiter() == ticket,
        command matches TurnCommand::Spawn { ticket } ==> command.waiter() == ticket,
        command matches TurnCommand::Compact { ticket } ==> command.waiter() == ticket,
        command matches TurnCommand::Flush { ticket } ==> command.waiter() == ticket,
        command matches TurnCommand::SetThinking { ticket, .. } ==> command.waiter() == ticket,
        command matches TurnCommand::SetFastMode { ticket, .. } ==> command.waiter() == ticket,
{
}

/// Every refusal is reported by an error of its own, and a failure to persist
/// by one that names the file and the cause.
pub proof fn law_refusals_have_their_own_errors(
    refusal: Refusal,
    failure: PersistRolloutFailure,
    error: NanocodexError,
)
    ensures
        refusal.reported_by(error) ==> match error {
            NanocodexError::TurnNotSteerable => refusal == Refusal::TurnNotSteerable,
            NanocodexError::SteerQueueFull => refusal == Refusal::SteerQueueFull,
            NanocodexError::TurnNotCancellable => refusal == Refusal::TurnNotCancellable,
            NanocodexError::TurnCancelled => refusal == Refusal::Replaced,
            NanocodexError::ForkBeforeCompletedTurn => refusal == Refusal::ForkBeforeCompletedTurn,
            NanocodexError::AgentStopped => refusal == Refusal::AgentStopped,
            NanocodexError::PersistRollout { .. } => refusal == Refusal::PersistRollout,
            _ => false,
        },
        failure.reported_by(error) ==> (error matches NanocodexError::PersistRollout {
            path,
            source,
        } && path@ == failure.path@ && source@ == failure.source@),
{
}

} // verus!
