//! The caller's side of an agent: what is accepted before the agent sees it.
use crate::config::Thinking;
use crate::control::DriverFailure;
use crate::driver::TurnCommand;
use crate::error::NanocodexError;
use crate::prompt::Prompt;
use crate::queue::TurnKey;
use crate::session_id::SessionId;
use crate::text::same_text;
use std::sync::Arc;
use vstd::prelude::*;
use vstd::string::*;

verus! {

/// What came of a command that was sent to an agent.
pub enum CommandReply<T> {
    /// The agent no longer takes commands, or stopped before it answered.
    Stopped,
    /// The agent answered.
    Answered(Result<T, NanocodexError>),
}

/// Turns what came of a command into the caller's result. An agent that stopped
/// because it could not persist its conversation says so.
pub fn request_command<T>(reply: CommandReply<T>, failure: &DriverFailure) -> (r: Result<
    T,
    NanocodexError,
>)
    ensures
        match reply {
            CommandReply::Stopped => match failure.first {
                Some(first) => r is Err && first.reported_by(r->Err_0),
                None => r == Err::<T, NanocodexError>(NanocodexError::AgentStopped),
            },
            CommandReply::Answered(answer) => r == answer,
        },
{
    match reply {
        CommandReply::Stopped => match failure.error() {
            Some(error) => Err(error),
            None => Err(NanocodexError::AgentStopped),
        },
        CommandReply::Answered(answer) => answer,
    }
}

/// The caller's side of an agent.
pub struct Nanocodex {
    next_turn: u64,
    lineage_id: String,
    session_id: SessionId,
}

/// What the caller's side of an agent knows.
pub struct HandleView {
    /// Number of the next turn.
    pub next_turn: u64,
    /// Identity of the conversation and its branches.
    pub lineage_id: Seq<char>,
    /// Identity of the session.
    pub session_id: SessionId,
}

impl View for Nanocodex {
    type V = HandleView;

    closed spec fn view(&self) -> HandleView {
        HandleView {
            next_turn: self.next_turn,
            lineage_id: self.lineage_id@,
            session_id: self.session_id,
        }
    }
}

/// A conversation that a turn committed.
pub struct CommittedSession<C> {
    /// Identity of the conversation and its branches.
    pub lineage_id: String,
    /// The boundary.
    pub model: Arc<C>,
}

impl Nanocodex {
    /// The caller's side of a new agent.
    pub fn new(session_id: SessionId, lineage_id: String) -> (r: Self)
        ensures
            r@ == (HandleView { next_turn: 0, lineage_id: lineage_id@, session_id }),
    {
        Nanocodex { next_turn: 0, lineage_id, session_id }
    }

    /// Returns the stable identity used by events and transport metadata.
    pub fn session_id(&self) -> (r: SessionId)
        ensures
            r == self@.session_id,
    {
        self.session_id
    }

    /// Accepts a prompt and numbers its turn. An empty prompt is refused and
    /// takes no number.
    pub fn prompt<C>(&mut self, prompt: Prompt, ticket: u64) -> (r: Result<
        TurnCommand<C>,
        NanocodexError,
    >)
        ensures
            match r {
                Ok(command) => {
                    &&& !prompt.instruction.holds_nothing()
                    &&& command == (TurnCommand::<C>::Prompt {
                        key: TurnKey { number: old(self)@.next_turn },
                        prompt,
                        thinking: None,
                        fast_mode: None,
                        ticket,
                    })
                    &&& final(self)@ == (HandleView {
                        next_turn: if old(self)@.next_turn == u64::MAX {
                            0
                        } else {
                            (old(self)@.next_turn + 1) as u64
                        },
                        ..old(self)@
                    })
                },
                Err(error) => {
                    &&& prompt.instruction.holds_nothing()
                    &&& error matches NanocodexError::InvalidRequest(reason) && reason@
                        == "prompt instruction must not be empty"@
                    &&& final(self)@ == old(self)@
                },
            },
    {
        if prompt.instruction.is_empty() {
            return Err(
                NanocodexError::InvalidRequest("prompt instruction must not be empty".to_owned()),
            );
        }
        let key = TurnKey { number: self.next_turn };
        self.next_turn =
        if self.next_turn == u64::MAX {
            0
        } else {
            self.next_turn + 1
        };
        Ok(TurnCommand::Prompt { key, prompt, thinking: None, fast_mode: None, ticket })
    }

    /// Asks for another effort of the turns that are accepted from now on.
    pub fn set_thinking<C>(&self, thinking: Thinking, ticket: u64) -> (r: TurnCommand<C>)
        ensures
            r == (TurnCommand::<C>::SetThinking { thinking, ticket }),
    {
        TurnCommand::SetThinking { thinking, ticket }
    }

    /// Asks for another processing mode of the turns that are accepted from now
    /// on.
    pub fn set_fast_mode<C>(&self, enabled: bool, ticket: u64) -> (r: TurnCommand<C>)
        ensures
            r == (TurnCommand::<C>::SetFastMode { enabled, ticket }),
    {
        TurnCommand::SetFastMode { enabled, ticket }
    }

    /// Asks for a compaction of the conversation.
    pub fn compact<C>(&self, ticket: u64) -> (r: TurnCommand<C>)
        ensures
            r == (TurnCommand::<C>::Compact { ticket }),
    {
        TurnCommand::Compact { ticket }
    }

    /// Asks durable storage to keep up with the conversation.
    pub fn flush_rollout<C>(&self, ticket: u64) -> (r: TurnCommand<C>)
        ensures
            r == (TurnCommand::<C>::Flush { ticket }),
    {
        TurnCommand::Flush { ticket }
    }

    /// Asks for an agent with an empty conversation.
    pub fn spawn<C>(&self, ticket: u64) -> (r: TurnCommand<C>)
        ensures
            r == (TurnCommand::<C>::Spawn { ticket }),
    {
        TurnCommand::Spawn { ticket }
    }

    /// Asks for a branch from the latest safe boundary.
    pub fn fork<C>(&self, ticket: u64) -> (r: TurnCommand<C>)
        ensures
            r == (TurnCommand::<C>::Fork { checkpoint: None::<Arc<C>>, ticket }),
    {
        TurnCommand::Fork { checkpoint: None, ticket }
    }

    /// Asks for a branch from a committed turn of the same conversation.
    pub fn fork_from<C>(&self, completed: &CommittedSession<C>, ticket: u64) -> (r: Result<
        TurnCommand<C>,
        NanocodexError,
    >)
        ensures
            r == if completed.lineage_id@ == self@.lineage_id {
                Ok::<TurnCommand<C>, NanocodexError>(
                    TurnCommand::<C>::Fork { checkpoint: Some(completed.model), ticket },
                )
            } else {
                Err(NanocodexError::CheckpointLineageMismatch)
            },
    {
        if !same_text(completed.lineage_id.as_str(), self.lineage_id.as_str()) {
            return Err(NanocodexError::CheckpointLineageMismatch);
        }
        Ok(TurnCommand::Fork { checkpoint: Some(completed.model.clone()), ticket })
    }
}

/// The side of an agent that its own tools are given. It does not keep the
/// agent alive.
pub struct AgentHandle {
    /// Whether the agent still takes commands.
    pub alive: bool,
}

impl AgentHandle {
    /// Asks for an agent with an empty conversation.
    pub fn spawn<C>(&self, ticket: u64) -> (r: Result<TurnCommand<C>, NanocodexError>)
        ensures
            r == if self.alive {
                Ok::<TurnCommand<C>, NanocodexError>(TurnCommand::<C>::Spawn { ticket })
            } else {
                Err(NanocodexError::AgentStopped)
            },
    {
        if !self.alive {
            return Err(NanocodexError::AgentStopped);
        }
        Ok(TurnCommand::Spawn { ticket })
    }

    /// Asks for a branch from the latest safe boundary.
    pub fn fork<C>(&self, ticket: u64) -> (r: Result<TurnCommand<C>, NanocodexError>)
        ensures
            r == if self.alive {
                Ok::<TurnCommand<C>, NanocodexError>(
                    TurnCommand::<C>::Fork { checkpoint: None::<Arc<C>>, ticket },
                )
            } else {
                Err(NanocodexError::AgentStopped)
            },
    {
        if !self.alive {
            return Err(NanocodexError::AgentStopped);
        }
        Ok(TurnCommand::Fork { checkpoint: None, ticket })
    }
}

} // verus!
