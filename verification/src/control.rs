//! Stopping an agent: shutdown on request, and the stop after a failure to
//! persist its conversation.
use crate::config::{Model, Thinking};
use crate::driver::{Answer, PersistRolloutFailure, Refusal, TurnCommand};
use crate::error::NanocodexError;
use crate::queue;
use crate::queue::{mark_all_queued_turns_cancelled, QueuedTurn};
use std::sync::Arc;
use vstd::prelude::*;

verus! {

/// A command that waits for an agent that is about to stop.
pub enum DriverCommand<C> {
    /// A command of a turn or a branch.
    Turn(TurnCommand<C>),
    /// Run a turn or steer the running one, whichever fits.
    RoutePrompt {
        /// Who waits to learn the route.
        route_ticket: u64,
        /// Who waits for the turn's result.
        turn_ticket: u64,
    },
    /// Add a message of the developer.
    AppendDeveloperMessage {
        /// Who waits for the answer.
        ticket: u64,
    },
    /// Stop.
    Shutdown,
}

/// An answer to who holds a ticket.
#[derive(Clone, Copy, Debug, PartialEq, Eq, Structural)]
pub struct TicketAnswer {
    /// Who waits.
    pub ticket: u64,
    /// The answer.
    pub answer: Answer,
}

/// An answer that refuses for a reason.
pub open spec fn refused(ticket: u64, refusal: Refusal) -> TicketAnswer {
    TicketAnswer { ticket, answer: Answer::Refused(refusal) }
}

impl<C> DriverCommand<C> {
    /// Everybody who waits for something from the command.
    pub open spec fn tickets(self) -> Seq<u64> {
        match self {
            DriverCommand::Turn(command) => seq![command.waiter()],
            DriverCommand::RoutePrompt { route_ticket, turn_ticket } => seq![
                route_ticket,
                turn_ticket,
            ],
            DriverCommand::AppendDeveloperMessage { ticket } => seq![ticket],
            DriverCommand::Shutdown => Seq::empty(),
        }
    }

    /// The answers to a command that finds the agent failed: everybody who
    /// waits learns of the failure.
    pub open spec fn failed(self) -> Seq<TicketAnswer> {
        self.tickets().map_values(|ticket: u64| refused(ticket, Refusal::PersistRollout))
    }

    /// The answers to a command that finds the agent shutting down. A prompt
    /// has none yet: it joins the queue. Who waits for the result of a routed
    /// turn learns by the end of the wait that there is none.
    pub open spec fn stopped(self) -> Seq<TicketAnswer> {
        match self {
            DriverCommand::Turn(TurnCommand::Prompt { .. }) => Seq::empty(),
            DriverCommand::RoutePrompt { route_ticket, .. } => seq![
                refused(route_ticket, Refusal::AgentStopped),
            ],
            _ => self.tickets().map_values(|ticket: u64| refused(ticket, Refusal::AgentStopped)),
        }
    }

    /// The turn that a command adds to the queue of an agent that shuts down.
    pub open spec fn queued(self, thinking: Thinking, fast_mode: bool) -> Seq<QueuedTurn> {
        match self {
            DriverCommand::Turn(
                TurnCommand::Prompt { key, prompt, thinking: own, fast_mode: mode, ticket },
            ) => seq![
                QueuedTurn::Pending {
                    key,
                    prompt,
                    thinking: match own {
                        Some(own) => own,
                        None => thinking,
                    },
                    fast_mode: match mode {
                        Some(mode) => mode,
                        None => fast_mode,
                    },
                    ticket,
                },
            ],
            _ => Seq::empty(),
        }
    }
}

/// The answers to commands that find the agent failed, in order.
pub open spec fn all_failed<C>(commands: Seq<DriverCommand<C>>) -> Seq<TicketAnswer>
    decreases commands.len(),
{
    if commands.len() == 0 {
        Seq::empty()
    } else {
        all_failed(commands.drop_last()) + commands.last().failed()
    }
}

/// The answers to commands that find the agent shutting down, in order.
pub open spec fn all_stopped<C>(commands: Seq<DriverCommand<C>>) -> Seq<TicketAnswer>
    decreases commands.len(),
{
    if commands.len() == 0 {
        Seq::empty()
    } else {
        all_stopped(commands.drop_last()) + commands.last().stopped()
    }
}

/// The turns that commands add to the queue of an agent that shuts down.
pub open spec fn all_queued<C>(
    commands: Seq<DriverCommand<C>>,
    thinking: Thinking,
    fast_mode: bool,
) -> Seq<QueuedTurn>
    decreases commands.len(),
{
    if commands.len() == 0 {
        Seq::empty()
    } else {
        all_queued(commands.drop_last(), thinking, fast_mode) + commands.last().queued(
            thinking,
            fast_mode,
        )
    }
}

/// Defaults of turns that do not state their own.
#[derive(Clone, Copy, Debug)]
pub struct TurnDefaults {
    /// Model.
    pub model: Model,
    /// Effort.
    pub thinking: Thinking,
    /// Processing mode.
    pub fast_mode: bool,
}

/// Answers a command that finds the agent failed.
pub fn fail_command<C>(command: DriverCommand<C>) -> (r: Vec<TicketAnswer>)
    ensures
        r@ == command.failed(),
{
    let mut answers: Vec<TicketAnswer> = Vec::new();
    let answer = Answer::Refused(Refusal::PersistRollout);
    match command {
        DriverCommand::Turn(turn) => {
            let ticket: u64 = turn.ticket();
            answers.push(TicketAnswer { ticket, answer });
        },
        DriverCommand::RoutePrompt { route_ticket, turn_ticket } => {
            answers.push(TicketAnswer { ticket: route_ticket, answer });
            answers.push(TicketAnswer { ticket: turn_ticket, answer });
        },
        DriverCommand::AppendDeveloperMessage { ticket } => {
            answers.push(TicketAnswer { ticket, answer });
        },
        DriverCommand::Shutdown => {},
    }
    proof {
        assert(answers@ =~= command.failed());
    }
    answers
}

/// Stops after a failure to persist: every command that still waits and every
/// queued turn is answered with the failure, commands first, each in order.
pub fn begin_fail_stop<C>(commands: Vec<DriverCommand<C>>, turns: Vec<QueuedTurn>) -> (r: Vec<
    TicketAnswer,
>)
    ensures
        r@ == all_failed(commands@) + queue::waiters(turns@).map_values(
            |ticket: u64| refused(ticket, Refusal::PersistRollout),
        ),
{
    let ghost all = commands@;
    let mut commands = commands;
    let mut answers: Vec<TicketAnswer> = Vec::new();
    let ghost mut done: int = 0;
    while commands.len() > 0
        invariant
            0 <= done <= all.len(),
            commands@ == all.skip(done),
            answers@ == all_failed(all.take(done)),
        decreases commands@.len(),
    {
        let command = commands.remove(0);
        let mut more = fail_command(command);
        answers.append(&mut more);
        proof {
            assert(all.skip(done).remove(0) =~= all.skip(done + 1));
            assert(all.take(done + 1).drop_last() =~= all.take(done));
            assert(all.take(done + 1).last() == all.skip(done)[0]);
            done = done + 1;
        }
    }
    proof {
        assert(all.take(all.len() as int) =~= all);
    }
    let ghost first = answers@;
    let mut i: usize = 0;
    while i < turns.len()
        invariant
            i <= turns@.len(),
            answers@ == first + queue::waiters(turns@).map_values(
                |ticket: u64| refused(ticket, Refusal::PersistRollout),
            ).take(i as int),
        decreases turns@.len() - i,
    {
        let ticket: u64 = turns[i].ticket();
        answers.push(TicketAnswer { ticket, answer: Answer::Refused(Refusal::PersistRollout) });
        proof {
            let owed = queue::waiters(turns@).map_values(
                |ticket: u64| refused(ticket, Refusal::PersistRollout),
            );
            assert(owed.take(i as int + 1) =~= owed.take(i as int).push(owed[i as int]));
            assert(answers@ =~= first + owed.take(i as int + 1));
        }
        i = i + 1;
    }
    proof {
        let owed = queue::waiters(turns@).map_values(
            |ticket: u64| refused(ticket, Refusal::PersistRollout),
        );
        assert(owed.take(turns@.len() as int) =~= owed);
    }
    answers
}

/// Shuts down: prompts that still wait join the queue, every other command is
/// refused, and the whole queue is cancelled in its order.
pub fn begin_shutdown<C>(
    commands: Vec<DriverCommand<C>>,
    turns: &mut Vec<QueuedTurn>,
    defaults: TurnDefaults,
) -> (r: Vec<TicketAnswer>)
    ensures
        r@ == all_stopped(commands@),
        final(turns)@ == (old(turns)@ + all_queued(
            commands@,
            defaults.thinking,
            defaults.fast_mode,
        )).map_values(|turn: QueuedTurn| turn.cancelled()),
{
    let ghost all = commands@;
    let ghost before = turns@;
    let mut commands = commands;
    let mut answers: Vec<TicketAnswer> = Vec::new();
    let ghost mut done: int = 0;
    proof {
        assert(turns@ =~= before + all_queued(
            all.take(0),
            defaults.thinking,
            defaults.fast_mode,
        ));
    }
    while commands.len() > 0
        invariant
            0 <= done <= all.len(),
            commands@ == all.skip(done),
            answers@ == all_stopped(all.take(done)),
            turns@ == before + all_queued(
                all.take(done),
                defaults.thinking,
                defaults.fast_mode,
            ),
        decreases commands@.len(),
    {
        let ghost answered = answers@;
        let ghost waiting = turns@;
        let command = commands.remove(0);
        let ghost taken = command;
        proof {
            assert(all.skip(done).remove(0) =~= all.skip(done + 1));
            assert(all.take(done + 1).drop_last() =~= all.take(done));
            assert(all.take(done + 1).last() == all.skip(done)[0]);
        }
        let answer = Answer::Refused(Refusal::AgentStopped);
        match command {
            DriverCommand::Turn(
                TurnCommand::Prompt { key, prompt, thinking, fast_mode, ticket },
            ) => {
                let thinking = match thinking {
                    Some(thinking) => thinking,
                    None => defaults.thinking,
                };
                let fast_mode = match fast_mode {
                    Some(fast_mode) => fast_mode,
                    None => defaults.fast_mode,
                };
                turns.push(QueuedTurn::Pending { key, prompt, thinking, fast_mode, ticket });
            },
            DriverCommand::Turn(turn) => {
                let ticket: u64 = turn.ticket();
                answers.push(TicketAnswer { ticket, answer });
            },
            DriverCommand::RoutePrompt { route_ticket, turn_ticket: _ } => {
                answers.push(TicketAnswer { ticket: route_ticket, answer });
            },
            DriverCommand::AppendDeveloperMessage { ticket } => {
                answers.push(TicketAnswer { ticket, answer });
            },
            DriverCommand::Shutdown => {},
        }
        proof {
            assert(answers@ =~= answered + taken.stopped());
            assert(turns@ =~= waiting + taken.queued(defaults.thinking, defaults.fast_mode));
            assert(turns@ =~= before + all_queued(
                all.take(done + 1),
                defaults.thinking,
                defaults.fast_mode,
            ));
            done = done + 1;
        }
    }
    proof {
        assert(all.take(all.len() as int) =~= all);
    }
    mark_all_queued_turns_cancelled(turns);
    answers
}

/// Answers a command that is none of a turn or a branch when no turn runs.
pub fn refuse_idle_command<C>(command: DriverCommand<C>) -> (r: Vec<TicketAnswer>)
    requires
        !(command is Turn),
    ensures
        r@ == command.stopped(),
{
    let mut answers: Vec<TicketAnswer> = Vec::new();
    let answer = Answer::Refused(Refusal::AgentStopped);
    match command {
        DriverCommand::Turn(_) => {},
        DriverCommand::RoutePrompt { route_ticket, turn_ticket: _ } => {
            answers.push(TicketAnswer { ticket: route_ticket, answer });
        },
        DriverCommand::AppendDeveloperMessage { ticket } => {
            answers.push(TicketAnswer { ticket, answer });
        },
        DriverCommand::Shutdown => {},
    }
    proof {
        assert(answers@ =~= command.stopped());
    }
    answers
}

/// After a failure to persist, every caller of every waiting command learns of
/// it, once for each ticket and in order; nobody is answered anything else.
pub proof fn law_fail_stop_answers_everybody<C>(commands: Seq<DriverCommand<C>>)
    ensures
        forall|i: int|
            0 <= i < all_failed(commands).len() ==> (#[trigger] all_failed(commands)[i]).answer
                == Answer::Refused(Refusal::PersistRollout),
        all_failed(commands).map_values(|answer: TicketAnswer| answer.ticket) == all_tickets(
            commands,
        ),
    decreases commands.len(),
{
    if commands.len() > 0 {
        law_fail_stop_answers_everybody(commands.drop_last());
        let before = all_failed(commands.drop_last());
        let last = commands.last().failed();
        assert forall|i: int| 0 <= i < all_failed(commands).len() implies (
        #[trigger] all_failed(commands)[i]).answer == Answer::Refused(
            Refusal::PersistRollout,
        ) by {
            if i < before.len() {
                assert(all_failed(commands)[i] == before[i]);
            } else {
                assert(all_failed(commands)[i] == last[i - before.len()]);
            }
        }
        let ticket_of = |answer: TicketAnswer| answer.ticket;
        assert(last.map_values(ticket_of) =~= commands.last().tickets());
        assert((before + last).map_values(ticket_of) =~= before.map_values(ticket_of)
            + last.map_values(ticket_of));
    } else {
        assert(all_failed(commands).map_values(|answer: TicketAnswer| answer.ticket)
            =~= all_tickets(commands));
    }
}

/// Everybody who waits for something from some command, in order.
pub open spec fn all_tickets<C>(commands: Seq<DriverCommand<C>>) -> Seq<u64>
    decreases commands.len(),
{
    if commands.len() == 0 {
        Seq::empty()
    } else {
        all_tickets(commands.drop_last()) + commands.last().tickets()
    }
}

/// A shutdown leaves no turn that would still run, and keeps everybody who
/// waits for a queued turn in the queue.
pub proof fn law_shutdown_leaves_no_pending_turn(turns: Seq<QueuedTurn>)
    ensures
        ({
            let after = turns.map_values(|turn: QueuedTurn| turn.cancelled());
            &&& forall|i: int| 0 <= i < after.len() ==> (#[trigger] after[i]) is Cancelled
            &&& queue::waiters(after) == queue::waiters(turns)
        }),
{
    let after = turns.map_values(|turn: QueuedTurn| turn.cancelled());
    assert(queue::waiters(after) =~= queue::waiters(turns));
}

/// The first failure to persist, shared by everybody who asks later.
pub struct DriverFailure {
    /// The failure.
    pub first: Option<PersistRolloutFailure>,
}

impl DriverFailure {
    /// Starts without a failure.
    pub fn new() -> (r: Self)
        ensures
            r.first is None,
    {
        DriverFailure { first: None }
    }

    /// Records a failure, unless there is one already.
    pub fn record(&mut self, failure: PersistRolloutFailure)
        ensures
            final(self).first == match old(self).first {
                Some(first) => Some(first),
                None => Some(failure),
            },
    {
        if self.first.is_none() {
            self.first = Some(failure);
        }
    }

    /// Returns the error that reports the recorded failure.
    pub fn error(&self) -> (r: Option<NanocodexError>)
        ensures
            match self.first {
                Some(first) => r is Some && first.reported_by(r->0),
                None => r is None,
            },
    {
        match &self.first {
            Some(first) => Some(first.clone().into_error()),
            None => None,
        }
    }

    /// Fails when a failure was recorded.
    pub fn check(&self) -> (r: Result<(), NanocodexError>)
        ensures
            match self.first {
                Some(first) => r is Err && first.reported_by(r->Err_0),
                None => r is Ok,
            },
    {
        match self.error() {
            Some(error) => Err(error),
            None => Ok(()),
        }
    }
}

/// How far a shutdown is.
pub enum ShutdownPhase {
    /// Nobody asked for it.
    Running,
    /// It was asked for.
    Requested,
    /// It is over, with this outcome.
    Complete(ShutdownOutcome),
}

/// Progress of a shutdown and those who wait for its end.
pub struct DriverShutdown {
    /// How far the shutdown is.
    pub phase: ShutdownPhase,
    /// Those who wait for its end.
    pub waiters: Vec<u64>,
}

/// The end of a shutdown.
pub struct ShutdownOutcome {
    /// The failure to persist that the shutdown ended with, if any.
    pub failure: Option<PersistRolloutFailure>,
}

impl Clone for ShutdownOutcome {
    fn clone(&self) -> (r: Self)
        ensures
            r == *self,
    {
        match &self.failure {
            Some(failure) => ShutdownOutcome { failure: Some(failure.clone()) },
            None => ShutdownOutcome { failure: None },
        }
    }
}

impl ShutdownOutcome {
    /// Returns what who asked for the shutdown learns: a failure to persist is
    /// what the shutdown failed with.
    pub fn into_result(self) -> (r: Result<(), NanocodexError>)
        ensures
            match self.failure {
                None => r is Ok,
                Some(failure) => r matches Err(NanocodexError::Shutdown(error))
                    && failure.reported_by(*error),
            },
    {
        match self.failure {
            None => Ok(()),
            Some(failure) => Err(NanocodexError::Shutdown(Arc::new(failure.into_error()))),
        }
    }
}

/// What a request for a shutdown leads to.
pub struct ShutdownRequest {
    /// Whether this is the first request, which starts the shutdown.
    pub starts: bool,
    /// The outcome, when the shutdown is over already.
    pub outcome: Option<ShutdownOutcome>,
}

impl DriverShutdown {
    /// Starts with nobody asking.
    pub fn new() -> (r: Self)
        ensures
            r.phase is Running,
            r.waiters@.len() == 0,
    {
        DriverShutdown { phase: ShutdownPhase::Running, waiters: Vec::new() }
    }

    /// Asks for a shutdown. The first request starts it; a request after its
    /// end gets its outcome at once; any other waits.
    pub fn request(&mut self, ticket: u64) -> (r: ShutdownRequest)
        ensures
            r.starts == (old(self).phase is Running),
            match old(self).phase {
                ShutdownPhase::Complete(outcome) => {
                    &&& r.outcome == Some(outcome)
                    &&& *final(self) == *old(self)
                },
                _ => {
                    &&& r.outcome is None
                    &&& final(self).phase is Requested
                    &&& final(self).waiters@ == old(self).waiters@.push(ticket)
                },
            },
    {
        let (starts, outcome) = match &self.phase {
            ShutdownPhase::Running => (true, None),
            ShutdownPhase::Requested => (false, None),
            ShutdownPhase::Complete(outcome) => (false, Some(outcome.clone())),
        };
        if outcome.is_none() {
            self.phase = ShutdownPhase::Requested;
            self.waiters.push(ticket);
        }
        ShutdownRequest { starts, outcome }
    }

    /// Returns whether a shutdown was asked for.
    pub fn requested(&self) -> (r: bool)
        ensures
            r == !(self.phase is Running),
    {
        match &self.phase {
            ShutdownPhase::Running => false,
            _ => true,
        }
    }

    /// Ends the shutdown and returns everybody who waited for that.
    pub fn complete(&mut self, outcome: ShutdownOutcome) -> (r: Vec<u64>)
        ensures
            r@ == old(self).waiters@,
            final(self).waiters@.len() == 0,
            final(self).phase == ShutdownPhase::Complete(outcome),
    {
        self.phase = ShutdownPhase::Complete(outcome);
        let mut waiters: Vec<u64> = Vec::new();
        std::mem::swap(&mut waiters, &mut self.waiters);
        waiters
    }
}

/// Everybody who waits for something from a command learns of a failure to
/// persist.
pub proof fn law_failed_commands_tell_their_callers<C>(command: DriverCommand<C>)
    ensures
        match command {
            DriverCommand::Turn(turn) => {
                &&& command.failed().len() == 1
                &&& command.failed()[0].ticket == turn.waiter()
            },
            DriverCommand::RoutePrompt { route_ticket, turn_ticket } => {
                &&& command.failed().len() == 2
                &&& command.failed()[0].ticket == route_ticket
                &&& command.failed()[1].ticket == turn_ticket
            },
            DriverCommand::AppendDeveloperMessage { ticket } => {
                &&& command.failed().len() == 1
                &&& command.failed()[0].ticket == ticket
            },
            DriverCommand::Shutdown => command.failed().len() == 0,
        },
        forall|i: int|
            0 <= i < command.failed().len() ==> (#[trigger] command.failed()[i]).answer
                == Answer::Refused(Refusal::PersistRollout),
{
}

/// A shutdown refuses every command but a prompt, which joins the queue with
/// its own effort and mode, or the defaults where it states none, and with the
/// same caller.
pub proof fn law_shutdown_refuses_or_queues<C>(
    command: DriverCommand<C>,
    thinking: Thinking,
    fast_mode: bool,
)
    ensures
        command matches DriverCommand::Turn(
            TurnCommand::Prompt { key, prompt, thinking: own, fast_mode: mode, ticket },
        ) ==> {
            &&& command.stopped().len() == 0
            &&& command.queued(thinking, fast_mode).len() == 1
            &&& command.queued(thinking, fast_mode)[0] matches QueuedTurn::Pending {
                key: kept,
                prompt: asked,
                thinking: effort,
                fast_mode: used,
                ticket: waiter,
            } && kept == key && asked == prompt && waiter == ticket && (own is Some ==> effort
                == own->0) && (own is None ==> effort == thinking) && (mode is Some ==> used
                == mode->0) && (mode is None ==> used == fast_mode)
        },
        command matches DriverCommand::Turn(turn) ==> !(turn is Prompt) ==> command.stopped()
            == seq![TicketAnswer {
            ticket: turn.waiter(),
            answer: Answer::Refused(Refusal::AgentStopped),
        }],
        command matches DriverCommand::RoutePrompt { route_ticket, .. } ==> command.stopped()
            == seq![TicketAnswer {
            ticket: route_ticket,
            answer: Answer::Refused(Refusal::AgentStopped),
        }],
        command matches DriverCommand::AppendDeveloperMessage { ticket } ==> command.stopped()
            == seq![TicketAnswer { ticket, answer: Answer::Refused(Refusal::AgentStopped) }],
        command is Shutdown ==> command.stopped().len() == 0,
        !(command matches DriverCommand::Turn(TurnCommand::Prompt { .. })) ==> command.queued(
            thinking,
            fast_mode,
        ).len() == 0,
{
    assert(command matches DriverCommand::Turn(turn) ==> !(turn is Prompt) ==> command.stopped()
        =~= seq![TicketAnswer {
        ticket: turn.waiter(),
        answer: Answer::Refused(Refusal::AgentStopped),
    }]);
    assert(command matches DriverCommand::AppendDeveloperMessage { ticket } ==> command.stopped()
        =~= seq![TicketAnswer { ticket, answer: Answer::Refused(Refusal::AgentStopped) }]);
}

/// Commands are answered and queued one after another: what comes before keeps
/// its answers and its place, and a later command adds its own behind them.
pub proof fn law_commands_are_dealt_with_in_order<C>(
    commands: Seq<DriverCommand<C>>,
    command: DriverCommand<C>,
    thinking: Thinking,
    fast_mode: bool,
)
    ensures
        all_failed(Seq::<DriverCommand<C>>::empty()).len() == 0,
        all_stopped(Seq::<DriverCommand<C>>::empty()).len() == 0,
        all_queued(Seq::<DriverCommand<C>>::empty(), thinking, fast_mode).len() == 0,
        all_failed(commands.push(command)) == all_failed(commands) + command.failed(),
        all_stopped(commands.push(command)) == all_stopped(commands) + command.stopped(),
        all_queued(commands.push(command), thinking, fast_mode) == all_queued(
            commands,
            thinking,
            fast_mode,
        ) + command.queued(thinking, fast_mode),
        all_tickets(commands.push(command)) == all_tickets(commands) + command.tickets(),
{
    assert(commands.push(command).drop_last() =~= commands);
}

} // verus!
