use nanocodex::config::{Model, Thinking};
use nanocodex::control::{
    begin_fail_stop, begin_shutdown, fail_command, refuse_idle_command, DriverCommand,
    DriverFailure, DriverShutdown, ShutdownOutcome, TicketAnswer, TurnDefaults,
};
use nanocodex::driver::{
    steer_answer, ActiveCompaction, AgentDriver, Answer, CompactionOutcome, CompletedTurn,
    DriverAction, PersistRolloutFailure, Refusal, SteerOffer, TurnCommand, TurnOutcome, TurnReply,
};
use nanocodex::error::NanocodexError;
use nanocodex::handle::{request_command, AgentHandle, CommandReply, CommittedSession, Nanocodex};
use nanocodex::prompt::Prompt;
use nanocodex::queue::{
    cancel_queued_turn, mark_all_queued_turns_cancelled, QueuedTurn, TurnKey,
};
use nanocodex::rollout::RolloutTurnStatus;
use nanocodex::session_id::SessionId;
use nanocodex::run::turn::TurnCompletion;
use nanocodex::usage::{TurnUsage, TurnUsageCounts};
use std::sync::Arc;

fn key(number: u64) -> TurnKey {
    TurnKey { number }
}

fn ask(number: u64, ticket: u64) -> TurnCommand<&'static str> {
    TurnCommand::Prompt {
        key: key(number),
        prompt: Prompt::new("go"),
        thinking: None,
        fast_mode: None,
        ticket,
    }
}

fn pending(number: u64, ticket: u64) -> QueuedTurn {
    QueuedTurn::Pending {
        key: key(number),
        prompt: Prompt::new("go"),
        thinking: Thinking::Low,
        fast_mode: false,
        ticket,
    }
}

fn refused(ticket: u64, refusal: Refusal) -> TicketAnswer {
    TicketAnswer { ticket, answer: Answer::Refused(refusal) }
}

fn driver() -> AgentDriver<&'static str> {
    AgentDriver::new(Model::sol(), Thinking::Medium, false, None)
}

fn failure() -> PersistRolloutFailure {
    PersistRolloutFailure { path: "rollout.jsonl".to_owned(), source: "durability failed".to_owned() }
}

fn completed(checkpoint: &'static str) -> TurnOutcome<&'static str> {
    TurnOutcome::Completed(CompletedTurn {
        completion: TurnCompletion::Message { final_message: "done".to_owned() },
        usage: TurnUsage::from_counts(TurnUsageCounts::new(), None),
        checkpoint: Arc::new(checkpoint),
    })
}

fn start(driver: &mut AgentDriver<&'static str>, number: u64, ticket: u64) {
    assert!(matches!(
        driver.handle_idle_command(ask(number, ticket)),
        DriverAction::Start { .. }
    ));
}

#[test]
fn turns_run_one_after_the_other() {
    let mut driver = driver();
    assert!(matches!(driver.next(), DriverAction::Receive));
    start(&mut driver, 0, 10);
    assert_eq!(driver.turn_index(), 1);
    assert!(matches!(driver.handle_active_command(ask(1, 11)), DriverAction::Continue));
    assert!(matches!(driver.handle_active_command(ask(2, 12)), DriverAction::Continue));
    assert_eq!(driver.queued(), 2);
    let settled = driver.settle(completed("first"), None);
    assert_eq!(settled.ticket, 10);
    assert_eq!((settled.status, settled.otel_status), ("completed", "OK"));
    assert!(matches!(
        driver.next(),
        DriverAction::Start { turn_index: 2, key: TurnKey { number: 1 }, ticket: 11, .. }
    ));
    driver.settle(completed("second"), None);
    assert!(matches!(driver.next(), DriverAction::Start { turn_index: 3, ticket: 12, .. }));
}

#[test]
fn settings_reach_later_turns_only() {
    let mut driver = driver();
    start(&mut driver, 0, 10);
    driver.handle_active_command(ask(1, 11));
    assert!(matches!(
        driver.handle_active_command(TurnCommand::SetThinking {
            thinking: Thinking::High,
            ticket: 20
        }),
        DriverAction::Answer { ticket: 20, answer: Answer::Done }
    ));
    driver.handle_active_command(TurnCommand::SetFastMode { enabled: true, ticket: 21 });
    driver.handle_active_command(ask(2, 12));
    driver.settle(completed("first"), None);
    assert!(matches!(
        driver.next(),
        DriverAction::Start { thinking: Thinking::Medium, fast_mode: false, ticket: 11, .. }
    ));
    driver.settle(completed("second"), None);
    assert!(matches!(
        driver.next(),
        DriverAction::Start { thinking: Thinking::High, fast_mode: true, ticket: 12, .. }
    ));
}

#[test]
fn a_running_turn_is_cancelled_once() {
    let mut driver = driver();
    start(&mut driver, 0, 10);
    let cancel = |ticket: u64| TurnCommand::Cancel { key: key(0), ticket };
    assert!(matches!(driver.handle_active_command(cancel(20)), DriverAction::CancelActive));
    assert!(matches!(
        driver.handle_active_command(cancel(21)),
        DriverAction::Answer { ticket: 21, answer: Answer::Refused(Refusal::TurnNotCancellable) }
    ));
    let settled = driver.settle(TurnOutcome::Cancelled { checkpoint: Arc::new("cut") }, None);
    assert_eq!(settled.cancel_ticket, Some(20));
    assert_eq!(settled.cancel_answer, Answer::Done);
    assert!(settled.rebuild_model);
    assert!(matches!(settled.reply, TurnReply::Failed(NanocodexError::TurnCancelled)));
    assert!(matches!(
        driver.handle_idle_command(TurnCommand::Cancel { key: key(0), ticket: 22 }),
        DriverAction::Answer { answer: Answer::Refused(Refusal::TurnNotCancellable), .. }
    ));
}

#[test]
fn queued_turns_are_cancelled_in_their_place() {
    let mut driver = driver();
    start(&mut driver, 0, 10);
    driver.handle_active_command(ask(1, 11));
    driver.handle_active_command(ask(2, 12));
    assert!(matches!(
        driver.handle_active_command(TurnCommand::Cancel { key: key(1), ticket: 20 }),
        DriverAction::Answer { ticket: 20, answer: Answer::Done }
    ));
    assert!(matches!(
        driver.handle_active_command(TurnCommand::Cancel { key: key(9), ticket: 21 }),
        DriverAction::Answer { answer: Answer::Refused(Refusal::TurnNotCancellable), .. }
    ));
    driver.settle(completed("first"), None);
    assert!(matches!(
        driver.next(),
        DriverAction::ReportCancelled { turn_index: 2, ticket: 11, .. }
    ));
    assert!(matches!(driver.next(), DriverAction::Start { turn_index: 3, ticket: 12, .. }));

    let mut queue = vec![pending(1, 11), pending(2, 12)];
    assert!(cancel_queued_turn(&mut queue, key(2)));
    assert!(!cancel_queued_turn(&mut queue, key(2)));
    assert!(matches!(queue[0], QueuedTurn::Pending { .. }));
    mark_all_queued_turns_cancelled(&mut queue);
    assert!(queue.iter().all(|turn| matches!(turn, QueuedTurn::Cancelled { .. })));
    assert_eq!(queue[0].ticket(), 11);
}

#[test]
fn only_the_running_turn_is_steered() {
    let mut driver = driver();
    let steer = |number: u64| TurnCommand::Steer {
        key: key(number),
        prompt: Prompt::new("more"),
        ticket: 30,
    };
    assert!(matches!(
        driver.handle_idle_command(steer(0)),
        DriverAction::Answer { answer: Answer::Refused(Refusal::TurnNotSteerable), .. }
    ));
    start(&mut driver, 0, 10);
    assert!(matches!(
        driver.handle_active_command(steer(0)),
        DriverAction::OfferSteer { ticket: 30, .. }
    ));
    assert!(matches!(
        driver.handle_active_command(steer(1)),
        DriverAction::Answer { answer: Answer::Refused(Refusal::TurnNotSteerable), .. }
    ));
    assert_eq!(steer_answer(SteerOffer::Accepted), Answer::Done);
    assert_eq!(steer_answer(SteerOffer::Full), Answer::Refused(Refusal::SteerQueueFull));
    assert_eq!(steer_answer(SteerOffer::Closed), Answer::Refused(Refusal::TurnNotSteerable));
}

#[test]
fn forks_use_the_latest_boundary() {
    let mut driver = driver();
    let fork = |checkpoint: Option<&'static str>| TurnCommand::Fork {
        checkpoint: checkpoint.map(Arc::new),
        ticket: 40,
    };
    assert!(matches!(
        driver.handle_idle_command(fork(None)),
        DriverAction::Answer { answer: Answer::Refused(Refusal::ForkBeforeCompletedTurn), .. }
    ));
    start(&mut driver, 0, 10);
    driver.observe_boundary(Some(Arc::new("middle")));
    assert!(matches!(
        driver.handle_active_command(fork(None)),
        DriverAction::Fork { checkpoint, .. } if *checkpoint == "middle"
    ));
    driver.settle(completed("end"), None);
    assert!(matches!(
        driver.handle_idle_command(fork(None)),
        DriverAction::Fork { checkpoint, .. } if *checkpoint == "end"
    ));
    assert!(matches!(
        driver.handle_idle_command(fork(Some("earlier"))),
        DriverAction::Fork { checkpoint, .. } if *checkpoint == "earlier"
    ));
    assert!(matches!(
        driver.handle_idle_command(TurnCommand::Spawn { ticket: 41 }),
        DriverAction::Spawn { model, thinking: Thinking::Medium, ticket: 41, .. }
            if model.name == "gpt-5.6-sol"
    ));
    let other = Model { name: "other-model" };
    let mut branch = AgentDriver::new(other, Thinking::Low, false, Some(Arc::new("inherited")));
    assert!(matches!(
        branch.handle_idle_command(fork(None)),
        DriverAction::Fork { checkpoint, model, .. }
            if *checkpoint == "inherited" && model.name == "other-model"
    ));
}

#[test]
fn closing_gives_up_queued_turns() {
    let mut driver = driver();
    start(&mut driver, 0, 10);
    driver.handle_active_command(ask(1, 11));
    assert!(matches!(driver.handle_closed(), DriverAction::CancelActive));
    assert_eq!(driver.queued(), 0);
    assert!(!driver.commands_open());
    assert!(matches!(driver.handle_closed(), DriverAction::Continue));
    driver.settle(completed("end"), None);
    assert!(driver.active().is_none());
    assert!(matches!(driver.next(), DriverAction::Stop));
}

#[test]
fn a_driver_that_shuts_down_reports_its_queue() {
    let mut driver = driver();
    start(&mut driver, 0, 10);
    driver.handle_active_command(ask(1, 11));
    driver.settle(completed("end"), None);
    let mut queue = driver.take_queue();
    assert_eq!(driver.queued(), 0);
    mark_all_queued_turns_cancelled(&mut queue);
    driver.restore_queue(queue);
    assert!(matches!(driver.next(), DriverAction::ReportCancelled { ticket: 11, .. }));
    assert!(matches!(driver.next(), DriverAction::Stop));
}

#[test]
fn persistence_failures_decide_what_callers_learn() {
    let mut driver = driver();
    start(&mut driver, 0, 10);
    driver.handle_active_command(TurnCommand::Cancel { key: key(0), ticket: 20 });
    let outcome = TurnOutcome::Cancelled { checkpoint: Arc::new("cut") };
    let settled = driver.settle(outcome, Some(failure()));
    assert_eq!(settled.status, "failed");
    assert_eq!(settled.cancel_answer, Answer::Refused(Refusal::PersistRollout));
    assert!(!settled.rebuild_model);
    assert!(settled.stop.is_some());
    assert_eq!(driver.failure().unwrap().path, "rollout.jsonl");
    match settled.reply {
        TurnReply::Failed(NanocodexError::PersistRollout { path, source }) => {
            assert_eq!((path.as_str(), source.as_str()), ("rollout.jsonl", "durability failed"));
        }
        _ => panic!("the failure must be reported"),
    }
    let mut driver = AgentDriver::new(Model::sol(), Thinking::Low, false, None);
    start(&mut driver, 0, 10);
    let error = NanocodexError::MalformedResponse { detail: "no output" };
    let settled = driver.settle(TurnOutcome::Failed { error, checkpoint: None }, None);
    assert!(matches!(
        settled.reply,
        TurnReply::Failed(NanocodexError::MalformedResponse { detail: "no output" })
    ));
    assert_eq!(settled.otel_status, "ERROR");
}

#[test]
fn refusals_become_errors() {
    assert!(matches!(
        Refusal::TurnNotSteerable.error(&failure()),
        NanocodexError::TurnNotSteerable
    ));
    assert!(matches!(Refusal::SteerQueueFull.error(&failure()), NanocodexError::SteerQueueFull));
    assert!(matches!(
        Refusal::TurnNotCancellable.error(&failure()),
        NanocodexError::TurnNotCancellable
    ));
    assert!(matches!(
        Refusal::ForkBeforeCompletedTurn.error(&failure()),
        NanocodexError::ForkBeforeCompletedTurn
    ));
    assert!(matches!(Refusal::AgentStopped.error(&failure()), NanocodexError::AgentStopped));
    assert!(matches!(Refusal::Replaced.error(&failure()), NanocodexError::TurnCancelled));
    assert!(matches!(
        Refusal::PersistRollout.error(&failure()),
        NanocodexError::PersistRollout { .. }
    ));
}

#[test]
fn a_failed_agent_answers_everybody() {
    let commands = vec![
        DriverCommand::Turn(ask(1, 1)),
        DriverCommand::RoutePrompt { route_ticket: 2, turn_ticket: 3 },
        DriverCommand::Turn(TurnCommand::Compact { ticket: 4 }),
        DriverCommand::AppendDeveloperMessage { ticket: 5 },
        DriverCommand::Shutdown,
        DriverCommand::Turn(TurnCommand::Spawn { ticket: 6 }),
    ];
    let answers = begin_fail_stop(commands, vec![pending(7, 7)]);
    let tickets: Vec<u64> = answers.iter().map(|answer| answer.ticket).collect();
    assert_eq!(tickets, [1, 2, 3, 4, 5, 6, 7]);
    assert!(answers
        .iter()
        .all(|answer| answer.answer == Answer::Refused(Refusal::PersistRollout)));
    assert_eq!(
        fail_command(DriverCommand::Turn(ask(1, 9))),
        [refused(9, Refusal::PersistRollout)]
    );
}

#[test]
fn shutting_down_cancels_what_waits() {
    let mut turns = vec![pending(1, 1)];
    let commands = vec![
        DriverCommand::Turn(ask(2, 2)),
        DriverCommand::RoutePrompt { route_ticket: 3, turn_ticket: 4 },
        DriverCommand::Turn(TurnCommand::Compact { ticket: 5 }),
    ];
    let defaults = 
        TurnDefaults { model: Model::sol(), thinking: Thinking::High, fast_mode: true };
    let answers = begin_shutdown(commands, &mut turns, defaults);
    assert_eq!(answers, [refused(3, Refusal::AgentStopped), refused(5, Refusal::AgentStopped)]);
    assert_eq!(turns.len(), 2);
    assert!(matches!(turns[0], QueuedTurn::Cancelled { ticket: 1, .. }));
    assert!(matches!(
        turns[1],
        QueuedTurn::Cancelled { ticket: 2, thinking: Thinking::High, fast_mode: true, .. }
    ));
    let unexpected: DriverCommand<&'static str> = 
        DriverCommand::AppendDeveloperMessage { ticket: 8 };
    assert!(refuse_idle_command(unexpected).iter().all(|answer| answer.ticket == 8));
}

#[test]
fn closed_command_channel_returns_recorded_persistence_failure() {
    let mut recorded = DriverFailure::new();
    assert!(recorded.check().is_ok());
    assert!(recorded.error().is_none());
    recorded.record(failure());
    recorded.record(PersistRolloutFailure { path: "other".to_owned(), source: "later".to_owned() });
    assert!(matches!(
        recorded.error(),
        Some(NanocodexError::PersistRollout { path, source })
            if path == "rollout.jsonl" && source == "durability failed"
    ));
    assert!(recorded.check().is_err());
    assert!(matches!(
        request_command::<()>(CommandReply::Stopped, &recorded),
        Err(NanocodexError::PersistRollout { .. })
    ));
}

#[test]
fn shutdown_happens_once_and_everybody_learns_of_it() {
    let mut shutdown = DriverShutdown::new();
    assert!(!shutdown.requested());
    let first = shutdown.request(1);
    assert!(first.starts && first.outcome.is_none());
    let second = shutdown.request(2);
    assert!(!second.starts && second.outcome.is_none());
    assert!(shutdown.requested());
    assert_eq!(shutdown.complete(ShutdownOutcome { failure: Some(failure()) }), [1, 2]);
    let late = shutdown.request(3);
    assert!(!late.starts);
    match late.outcome.unwrap().into_result() {
        Err(NanocodexError::Shutdown(error)) => assert_eq!(
            error.message(),
            "failed to persist Codex rollout at rollout.jsonl: durability failed"
        ),
        _ => panic!("the shutdown must fail with the failure to persist"),
    }
    assert!(ShutdownOutcome { failure: None }.into_result().is_ok());
}

#[test]
fn callers_number_their_turns() {
    let session_id = SessionId::new();
    let mut agent = Nanocodex::new(session_id, "lineage".to_owned());
    assert_eq!(agent.session_id(), session_id);
    let refused = agent.prompt::<&'static str>(Prompt::new("  "), 1);
    assert_eq!(
        refused.err().unwrap().message(),
        "invalid task request: prompt instruction must not be empty"
    );
    assert!(matches!(
        agent.prompt::<&'static str>(Prompt::new("a"), 1),
        Ok(TurnCommand::Prompt { key: TurnKey { number: 0 }, ticket: 1, .. })
    ));
    assert!(matches!(
        agent.prompt::<&'static str>(Prompt::new("b"), 2),
        Ok(TurnCommand::Prompt { key: TurnKey { number: 1 }, ticket: 2, .. })
    ));
    let own = CommittedSession { lineage_id: "lineage".to_owned(), model: Arc::new("boundary") };
    assert!(matches!(
        agent.fork_from(&own, 3),
        Ok(TurnCommand::Fork { checkpoint: Some(boundary), ticket: 3 }) if *boundary == "boundary"
    ));
    let foreign = CommittedSession { lineage_id: "other".to_owned(), model: Arc::new("boundary") };
    assert!(matches!(
        agent.fork_from(&foreign, 4),
        Err(NanocodexError::CheckpointLineageMismatch)
    ));
    assert!(matches!(
        agent.fork::<&'static str>(5),
        TurnCommand::Fork { checkpoint: None, ticket: 5 }
    ));
    assert!(matches!(agent.spawn::<&'static str>(6), TurnCommand::Spawn { ticket: 6 }));
    assert!(matches!(agent.compact::<&'static str>(9), TurnCommand::Compact { ticket: 9 }));
    assert!(matches!(agent.flush_rollout::<&'static str>(10), TurnCommand::Flush { ticket: 10 }));
    assert!(matches!(
        agent.set_thinking::<&'static str>(Thinking::Max, 7),
        TurnCommand::SetThinking { thinking: Thinking::Max, ticket: 7 }
    ));
    assert!(matches!(
        agent.set_fast_mode::<&'static str>(true, 8),
        TurnCommand::SetFastMode { enabled: true, ticket: 8 }
    ));
}

#[test]
fn stopped_agents_refuse() {
    let alive = AgentHandle { alive: true };
    assert!(matches!(alive.spawn::<&'static str>(1), Ok(TurnCommand::Spawn { ticket: 1 })));
    assert!(matches!(alive.fork::<&'static str>(2), Ok(TurnCommand::Fork { ticket: 2, .. })));
    let gone = AgentHandle { alive: false };
    assert!(matches!(gone.spawn::<&'static str>(1), Err(NanocodexError::AgentStopped)));
    assert!(matches!(gone.fork::<&'static str>(2), Err(NanocodexError::AgentStopped)));
    assert!(matches!(
        request_command::<u8>(CommandReply::Stopped, &DriverFailure::new()),
        Err(NanocodexError::AgentStopped)
    ));
    assert!(matches!(
        request_command(CommandReply::Answered(Ok(3)), &DriverFailure::new()),
        Ok(3)
    ));
}

fn compact(ticket: u64) -> TurnCommand<&'static str> {
    TurnCommand::Compact { ticket }
}

fn flush(ticket: u64) -> TurnCommand<&'static str> {
    TurnCommand::Flush { ticket }
}

fn compacted() -> CompactionOutcome<&'static str> {
    CompactionOutcome::Completed { checkpoint: Arc::new("compacted") }
}

/// Checks that an agent that failed to persist stops, and refuses whatever
/// still arrives.
fn assert_stopped(driver: &mut AgentDriver<&'static str>) {
    let steer = TurnCommand::Steer { key: key(0), prompt: Prompt::new("more"), ticket: 91 };
    let commands = vec![
        ask(9, 90),
        steer,
        TurnCommand::Cancel { key: key(0), ticket: 92 },
        TurnCommand::Fork { checkpoint: None, ticket: 93 },
        TurnCommand::Spawn { ticket: 94 },
        compact(95),
        flush(96),
        TurnCommand::SetThinking { thinking: Thinking::Max, ticket: 97 },
        TurnCommand::SetFastMode { enabled: true, ticket: 98 },
    ];
    for (command, expected) in commands.into_iter().zip(90..99) {
        assert!(matches!(
            driver.handle_idle_command(command),
            DriverAction::Answer { ticket, answer: Answer::Refused(Refusal::PersistRollout) }
                if ticket == expected
        ));
    }
    assert!(!driver.commands_open());
    assert_eq!(driver.queued(), 0);
    assert!(matches!(driver.next(), DriverAction::Stop));
    let outcome = ShutdownOutcome { failure: driver.failure().cloned() };
    assert!(matches!(
        outcome.into_result(),
        Err(NanocodexError::Shutdown(error))
            if matches!(error.as_ref(), NanocodexError::PersistRollout { .. })
    ));
}

#[test]
fn failures_to_persist_give_up_the_queue_in_its_order() {
    let mut driver = driver();
    start(&mut driver, 0, 10);
    driver.handle_active_command(ask(1, 11));
    driver.handle_active_command(ask(2, 12));
    driver.handle_active_command(TurnCommand::Cancel { key: key(1), ticket: 20 });
    driver.handle_active_command(compact(13));
    driver.handle_active_command(flush(14));
    let settled = driver.settle(completed("first"), Some(failure()));
    let stop = settled.stop.unwrap();
    let answers: Vec<TicketAnswer> = stop.turns.iter().map(|turn| turn.answer).collect();
    assert_eq!(
        answers,
        [refused(11, Refusal::PersistRollout), refused(12, Refusal::PersistRollout)]
    );
    assert!(stop.turns.iter().all(|turn| turn.thinking == Thinking::Medium && !turn.fast_mode));
    assert_eq!(
        stop.answers,
        [refused(13, Refusal::PersistRollout), refused(14, Refusal::PersistRollout)]
    );
    assert_stopped(&mut driver);
}

#[test]
fn explicit_rollout_flush_failure_fail_stops_the_agent() {
    let mut driver = driver();
    assert!(matches!(
        driver.handle_idle_command(flush(1)),
        DriverAction::Flush { ticket: 1 }
    ));
    let flushed = driver.flushed(1, Some(failure()));
    assert_eq!(flushed.answer, refused(1, Refusal::PersistRollout));
    let stop = flushed.stop.unwrap();
    assert!(stop.turns.is_empty() && stop.answers.is_empty());
    assert_eq!(driver.turn_index(), 0);
    assert_stopped(&mut driver);
}

#[test]
fn rollout_flush_waits_for_an_active_turns_durable_boundary() {
    let mut driver = driver();
    start(&mut driver, 0, 10);
    assert!(matches!(driver.handle_active_command(flush(1)), DriverAction::Continue));
    assert!(matches!(driver.handle_active_command(flush(2)), DriverAction::Continue));
    assert!(matches!(driver.settle(completed("done"), None).reply, TurnReply::Completed(_)));
    for ticket in [1, 2] {
        assert!(matches!(driver.next(), DriverAction::Flush { ticket: next } if next == ticket));
        let flushed = driver.flushed(ticket, None);
        assert_eq!(flushed.answer, TicketAnswer { ticket, answer: Answer::Done });
        assert!(flushed.stop.is_none());
    }
    assert!(matches!(driver.next(), DriverAction::Receive));
}

#[test]
fn rollout_flush_succeeds_after_a_durable_compaction() {
    let mut driver = driver();
    assert!(matches!(
        driver.handle_idle_command(compact(1)),
        DriverAction::StartCompaction { turn_index: 1, thinking: Thinking::Medium, ticket: 1, .. }
    ));
    assert!(matches!(driver.handle_compacting_command(flush(2)), DriverAction::Continue));
    let settled = driver.settle_compaction(compacted(), None);
    assert_eq!(settled.ticket, 1);
    assert!(settled.reply.is_ok());
    assert!(settled.stop.is_none());
    assert!(matches!(driver.next(), DriverAction::Flush { ticket: 2 }));
    assert_eq!(driver.flushed(2, None).answer, TicketAnswer { ticket: 2, answer: Answer::Done });
    assert!(matches!(
        driver.handle_idle_command(TurnCommand::Fork { checkpoint: None, ticket: 3 }),
        DriverAction::Fork { checkpoint, .. } if *checkpoint == "compacted"
    ));
}

#[test]
fn compaction_persistence_failure_fail_stops_current_and_queued_turns() {
    let mut driver = driver();
    driver.handle_idle_command(compact(1));
    assert!(matches!(driver.handle_compacting_command(ask(0, 2)), DriverAction::Continue));
    assert!(matches!(driver.handle_compacting_command(flush(3)), DriverAction::Continue));
    let settled = driver.settle_compaction(compacted(), Some(failure()));
    assert!(matches!(settled.reply, Err(NanocodexError::PersistRollout { .. })));
    let stop = settled.stop.unwrap();
    assert_eq!(stop.turns.len(), 1);
    assert_eq!(stop.turns[0].answer, refused(2, Refusal::PersistRollout));
    assert_eq!(stop.answers, [refused(3, Refusal::PersistRollout)]);
    assert_eq!(driver.turn_index(), 1);
    assert_stopped(&mut driver);
}

#[test]
fn cancelled_compaction_persistence_failure_fail_stops_replacement() {
    let mut driver = driver();
    driver.handle_idle_command(compact(1));
    assert!(matches!(driver.handle_compacting_command(compact(2)), DriverAction::CancelActive));
    assert!(driver.compaction_waits());
    let outcome = CompactionOutcome::Cancelled { checkpoint: Arc::new("cut") };
    let settled = driver.settle_compaction(outcome, Some(failure()));
    assert_eq!(settled.ticket, 1);
    assert!(matches!(settled.reply, Err(NanocodexError::PersistRollout { .. })));
    assert!(!settled.rebuild_model);
    assert_eq!(settled.stop.unwrap().answers, [refused(2, Refusal::PersistRollout)]);
    assert_eq!(driver.turn_index(), 1);
    assert_stopped(&mut driver);
}

#[test]
fn failed_provider_compaction_persistence_failure_fail_stops_the_agent() {
    let mut driver = driver();
    driver.handle_idle_command(compact(1));
    let outcome = CompactionOutcome::Failed {
        error: NanocodexError::MalformedResponse { detail: "provider failed" },
        checkpoint: None,
    };
    let settled = driver.settle_compaction(outcome, Some(failure()));
    assert!(matches!(settled.reply, Err(NanocodexError::PersistRollout { .. })));
    assert_stopped(&mut driver);
}

#[test]
fn the_newest_compaction_replaces_the_others() {
    let mut driver = driver();
    driver.handle_idle_command(compact(1));
    driver.handle_compacting_command(ask(0, 4));
    assert!(matches!(
        driver.handle_compacting_command(TurnCommand::Steer {
            key: key(0),
            prompt: Prompt::new("more"),
            ticket: 5
        }),
        DriverAction::Answer { answer: Answer::Refused(Refusal::TurnNotSteerable), .. }
    ));
    assert!(matches!(driver.handle_compacting_command(compact(2)), DriverAction::CancelActive));
    assert!(matches!(
        driver.handle_compacting_command(compact(3)),
        DriverAction::Answer { ticket: 2, answer: Answer::Refused(Refusal::Replaced) }
    ));
    assert_eq!(driver.compacting(), Some(ActiveCompaction { ticket: 1, cancel_sent: true }));
    let outcome = CompactionOutcome::Cancelled { checkpoint: Arc::new("cut") };
    let settled = driver.settle_compaction(outcome, None);
    assert!(matches!(settled.reply, Err(NanocodexError::TurnCancelled)));
    assert!(settled.rebuild_model);
    assert!(matches!(
        driver.next(),
        DriverAction::StartCompaction { turn_index: 2, ticket: 3, .. }
    ));
    let outcome = CompactionOutcome::Failed {
        error: NanocodexError::MalformedResponse { detail: "provider failed" },
        checkpoint: None,
    };
    let settled = driver.settle_compaction(outcome, None);
    assert!(matches!(
        settled.reply,
        Err(NanocodexError::MalformedResponse { detail: "provider failed" })
    ));
    assert!(matches!(driver.next(), DriverAction::Start { turn_index: 3, ticket: 4, .. }));
}

#[test]
fn compactions_wait_for_the_running_turn() {
    let mut driver = driver();
    start(&mut driver, 0, 10);
    driver.handle_active_command(ask(1, 11));
    assert!(matches!(driver.handle_active_command(compact(12)), DriverAction::Continue));
    driver.settle(completed("first"), None);
    assert!(matches!(driver.next(), DriverAction::StartCompaction { ticket: 12, .. }));
    assert!(matches!(driver.handle_closed(), DriverAction::CancelActive));
    assert!(matches!(driver.handle_closed(), DriverAction::Continue));
    driver.settle_compaction(compacted(), None);
    assert!(matches!(driver.next(), DriverAction::Stop));
}

#[test]
fn records_state_how_turns_and_compactions_ended() {
    let error = || NanocodexError::TurnStopped;
    assert_eq!(completed("a").recorded(), RolloutTurnStatus::Completed);
    let cut: TurnOutcome<&'static str> = TurnOutcome::Cancelled { checkpoint: Arc::new("a") };
    assert_eq!(cut.recorded(), RolloutTurnStatus::Interrupted);
    let failed: TurnOutcome<&'static str> =
        TurnOutcome::Failed { error: error(), checkpoint: None };
    assert_eq!(failed.recorded(), RolloutTurnStatus::Failed);
    assert_eq!(compacted().recorded(true), RolloutTurnStatus::Completed);
    let cut: CompactionOutcome<&'static str> =
        CompactionOutcome::Cancelled { checkpoint: Arc::new("a") };
    assert_eq!(cut.recorded(true), RolloutTurnStatus::Replaced);
    assert_eq!(cut.recorded(false), RolloutTurnStatus::Interrupted);
    let failed: CompactionOutcome<&'static str> =
        CompactionOutcome::Failed { error: error(), checkpoint: None };
    assert_eq!(failed.recorded(true), RolloutTurnStatus::Failed);
}
