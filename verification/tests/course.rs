use nanocodex::code_mode::{
    CodeModeExecution, CodeModeNotification, HostToolTraits, NestedToolCall, ReceiptLimits, TerminalToolReceiptError,
    TerminalToolSelection, ToolTurnBehavior,
};
use nanocodex::config::{Model, ModelConfig, OpenAiAuth, ResponsesTransport, Thinking};
use nanocodex::conversation::{request_profile, ContextBaseline};
use nanocodex::control::{begin_fail_stop, DriverCommand, DriverFailure, ShutdownOutcome, TicketAnswer};
use nanocodex::driver::{
    AgentDriver, Answer, CompletedTurn, DriverAction, FailedTurn, PersistRolloutFailure, Refusal,
    TurnCommand, TurnOutcome, TurnReply,
};
use nanocodex::error::NanocodexError;
use nanocodex::handle::{request_command, CommandReply};
use nanocodex::items::{
    ContentItem, MessageRole, ResponseItem, ToolOutputBody, ToolOutputContent,
};
use nanocodex::prompt::Prompt;
use nanocodex::queue::TurnKey;
use nanocodex::run::calls::WarmupExecution;
use nanocodex::run::drive::{TurnAction, TurnPhase};
use nanocodex::run::events::{RunCompletion, RunEvent, TerminalStatus, TransportCounts};
use nanocodex::run::tools::InterruptedCall;
use nanocodex::run::turn::{
    ContextUpdate, ModelCompactOutcome, ModelTaskOutcome, ModelTurnOutcome, TurnCompletion,
};
use nanocodex::run::ModelRun;
use nanocodex::service::{
    CompactionOutput, GenerationOutput, ResponsesOutput, ResponsesServiceResponse,
};
use nanocodex::tool_calls::{
    complete_code_call, complete_direct_call, plan_tool_call, CodeCall, CodeCallKind,
    CompletedToolCall, ToolExecution, ToolPlan, ToolStanding, ToolStatus,
};
use nanocodex::transport::error::ResponsesError;
use std::sync::Arc;

const LIMITS: ReceiptLimits = ReceiptLimits { max_output_bytes: 64, max_metadata_bytes: 32 };

fn item(role: MessageRole, text: &str) -> Arc<ResponseItem> {
    let content = ContentItem::InputText { text: text.to_owned() };
    Arc::new(ResponseItem::message(role, vec![content]))
}

fn user(text: &str) -> Arc<ResponseItem> {
    item(MessageRole::User, text)
}

fn text_content(text: &str) -> Vec<ContentItem> {
    vec![ContentItem::InputText { text: text.to_owned() }]
}

/// Everything that an item says, in one text.
fn said(item: &ResponseItem) -> String {
    match item {
        ResponseItem::Message { content, .. } => content
            .iter()
            .map(|part| match part {
                ContentItem::InputText { text } | ContentItem::OutputText { text } => text.clone(),
                _ => String::new(),
            })
            .collect(),
        ResponseItem::FunctionCallOutput { call_id, output, .. }
        | ResponseItem::CustomToolCallOutput { call_id, output, .. } => {
            let mut all = call_id.clone();
            match output {
                ToolOutputBody::Text(text) => all.push_str(text),
                ToolOutputBody::Content(parts) => {
                    for part in parts.iter() {
                        if let ToolOutputContent::InputText { text } = part {
                            all.push_str(text);
                        }
                    }
                }
            }
            all
        }
        _ => String::new(),
    }
}

fn history(run: &ModelRun) -> Vec<Arc<ResponseItem>> {
    run.session().unwrap().conversation.flattened_history()
}

fn replay(run: &ModelRun) -> String {
    history(run).iter().map(|item| said(item)).collect::<Vec<String>>().join("|")
}

fn new_run(transport: ResponsesTransport) -> ModelRun {
    let mut config = ModelConfig::new(OpenAiAuth::api_key(), "system prompt".to_owned());
    config.responses_transport = transport;
    ModelRun::new(Arc::new(config), None)
}

/// Starts a first turn up to the warmup or the first generation.
fn open(run: &mut ModelRun, prompt: &str) -> TurnAction {
    let action = run.start(
        &Prompt::new(prompt),
        Some("/work".to_owned()),
        Thinking::Low,
        false,
        1,
    );
    assert!(matches!(action, TurnAction::Open));
    run.opened(
        "/work".to_owned(),
        request_profile("session", "cache", vec![], "system prompt"),
        1,
        vec![item(MessageRole::Developer, "rules"), user("context"), user(prompt)],
        user("context"),
        ContextBaseline::Known("baseline".to_owned()),
    )
}

fn warm(run: &mut ModelRun) -> TurnAction {
    run.warmed(
        Ok(Some(WarmupExecution {
            response_id: "resp-warmup".to_owned(),
            attempt: 1,
            connection_generation: 1,
            usage: None,
            server_reasoning_included: false,
        })),
        2,
    )
}

/// A first turn that waits for the reply to its first generation.
fn generating(prompt: &str) -> ModelRun {
    let mut run = new_run(ResponsesTransport::WebSocket);
    assert!(matches!(open(&mut run, prompt), TurnAction::WarmUp(_)));
    assert!(matches!(warm(&mut run), TurnAction::Prepare(_)));
    generate(&mut run);
    run
}

fn generate(run: &mut ModelRun) -> Option<String> {
    let shown = history(run);
    match run.prepared(shown, false) {
        TurnAction::Generate(request) => request.previous_response_id,
        _ => panic!("a generation must follow"),
    }
}

fn reply(output: ResponsesOutput) -> Result<ResponsesServiceResponse, NanocodexError> {
    Ok(ResponsesServiceResponse {
        output,
        attempt: 1,
        connection_generation: 1,
        server_reasoning_included: false,
    })
}

fn response(id: &str, text: Option<&str>, code_calls: Vec<CodeCall>) -> GenerationOutput {
    GenerationOutput {
        id: id.to_owned(),
        status: "completed".to_owned(),
        end_turn: None,
        final_message: text.map(str::to_owned),
        output_items: match text {
            Some(text) => vec![item(MessageRole::Assistant, text)],
            None => Vec::new(),
        },
        code_calls,
        usage: None,
        time_to_first_event_ns: 1,
        time_to_first_output_ns: None,
    }
}

fn answer(run: &mut ModelRun, output: GenerationOutput, steers_waiting: bool) -> TurnAction {
    run.generated(None, reply(ResponsesOutput::Generation(output)), 5, steers_waiting)
}

fn compaction() -> Result<ResponsesServiceResponse, NanocodexError> {
    reply(ResponsesOutput::Compaction(CompactionOutput {
        id: "resp-compact".to_owned(),
        status: "completed".to_owned(),
        item: Arc::new(ResponseItem::Compaction {
            id: None,
            encrypted_content: "opaque-summary".to_owned(),
        }),
        usage: None,
        time_to_first_event_ns: 1,
        time_to_first_output_ns: None,
    }))
}

fn call(call_id: &str, name: &str, kind: CodeCallKind, input: &str) -> CodeCall {
    CodeCall {
        call_id: call_id.to_owned(),
        name: name.to_owned(),
        namespace: None,
        input: input.to_owned(),
        kind,
    }
}

/// Ends a turn whose boundary was persisted.
fn end(run: &mut ModelRun, action: TurnAction) -> Result<ModelTurnOutcome, NanocodexError> {
    let TurnAction::End(outcome) = action else {
        panic!("the turn must end");
    };
    let ended = run.finish(outcome, None, &Vec::new(), 0, user("<turn_aborted>"));
    assert_eq!(run.phase(), TurnPhase::Reporting);
    run.report(None, 50, TransportCounts::new(), None);
    assert_eq!(run.phase(), TurnPhase::Idle);
    ended
}

fn completed(ended: Result<ModelTurnOutcome, NanocodexError>) -> TurnCompletion {
    match ended {
        Ok(ModelTurnOutcome::Completed(turn)) => turn.completion,
        _ => panic!("the turn must be completed"),
    }
}

/// Runs a follow-on turn to its final message, and returns the response that
/// its request continued from.
fn follow_on(run: &mut ModelRun, prompt: &str) -> Option<String> {
    let action = run.start(&Prompt::new(prompt), None, Thinking::Low, false, 2);
    assert!(matches!(action, TurnAction::SizeContext));
    assert!(matches!(run.sized(1, Some(1_000), history(run)), TurnAction::Tell));
    let action = run.told(
        ContextUpdate::Unchanged,
        user("context"),
        item(MessageRole::Developer, "rules"),
        ContextBaseline::Known("baseline".to_owned()),
        text_content(prompt),
    );
    assert!(matches!(action, TurnAction::Prepare(_)));
    let previous = generate(run);
    let action = answer(run, response("resp-follow-on", Some("done"), Vec::new()), false);
    let completion = completed(end(run, action));
    assert_eq!(completion.final_message(), Some("done"));
    previous
}

#[test]
fn first_turns_are_warmed_up_and_answered() {
    let mut run = generating("first prompt");
    assert_eq!(run.phase(), TurnPhase::Generating(1));
    let action = answer(&mut run, response("resp-first", Some("done"), Vec::new()), false);
    assert_eq!(completed(end(&mut run, action)).final_message(), Some("done"));
    let events = run.take_events();
    assert!(matches!(events[0], RunEvent::RunStarted { .. }));
    assert!(matches!(events[1], RunEvent::WarmupStarted { .. }));
    assert!(matches!(events[2], RunEvent::WarmupCompleted { .. }));
    assert!(matches!(events[3], RunEvent::ModelCallStarted { .. }));
    assert!(matches!(events[4], RunEvent::ModelCallCompleted { .. }));
    assert!(matches!(
        events[5],
        RunEvent::RunEnded {
            status: TerminalStatus::Completed,
            completion: Some(RunCompletion::Message),
            ..
        }
    ));
    assert_eq!(events.len(), 6);
    assert_eq!(follow_on(&mut run, "second prompt").as_deref(), Some("resp-first"));
}

#[test]
fn ephemeral_connections_are_not_warmed_up() {
    let mut run = new_run(ResponsesTransport::Https);
    assert!(matches!(open(&mut run, "first prompt"), TurnAction::Prepare(_)));
    assert_eq!(generate(&mut run), None);
}

#[test]
fn failed_warmups_cost_the_head_start_only() {
    let mut run = new_run(ResponsesTransport::WebSocket);
    open(&mut run, "p");
    let failure = NanocodexError::Responses(ResponsesError::UnexpectedEnd);
    assert!(matches!(run.warmed(Err(failure), 1), TurnAction::Prepare(_)));
    assert_eq!(generate(&mut run), None);

    let mut run = new_run(ResponsesTransport::WebSocket);
    open(&mut run, "p");
    assert!(matches!(
        run.warmed(Err(NanocodexError::TurnStopped), 1),
        TurnAction::End(ModelTaskOutcome::Failed(NanocodexError::TurnStopped))
    ));
}

#[test]
fn conversations_that_cannot_be_opened_end_the_turn() {
    let mut run = new_run(ResponsesTransport::WebSocket);
    run.start(&Prompt::new("p"), None, Thinking::Low, false, 1);
    let action = run.open_failed(NanocodexError::WorkspaceNotDirectory { path: "/f".to_owned() });
    assert!(matches!(end(&mut run, action), Err(NanocodexError::WorkspaceNotDirectory { .. })));
    assert!(matches!(
        run.take_events().last(),
        Some(RunEvent::RunEnded { status: TerminalStatus::Failed, completion: None, .. })
    ));

    run.start(&Prompt::new("p"), None, Thinking::Low, false, 1);
    let action = run.opened(
        "/work".to_owned(),
        request_profile("session", "cache", vec![], "system prompt"),
        1,
        Vec::new(),
        user("context"),
        ContextBaseline::Missing,
    );
    assert!(matches!(
        action,
        TurnAction::End(ModelTaskOutcome::Failed(NanocodexError::MalformedResponse {
            detail: "task input did not include initial context"
        }))
    ));
}

#[test]
fn turns_stay_in_their_workspace() {
    let mut run = generating("p");
    let action = answer(&mut run, response("r", Some("x"), Vec::new()), false);
    let _ = end(&mut run, action);
    let elsewhere = Some("/other".to_owned());
    assert!(matches!(
        run.start(&Prompt::new("q"), elsewhere, Thinking::Low, false, 2),
        TurnAction::End(ModelTaskOutcome::Failed(NanocodexError::WorkspaceChanged {
            current,
            requested,
        })) if current == "/work" && requested == "/other"
    ));
    assert_eq!(run.phase(), TurnPhase::Ending);
}

#[test]
fn steering_is_taken_in_between_generations() {
    let mut run = generating("p");
    let action = answer(&mut run, response("resp-1", Some("x"), Vec::new()), true);
    assert!(matches!(action, TurnAction::SizeContext));
    assert!(matches!(run.sized(1, None, Vec::new()), TurnAction::PollSteer));
    let steer = Prompt::new("hurry");
    assert!(matches!(run.steered(&steer, text_content("hurry")), TurnAction::PollSteer));
    assert!(matches!(run.steers_drained(), TurnAction::Prepare(_)));
    assert_eq!(said(history(&run).last().unwrap()), "hurry");
    assert_eq!(generate(&mut run).as_deref(), Some("resp-1"));
}

#[test]
fn compactions_hold_steering_back() {
    for (end_turn, compacts, held) in
        [(Some(false), true, true), (Some(false), false, false), (None, true, false)]
    {
        let mut run = generating("p");
        let mut output = response("resp-1", Some("x"), Vec::new());
        output.end_turn = end_turn;
        assert!(matches!(answer(&mut run, output, true), TurnAction::SizeContext));
        let shown = history(&run);
        let action = if compacts {
            assert!(matches!(
                run.sized(20, Some(20), shown),
                TurnAction::Compact(request) if request.after_model_call_index == 1
            ));
            run.compacted(compaction(), 3, vec![user("context"), user("summary")])
        } else {
            run.sized(19, Some(20), shown)
        };
        assert_eq!(matches!(action, TurnAction::Prepare(_)), held);
        assert_eq!(matches!(action, TurnAction::PollSteer), !held);
        assert_eq!(history(&run).len() == 2, compacts);
    }
}

#[test]
fn compactions_that_fail_end_the_turn() {
    let mut run = generating("p");
    answer(&mut run, response("resp-1", Some("x"), Vec::new()), true);
    run.sized(20, Some(20), Vec::new());
    assert!(matches!(
        run.compacted(Err(NanocodexError::TurnStopped), 1, Vec::new()),
        TurnAction::End(ModelTaskOutcome::Failed(NanocodexError::TurnStopped))
    ));

    let mut run = generating("p");
    answer(&mut run, response("resp-1", Some("x"), Vec::new()), true);
    run.sized(20, Some(20), Vec::new());
    let wrong = reply(ResponsesOutput::Generation(response("r", None, Vec::new())));
    assert!(matches!(
        run.compacted(wrong, 1, Vec::new()),
        TurnAction::End(ModelTaskOutcome::Failed(NanocodexError::InvalidAttemptState {
            detail: "compaction returned a non-compaction response"
        }))
    ));
}

fn finished(call: &CodeCall, text: &str) -> CompletedToolCall {
    let output = ToolOutputBody::Text(text.to_owned());
    complete_code_call(call, true, output, Vec::new(), 7, TerminalToolSelection::Unselected)
}

#[test]
fn tools_are_answered_before_the_model_goes_on() {
    let first = call("c1", "exec", CodeCallKind::Custom, "a");
    let second = call("c2", "wait", CodeCallKind::Function, "{}");
    let mut run = generating("p");
    let calls = vec![first.clone(), second.clone()];
    match answer(&mut run, response("resp-tool", None, calls), false) {
        TurnAction::RunTools { call_index: 1, calls, history: Some(_) } => {
            assert_eq!(calls.len(), 2)
        }
        _ => panic!("the tools must run"),
    }
    let before = history(&run).len();
    assert!(matches!(
        run.tool_ended(1, Ok(finished(&second, "late")), 3, 0),
        TurnAction::AwaitTools { answered: 0 }
    ));
    assert_eq!(history(&run).len(), before);
    assert!(matches!(
        run.tool_ended(0, Ok(finished(&first, "early")), 4, 9),
        TurnAction::SizeContext
    ));
    let items = history(&run);
    assert_eq!(said(&items[before]), "c1early");
    assert_eq!(said(&items[before + 1]), "c2late");
    assert_eq!(run.stats().tool_work_duration_ns, 7);
    assert_eq!(run.stats().tool_wall_duration_ns, 9);
    assert!(matches!(run.sized(0, None, Vec::new()), TurnAction::PollSteer));
    assert!(matches!(run.steers_drained(), TurnAction::Prepare(_)));
    assert_eq!(generate(&mut run).as_deref(), Some("resp-tool"));
}

#[test]
fn calls_without_an_outcome_end_the_turn_in_their_order() {
    let first = call("c1", "exec", CodeCallKind::Custom, "a");
    let second = call("c2", "exec", CodeCallKind::Custom, "b");
    let mut run = generating("p");
    answer(&mut run, response("r", None, vec![first.clone(), second]), false);
    assert!(matches!(
        run.tool_ended(1, Err(NanocodexError::TurnStopped), 0, 0),
        TurnAction::AwaitTools { answered: 0 }
    ));
    let before = history(&run).len();
    let action = run.tool_ended(0, Ok(finished(&first, "early")), 0, 0);
    assert!(matches!(
        action,
        TurnAction::End(ModelTaskOutcome::Failed(NanocodexError::TurnStopped))
    ));
    let TurnAction::End(outcome) = action else {
        panic!("the turn must end");
    };
    assert!(run.stops_tools(&outcome));
    assert_eq!(run.unanswered(), 1);
    let known = InterruptedCall {
        duration_ns: 1,
        work_duration_ns: None,
        seconds: "0.0".to_owned(),
        at_least_a_tenth: "0.1".to_owned(),
    };
    let ended = run.finish(outcome, None, &vec![known], 0, user("<turn_aborted>"));
    assert!(matches!(
        ended,
        Ok(ModelTurnOutcome::Failed { error: NanocodexError::TurnStopped, .. })
    ));
    let items = history(&run);
    assert_eq!(said(&items[before]), "c1early");
    assert!(said(&items[before + 1]).starts_with("c2aborted by user"));
    assert_eq!(said(&items[before + 2]), "<turn_aborted>");
}

#[test]
fn invalid_image_requests_end_the_turn() {
    let mut run = generating("inspect images");
    let error = ResponsesError::InvalidImageRequest {
        event: "The image data you provided does not represent a valid image".to_owned(),
    };
    let action = run.generated(None, Err(NanocodexError::Responses(error)), 5, true);
    match end(&mut run, action) {
        Ok(ModelTurnOutcome::Failed { error, .. }) => assert!(matches!(
            error.responses_error(),
            Some(ResponsesError::InvalidImageRequest { .. })
        )),
        _ => panic!("the turn must fail"),
    }
    let events = run.take_events();
    assert!(matches!(events[events.len() - 3], RunEvent::ModelCallFailed { .. }));
}

#[test]
fn cancellation_retains_interrupted_prompt_and_resumes_from_the_abort_boundary() {
    let mut run = generating("first prompt");
    let action = answer(&mut run, response("resp-first", Some("done"), Vec::new()), false);
    let _ = end(&mut run, action);
    run.start(&Prompt::new("cancel me"), None, Thinking::Low, false, 2);
    run.sized(0, None, Vec::new());
    run.told(
        ContextUpdate::Unchanged,
        user("context"),
        item(MessageRole::Developer, "rules"),
        ContextBaseline::Known("baseline".to_owned()),
        text_content("cancel me"),
    );
    assert_eq!(generate(&mut run).as_deref(), Some("resp-first"));
    let action = run.cancel();
    assert!(matches!(action, TurnAction::End(ModelTaskOutcome::Cancelled)));
    assert!(matches!(end(&mut run, action), Ok(ModelTurnOutcome::Cancelled(_))));
    assert!(replay(&run).ends_with("cancel me|<turn_aborted>"));
    assert!(!replay(&run).contains("partial text that must not enter history"));
    assert!(matches!(
        run.take_events().last(),
        Some(RunEvent::RunEnded { status: TerminalStatus::Cancelled, completion: None, .. })
    ));
    assert_eq!(follow_on(&mut run, "run after cancellations"), None);
}

#[test]
fn cancellation_during_pre_turn_compaction_retains_the_accepted_prompt() {
    let mut run = generating("first prompt");
    let action = answer(&mut run, response("resp-first", Some("first done"), Vec::new()), false);
    let _ = end(&mut run, action);
    let prompt = Prompt::new("cancel during compaction");
    run.start(&prompt, None, Thinking::Low, false, 2);
    let shown = history(&run);
    assert!(matches!(
        run.sized(244_800, Some(244_800), shown),
        TurnAction::Compact(request)
            if request.previous_response_id.as_deref() == Some("resp-first")
                && request.after_model_call_index == 0
    ));
    assert!(matches!(run.cancel(), TurnAction::KeepMessage));
    let action = run.message_kept(text_content("cancel during compaction"));
    assert!(matches!(end(&mut run, action), Ok(ModelTurnOutcome::Cancelled(_))));
    assert!(replay(&run).ends_with("cancel during compaction|<turn_aborted>"));
    assert_eq!(follow_on(&mut run, "continue after cancellation"), None);
}

#[test]
fn requested_compactions_follow_their_own_course() {
    let mut run = generating("p");
    let action = answer(&mut run, response("resp-1", Some("x"), Vec::new()), false);
    let _ = end(&mut run, action);
    let refused = run.start_compact(Some("/other"), Thinking::Low, false, 2);
    assert!(matches!(refused, Some(ModelCompactOutcome::Failed { .. })));
    assert_eq!(run.phase(), TurnPhase::Idle);

    assert!(run.start_compact(None, Thinking::Low, false, 2).is_none());
    let request = run.compact_sized(5, None, history(&run));
    assert_eq!(request.previous_response_id.as_deref(), Some("resp-1"));
    assert!(matches!(
        run.take_events().last(),
        Some(RunEvent::CompactionStarted {
            active_context_tokens: 5,
            auto_compact_token_limit: 272_000,
            ..
        })
    ));
    let failed = run.compact_answered(Err(NanocodexError::TurnStopped), 1, Vec::new());
    assert!(matches!(failed, ModelCompactOutcome::Failed { error: NanocodexError::TurnStopped, .. }));

    assert!(run.start_compact(Some("/work"), Thinking::Low, false, 3).is_none());
    assert!(matches!(run.cancel_compact(), ModelCompactOutcome::Cancelled(_)));

    assert!(run.start_compact(None, Thinking::Low, false, 4).is_none());
    run.compact_sized(5, Some(9), Vec::new());
    let done = run.compact_answered(compaction(), 1, vec![user("opaque-summary")]);
    assert!(matches!(done, ModelCompactOutcome::Completed(_)));
    assert_eq!(replay(&run), "opaque-summary");
    assert_eq!(run.phase(), TurnPhase::Idle);
}

/// A cell whose code called a terminal tool a number of times.
fn terminal_cell(parent: &str, success: bool, times: usize, output: &str) -> CodeModeExecution {
    let mut calls = Vec::new();
    let mut traits = Vec::new();
    for number in 0..times {
        calls.push(NestedToolCall {
            call_id: format!("{}/code-{}", parent, number + 1),
            name: "finish_turn".to_owned(),
            input: "{}".to_owned(),
            output: ToolOutputBody::Text(output.to_owned()),
            success: true,
            turn_behavior: ToolTurnBehavior::Continue,
            started_after_ns: 0,
            duration_ns: 0,
            metadata: None,
        });
        traits.push(HostToolTraits {
            turn_behavior: ToolTurnBehavior::FinishTurnOnSuccess,
            emits_output_on_success: false,
        });
    }
    let mut execution = CodeModeExecution::new(
        ToolOutputBody::Text("Script completed".to_owned()),
        success,
        calls,
        Vec::new(),
    );
    execution.apply_host_turn_behaviors(&traits, LIMITS);
    execution
}

fn complete_cell(call: &CodeCall, cell: CodeModeExecution) -> CompletedToolCall {
    complete_code_call(
        call,
        cell.success,
        cell.output,
        cell.notifications,
        7,
        cell.terminal_selection,
    )
}

fn run_cell(run: &mut ModelRun, code: &str, cell: CodeModeExecution) -> TurnAction {
    let exec = call("call-exec", "exec", CodeCallKind::Custom, code);
    answer(run, response("resp-terminal", None, vec![exec.clone()]), false);
    run.tool_ended(0, Ok(complete_cell(&exec, cell)), 1, 1)
}

#[test]
fn successful_terminal_code_mode_cell_stops_before_a_follow_on_model_request() {
    let mut run = generating("Finish with the application tool.");
    let action = run_cell(
        &mut run,
        "const result = await tools.finish_turn({}); text(result);",
        terminal_cell("call-exec", true, 1, "terminal result"),
    );
    let completion = completed(end(&mut run, action));
    match &completion {
        TurnCompletion::TerminalTool { receipt } => {
            assert_eq!(receipt.call_id(), "call-exec/code-1");
            assert_eq!(receipt.tool_name(), "finish_turn");
            assert_eq!(receipt.metadata(), None);
            assert!(matches!(
                receipt.output(),
                ToolOutputBody::Text(text) if text == "terminal result"
            ));
        }
        TurnCompletion::Message { .. } => panic!("terminal tool completion returned a message"),
    }
    assert_eq!(completion.final_message(), None);
    assert!(matches!(
        run.take_events().last(),
        Some(RunEvent::RunEnded {
            status: TerminalStatus::Completed,
            completion: Some(RunCompletion::TerminalTool { tool_name, .. }),
            ..
        }) if tool_name == "finish_turn"
    ));
}

#[test]
fn terminal_code_mode_follow_on_replays_the_nested_tool_result() {
    let mut run = generating("Finish with the application tool.");
    let action = run_cell(
        &mut run,
        "await tools.finish_turn({});",
        terminal_cell("call-exec", true, 1, "terminal result"),
    );
    assert!(matches!(completed(end(&mut run, action)), TurnCompletion::TerminalTool { .. }));
    assert_eq!(follow_on(&mut run, "Continue after the terminal result."), None);
    let replay = replay(&run);
    assert!(replay.contains("call-exec/code-1"));
    assert!(replay.contains("terminal result"));
    assert!(replay.contains("Continue after the terminal result."));
}

#[test]
fn terminal_code_mode_wait_follow_on_replays_a_valid_tool_result() {
    let mut run = generating("Finish with the application tool.");
    let action = run_cell(
        &mut run,
        "await yield_control(); await tools.finish_turn({});",
        terminal_cell("call-exec", true, 0, ""),
    );
    assert!(matches!(action, TurnAction::SizeContext));
    run.sized(0, None, Vec::new());
    run.steers_drained();
    assert_eq!(generate(&mut run).as_deref(), Some("resp-terminal"));
    let arguments = "{\"cell_id\":\"1\",\"yield_time_ms\":30000}";
    let wait = call("call-wait", "wait", CodeCallKind::Function, arguments);
    answer(&mut run, response("resp-wait", None, vec![wait.clone()]), false);
    let cell = terminal_cell("call-exec", true, 1, "terminal result");
    let action = run.tool_ended(0, Ok(complete_cell(&wait, cell)), 1, 1);
    assert!(matches!(completed(end(&mut run, action)), TurnCompletion::TerminalTool { .. }));
    assert_eq!(follow_on(&mut run, "Continue after the terminal result."), None);
    assert!(replay(&run).contains("call-exec/code-1"));
    assert!(replay(&run).contains("terminal result"));
    assert!(replay(&run).contains("Continue after the terminal result."));
    assert!(history(&run).iter().any(|item| matches!(
        &**item,
        ResponseItem::FunctionCallOutput { call_id, .. } if call_id == "call-wait"
    )));
    assert!(!history(&run).iter().any(|item| matches!(
        &**item,
        ResponseItem::CustomToolCallOutput { call_id, .. } if call_id == "call-wait"
    )));
}

/// Finishes a direct call of a tool, as its plan says.
fn complete_direct(call: &CodeCall, success: bool, terminal: bool, text: &str) -> CompletedToolCall {
    let standing = ToolStanding { registered: true, offered_directly: true };
    assert!(matches!(
        plan_tool_call(call, standing, None),
        ToolPlan::Direct { tool, input, .. } if tool == call.name && input == "{}"
    ));
    let execution = ToolExecution {
        success,
        output: ToolOutputBody::Text(text.to_owned()),
        metadata: None,
    };
    let behavior = if terminal {
        ToolTurnBehavior::FinishTurnOnSuccess
    } else {
        ToolTurnBehavior::Continue
    };
    complete_direct_call(call, execution, None, 1, behavior, LIMITS)
}

#[test]
fn successful_direct_terminal_tool_stops_before_a_follow_on_model_request() {
    let mut run = generating("Finish with the application tool.");
    let finish = call("call-finish", "finish_turn", CodeCallKind::Function, "{}");
    answer(&mut run, response("resp-terminal", None, vec![finish.clone()]), false);
    let done = complete_direct(&finish, true, true, "terminal result");
    let action = run.tool_ended(0, Ok(done), 1, 1);
    let completion = completed(end(&mut run, action));
    match &completion {
        TurnCompletion::TerminalTool { receipt } => {
            assert_eq!(receipt.call_id(), "call-finish");
            assert_eq!(receipt.tool_name(), "finish_turn");
        }
        TurnCompletion::Message { .. } => {
            panic!("terminal direct tool completion returned a message")
        }
    }
    assert_eq!(completion.final_message(), None);
}

#[test]
fn terminal_tool_follow_on_replays_the_committed_tool_result() {
    let mut run = generating("Finish with the application tool.");
    let finish = call("call-finish", "finish_turn", CodeCallKind::Function, "{}");
    answer(&mut run, response("resp-terminal", None, vec![finish.clone()]), false);
    let done = complete_direct(&finish, true, true, "terminal result");
    let action = run.tool_ended(0, Ok(done), 1, 1);
    assert!(matches!(completed(end(&mut run, action)), TurnCompletion::TerminalTool { .. }));
    assert_eq!(follow_on(&mut run, "Continue after the terminal result."), None);
    assert!(replay(&run).contains("call-finish"));
    assert!(replay(&run).contains("terminal result"));
    assert!(replay(&run).contains("Continue after the terminal result."));
}

#[test]
fn oversized_terminal_receipt_fails_without_a_continuation() {
    let mut run = generating("Finish with too much output.");
    let finish =
        call("call-oversized-finish", "oversized_finish_turn", CodeCallKind::Function, "{}");
    answer(&mut run, response("resp-oversized-terminal", None, vec![finish.clone()]), false);
    let long = "x".repeat(LIMITS.max_output_bytes * 2);
    let done = complete_direct(&finish, true, true, &long);
    let action = run.tool_ended(0, Ok(done), 1, 1);
    assert!(matches!(
        end(&mut run, action),
        Ok(ModelTurnOutcome::Failed {
            error: NanocodexError::TerminalToolReceipt(TerminalToolReceiptError::OutputTooLarge),
            ..
        })
    ));
    let cell = terminal_cell("call-exec", true, 1, &long);
    assert_eq!(cell.terminal_receipt_error(), Some(TerminalToolReceiptError::OutputTooLarge));
}

#[test]
fn failed_code_mode_cell_discards_terminal_intent_and_continues() {
    let mut run = generating("Try the application tool.");
    let action = run_cell(
        &mut run,
        "await tools.finish_turn({}); throw new Error('fail after terminal tool');",
        terminal_cell("call-exec", false, 1, "terminal result"),
    );
    assert!(matches!(action, TurnAction::SizeContext));
    run.sized(0, None, Vec::new());
    run.steers_drained();
    let delta = run.session().unwrap().conversation.delta_start();
    assert!(said(&history(&run)[delta]).starts_with("call-exec"));
    generate(&mut run);
    let action = answer(&mut run, response("resp-final", Some("done"), Vec::new()), false);
    assert_eq!(completed(end(&mut run, action)).final_message(), Some("done"));
}

#[test]
fn multiple_terminal_tools_fail_the_turn_after_the_cell_commits() {
    let mut run = generating("Try two terminal tools.");
    let action = run_cell(
        &mut run,
        "await tools.finish_turn({}); await tools.finish_turn({});",
        terminal_cell("call-exec", true, 2, "terminal result"),
    );
    assert!(matches!(
        end(&mut run, action),
        Ok(ModelTurnOutcome::Failed { error: NanocodexError::AmbiguousTerminalTools, .. })
    ));
    assert!(replay(&run).contains("call-exec"));
}

#[test]
fn failed_direct_tool_batch_discards_terminal_intent_and_continues() {
    let mut run = generating("Call both application tools.");
    let finish = call("call-finish", "finish_turn", CodeCallKind::Function, "{}");
    let fail = call("call-fail", "failing_tool", CodeCallKind::Function, "{}");
    let calls = vec![finish.clone(), fail.clone()];
    answer(&mut run, response("resp-mixed-batch", None, calls), false);
    let done = complete_direct(&finish, true, true, "terminal result");
    assert!(matches!(
        run.tool_ended(0, Ok(done), 1, 1),
        TurnAction::AwaitTools { answered: 1 }
    ));
    let failed = complete_direct(&fail, false, false, "intentional failure");
    assert!(matches!(run.tool_ended(0, Ok(failed), 1, 1), TurnAction::SizeContext));
    run.sized(0, None, Vec::new());
    run.steers_drained();
    let delta = run.session().unwrap().conversation.delta_start();
    assert_eq!(history(&run).len() - delta, 2);
    assert_eq!(generate(&mut run).as_deref(), Some("resp-mixed-batch"));
    let action = answer(&mut run, response("resp-final", Some("done"), Vec::new()), false);
    assert_eq!(completed(end(&mut run, action)).final_message(), Some("done"));
}

fn persist_failure() -> PersistRolloutFailure {
    PersistRolloutFailure { path: "rollout.jsonl".to_owned(), source: "disk full".to_owned() }
}

/// Ends a turn whose boundary could not be persisted, checks that the agent
/// takes nothing on any more, and returns what the turn's caller learns.
fn end_unpersisted(run: &mut ModelRun, action: TurnAction) -> TurnReply<u8> {
    let TurnAction::End(outcome) = action else {
        panic!("the turn must end");
    };
    let ended = run.finish(outcome, None, &Vec::new(), 0, user("<turn_aborted>"));
    run.report(Some(&persist_failure().into_error()), 50, TransportCounts::new(), None);
    let mut driver: AgentDriver<u8> = AgentDriver::new(Model::sol(), Thinking::Low, false, None);
    driver.handle_idle_command(TurnCommand::Prompt {
        key: TurnKey { number: 1 },
        prompt: Prompt::new("p"),
        thinking: None,
        fast_mode: None,
        ticket: 1,
    });
    let boundary = Arc::new(1);
    let outcome = match ended {
        Ok(ModelTurnOutcome::Completed(turn)) => TurnOutcome::Completed(CompletedTurn {
            completion: turn.completion,
            usage: turn.usage,
            checkpoint: boundary,
        }),
        Ok(ModelTurnOutcome::Cancelled(_)) => TurnOutcome::Cancelled { checkpoint: boundary },
        Ok(ModelTurnOutcome::Failed { error, .. }) => {
            TurnOutcome::Failed { error, checkpoint: Some(boundary) }
        }
        Err(error) => TurnOutcome::Failed { error, checkpoint: None },
    };
    let settled = driver.settle(outcome, Some(persist_failure()));
    let stop = settled.stop.unwrap();
    assert!(stop.turns.is_empty() && stop.answers.is_empty());
    assert_stopped(&mut driver);
    settled.reply
}

/// Checks that an agent that failed to persist runs nothing, refuses a prompt,
/// and fails its shutdown with the failure.
fn assert_stopped(driver: &mut AgentDriver<u8>) {
    let prompt = TurnCommand::Prompt {
        key: TurnKey { number: 9 },
        prompt: Prompt::new("must not run after failed durability"),
        thinking: None,
        fast_mode: None,
        ticket: 9,
    };
    assert!(matches!(
        driver.handle_idle_command(prompt),
        DriverAction::Answer { ticket: 9, answer: Answer::Refused(Refusal::PersistRollout) }
    ));
    assert!(matches!(
        Refusal::PersistRollout.error(driver.failure().unwrap()),
        NanocodexError::PersistRollout { .. }
    ));
    assert!(matches!(driver.next(), DriverAction::Stop));
    let outcome = ShutdownOutcome { failure: driver.failure().cloned() };
    assert!(matches!(
        outcome.into_result(),
        Err(NanocodexError::Shutdown(error))
            if matches!(error.as_ref(), NanocodexError::PersistRollout { .. })
    ));
}

fn assert_one_failed_end(run: &mut ModelRun) {
    let events = run.take_events();
    let statuses: Vec<TerminalStatus> = events
        .iter()
        .filter_map(|event| match event {
            RunEvent::RunEnded { status, .. } => Some(*status),
            _ => None,
        })
        .collect();
    assert_eq!(statuses, [TerminalStatus::Failed]);
    let messages: Vec<&str> = events
        .iter()
        .filter_map(|event| match event {
            RunEvent::RunError { message } => Some(message.as_str()),
            _ => None,
        })
        .collect();
    assert_eq!(messages.len(), 1);
    assert!(messages[0].contains("failed to persist Codex rollout"));
}

#[test]
fn terminal_tool_persistence_failure_fails_the_turn() {
    let mut run = generating("finish through the application tool");
    let action = run_cell(
        &mut run,
        "await tools.finish_turn({});",
        terminal_cell("call-exec", true, 1, "finished"),
    );
    assert!(matches!(
        end_unpersisted(&mut run, action),
        TurnReply::Failed(NanocodexError::PersistRollout { .. })
    ));
    assert_one_failed_end(&mut run);
}

#[test]
fn active_cancellation_persistence_failure_fails_the_turn_once() {
    let mut run = generating("cancelled durable turn");
    let action = run.cancel();
    assert!(matches!(
        end_unpersisted(&mut run, action),
        TurnReply::Failed(NanocodexError::PersistRollout { .. })
    ));
    assert_one_failed_end(&mut run);
}

#[test]
fn failed_provider_turn_persistence_failure_fail_stops_the_agent() {
    let mut run = generating("provider failure must still persist its safe boundary");
    let failure = NanocodexError::Responses(ResponsesError::UnexpectedEnd);
    let action = run.generated(None, Err(failure), 1, false);
    assert!(matches!(
        end_unpersisted(&mut run, action),
        TurnReply::Failed(NanocodexError::PersistRollout { .. })
    ));
    assert_one_failed_end(&mut run);
}

#[test]
fn rollout_persistence_failure_fail_stops_current_and_queued_turns() {
    let mut driver: AgentDriver<u8> = AgentDriver::new(Model::sol(), Thinking::Low, false, None);
    let ask = |number: u64, prompt: &str| TurnCommand::Prompt {
        key: TurnKey { number },
        prompt: Prompt::new(prompt),
        thinking: None,
        fast_mode: None,
        ticket: number,
    };
    driver.handle_idle_command(ask(1, "first durable turn"));
    driver.handle_active_command(ask(2, "must not run after persistence failure"));
    let cancelled = driver.handle_active_command(TurnCommand::Cancel {
        key: TurnKey { number: 2 },
        ticket: 3,
    });
    assert!(matches!(cancelled, DriverAction::Answer { ticket: 3, answer: Answer::Done }));

    let mut run = generating("first durable turn");
    let action = answer(&mut run, response("resp-1", Some("done"), Vec::new()), false);
    let TurnAction::End(outcome) = action else {
        panic!("the turn must end");
    };
    let ended = run.finish(outcome, None, &Vec::new(), 0, user("<turn_aborted>"));
    let error = persist_failure().into_error();
    run.report(Some(&error), 50, TransportCounts::new(), None);
    let Ok(ModelTurnOutcome::Completed(turn)) = ended else {
        panic!("the model completed the turn");
    };
    let outcome = TurnOutcome::Completed(CompletedTurn {
        completion: turn.completion,
        usage: turn.usage,
        checkpoint: Arc::new(1),
    });
    let settled = driver.settle(outcome, Some(persist_failure()));
    assert!(matches!(
        settled.reply,
        TurnReply::Failed(NanocodexError::PersistRollout { .. })
    ));
    let mut recorded = DriverFailure::new();
    recorded.record(persist_failure());

    let stop = settled.stop.unwrap();
    assert_eq!(stop.turns.len(), 1);
    assert_eq!(stop.turns[0].answer.ticket, 2);
    assert_eq!(stop.turns[0].answer.answer, Answer::Refused(Refusal::PersistRollout));
    run.emit_given_up(&stop.turns, &None, &error, 0, None);
    let steer = TurnCommand::Steer {
        key: TurnKey { number: 1 },
        prompt: Prompt::new("rejected after failed persistence"),
        ticket: 5,
    };
    let rejected = vec![
        ask(4, "rejected after failed persistence"),
        steer,
        TurnCommand::Fork { checkpoint: None, ticket: 6 },
        TurnCommand::Spawn { ticket: 7 },
        TurnCommand::Compact { ticket: 8 },
        TurnCommand::Flush { ticket: 9 },
    ];
    for (command, expected) in rejected.into_iter().zip(4..10) {
        assert!(matches!(
            driver.handle_idle_command(command),
            DriverAction::Answer { ticket, answer: Answer::Refused(Refusal::PersistRollout) }
                if ticket == expected
        ));
    }
    assert_eq!(driver.turn_index(), 1);
    let waiting: Vec<DriverCommand<u8>> =
        vec![DriverCommand::Turn(TurnCommand::Fork { checkpoint: None, ticket: 4 })];
    for answered in begin_fail_stop(waiting, Vec::new()) {
        assert_eq!(answered.ticket, 4);
        assert_eq!(answered.answer, Answer::Refused(Refusal::PersistRollout));
    }
    assert_stopped(&mut driver);
    assert!(matches!(
        request_command::<()>(CommandReply::Stopped, &recorded),
        Err(NanocodexError::PersistRollout { .. })
    ));

    let events = run.take_events();
    let failed = events
        .iter()
        .filter(|event| {
            matches!(event, RunEvent::RunEnded { status: TerminalStatus::Failed, .. })
        })
        .count();
    let ends =
        events.iter().filter(|event| matches!(event, RunEvent::RunEnded { .. })).count();
    assert_eq!((failed, ends), (2, 2));
    let messages: Vec<&str> = events
        .iter()
        .filter_map(|event| match event {
            RunEvent::RunError { message } => Some(message.as_str()),
            _ => None,
        })
        .collect();
    assert_eq!(messages.len(), 2);
    assert!(messages.iter().all(|text| text.contains("failed to persist Codex rollout")));
}

#[test]
fn turns_that_are_given_up_are_reported_in_their_order() {
    let mut run = generating("first");
    run.take_events();
    let given_up = |prompt: &str, thinking: Thinking, ticket: u64| FailedTurn {
        prompt: Prompt::new(prompt),
        thinking,
        fast_mode: false,
        answer: TicketAnswer { ticket, answer: Answer::Refused(Refusal::PersistRollout) },
    };
    let turns = vec![given_up("é", Thinking::Low, 2), given_up("third", Thinking::High, 3)];
    let error = persist_failure().into_error();
    run.emit_given_up(&turns, &Some("/work".to_owned()), &error, 9, None);
    let events = run.take_events();
    assert_eq!(events.len(), 6);
    for (reported, (bytes, level)) in
        events.chunks(3).zip([(2, Thinking::Low), (5, Thinking::High)])
    {
        assert!(matches!(
            &reported[0],
            RunEvent::RunStarted { effort, instruction_bytes, workspace, .. }
                if *effort == level
                    && *instruction_bytes == bytes
                    && workspace.as_deref() == Some("/work")
        ));
        assert!(matches!(
            &reported[1],
            RunEvent::RunError { message } if *message == error.message()
        ));
        assert!(matches!(
            &reported[2],
            RunEvent::RunEnded {
                status: TerminalStatus::Failed,
                elapsed_ns: 9,
                effort,
                stats,
                completion: None,
                ..
            } if *effort == level
                && stats.model_calls == 0
                && stats.transport == TransportCounts::new()
        ));
    }
}

#[test]
fn unsupported_direct_tools_return_failed_results_to_the_model() {
    let mut run = generating("recover from unsupported tools");
    let custom = call("call-custom", "missing_custom", CodeCallKind::Custom, "raw input");
    let mut function =
        call("call-function", "missing_function", CodeCallKind::Function, "not json");
    function.namespace = Some("example::".to_owned());
    let action = answer(
        &mut run,
        response("resp-unsupported", None, vec![custom.clone(), function.clone()]),
        false,
    );
    assert!(matches!(action, TurnAction::RunTools { .. }));
    let before = history(&run).len();
    let standing = ToolStanding { registered: false, offered_directly: false };
    let mut last = None;
    for (position, unknown) in [custom, function].iter().enumerate() {
        let ToolPlan::Answer(done) = plan_tool_call(unknown, standing, None) else {
            panic!("the call must be answered without a tool");
        };
        assert!(!done.success);
        last = Some(run.tool_ended(0, Ok(done), 1, 1));
        assert_eq!(position == 1, matches!(last, Some(TurnAction::SizeContext)));
    }
    assert!(last.is_some());
    let items = history(&run);
    assert_eq!(items.len(), before + 2);
    match &*items[before] {
        ResponseItem::CustomToolCallOutput { id: Some(id), call_id, output, .. } => {
            assert_eq!(call_id, "call-custom");
            assert!(matches!(
                output,
                ToolOutputBody::Text(text)
                    if text == "unsupported custom tool call: missing_custom"
            ));
            assert!(id.text().starts_with("ctco_"));
        }
        _ => panic!("the custom call must be answered"),
    }
    match &*items[before + 1] {
        ResponseItem::FunctionCallOutput { id: Some(id), call_id, output } => {
            assert_eq!(call_id, "call-function");
            assert!(matches!(
                output,
                ToolOutputBody::Text(text)
                    if text == "unsupported call: example::missing_function"
            ));
            assert!(id.text().starts_with("fco_"));
        }
        _ => panic!("the function call must be answered"),
    }
    run.sized(0, None, Vec::new());
    run.steers_drained();
    assert_eq!(generate(&mut run).as_deref(), Some("resp-unsupported"));
    let action = answer(&mut run, response("resp-final", Some("done"), Vec::new()), false);
    assert_eq!(completed(end(&mut run, action)).final_message(), Some("done"));
    assert_eq!(run.stats().tool_calls, 2);
    let events = run.take_events();
    let failed = events
        .iter()
        .filter(|event| matches!(event, RunEvent::ToolResult { status: ToolStatus::Failed, .. }))
        .count();
    assert_eq!(failed, 2);
    assert!(matches!(
        events.last(),
        Some(RunEvent::RunEnded { status: TerminalStatus::Completed, .. })
    ));
}

#[test]
fn code_mode_notify_adds_a_named_exec_output_to_the_next_request() {
    let mut run = generating("send a progress notification");
    let code = "notify({phase: \"working\"}); text(\"done\");";
    let exec = call("call-exec", "exec", CodeCallKind::Custom, code);
    answer(&mut run, response("resp-notify", None, vec![exec.clone()]), false);
    let before = run.session().unwrap().conversation.delta_start();
    let cell = CodeModeExecution::new(
        ToolOutputBody::Text("Script completed\ndone".to_owned()),
        true,
        Vec::new(),
        vec![CodeModeNotification::new("call-exec", "{\"phase\":\"working\"}".to_owned())],
    );
    let action = run.tool_ended(0, Ok(complete_cell(&exec, cell)), 1, 1);
    assert!(matches!(action, TurnAction::SizeContext));
    run.sized(0, None, Vec::new());
    run.steers_drained();
    assert_eq!(generate(&mut run).as_deref(), Some("resp-notify"));
    let items = history(&run);
    assert_eq!(items.len(), before + 2);
    assert_eq!(run.session().unwrap().conversation.delta_start(), before);
    match &*items[before] {
        ResponseItem::CustomToolCallOutput { call_id, name, .. } => {
            assert_eq!(call_id, "call-exec");
            assert!(name.is_none());
            assert!(said(&items[before]).contains("done"));
        }
        _ => panic!("the call must be answered"),
    }
    match &*items[before + 1] {
        ResponseItem::CustomToolCallOutput { call_id, name, output, .. } => {
            assert_eq!(call_id, "call-exec");
            assert_eq!(name.as_deref(), Some("exec"));
            assert!(matches!(
                output,
                ToolOutputBody::Text(text) if text == r#"{"phase":"working"}"#
            ));
        }
        _ => panic!("the notification must follow the answer"),
    }
}
