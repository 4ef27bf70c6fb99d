use nanocodex::code_mode::{
    CodeModeNotification, NestedToolCall, ReceiptLimits, TerminalToolSelection, ToolTurnBehavior,
};
use nanocodex::config::{ModelConfig, OpenAiAuth, Thinking};
use nanocodex::conversation::{
    assign_request_prefix_ids, request_profile, validate_resumed_prefix, without_response_item_ids, ContextBaseline,
    ContinuationPolicy, ConversationState, HistoryCheckpoint, ModelCheckpoint, RequestProfile,
};
use nanocodex::error::NanocodexError;
use nanocodex::items::{
    ContentItem, ItemKind, MessageRole, ResponseItem, ResponseItemId, ToolDefinition, ToolOutputBody,
};
use nanocodex::pricing::Usage;
use nanocodex::prompt::Prompt;
use nanocodex::run::calls::{CompactedContext, CompactionPhase, WarmupOutcome};
use nanocodex::run::events::{RunEvent, TerminalStatus, TransportCounts, WarmupSource};
use nanocodex::run::tools::InterruptedCall;
use nanocodex::run::turn::{
    CompactionReply, ContextUpdate, DriveStep, ModelCompactOutcome, ModelTaskOutcome,
    ModelTurnOutcome, TaskStart, TurnCompletion, TurnEnding,
};
use nanocodex::run::ModelRun;
use nanocodex::service::{
    CompactionOutput, GenerationOutput, ResponsesOutput, ResponsesServiceResponse, WarmupOutput,
};
use nanocodex::session_id::SessionId;
use nanocodex::tool_calls::{
    complete_code_call, complete_direct_call, event_context, parent_in_call_id, plan_direct_call,
    plan_tool_call, read_arguments, CallIndex, CodeCall, CodeCallKind, ToolCallArguments,
    ToolExecution, ToolGate, ToolPlan, ToolStanding, ToolStatus,
};
use nanocodex::transport::error::ResponsesError;
use std::sync::Arc;

const LIMITS: ReceiptLimits = ReceiptLimits { max_output_bytes: 64, max_metadata_bytes: 32 };

fn item(role: MessageRole, text: &str) -> Arc<ResponseItem> {
    let content = ContentItem::InputText { text: text.to_owned() };
    Arc::new(ResponseItem::message(role, vec![content]))
}

fn user(text: &str) -> Arc<ResponseItem> {
    item(MessageRole::User, text)
}

fn assistant(text: &str) -> Arc<ResponseItem> {
    let content = ContentItem::OutputText { text: text.to_owned() };
    Arc::new(ResponseItem::message(MessageRole::Assistant, vec![content]))
}

fn text_content(text: &str) -> Vec<ContentItem> {
    vec![ContentItem::InputText { text: text.to_owned() }]
}

fn first_text(item: &ResponseItem) -> String {
    match item {
        ResponseItem::Message { content, .. } => match &content[0] {
            ContentItem::InputText { text } | ContentItem::OutputText { text } => text.clone(),
            _ => panic!("the content must be text"),
        },
        ResponseItem::FunctionCallOutput { output, .. }
        | ResponseItem::CustomToolCallOutput { output, .. } => match output {
            ToolOutputBody::Text(text) => text.clone(),
            _ => panic!("the output must be text"),
        },
        _ => panic!("the item must hold text"),
    }
}

fn profile() -> RequestProfile {
    request_profile("session", "cache", vec![], "system prompt")
}

fn code_call(call_id: &str, name: &str, kind: CodeCallKind, input: &str) -> CodeCall {
    CodeCall {
        call_id: call_id.to_owned(),
        name: name.to_owned(),
        namespace: None,
        input: input.to_owned(),
        kind,
    }
}

fn generation(call: u32, text: Option<&str>, code_calls: Vec<CodeCall>) -> GenerationOutput {
    GenerationOutput {
        id: format!("resp-{}", call),
        status: "completed".to_owned(),
        end_turn: None,
        final_message: text.map(str::to_owned),
        output_items: match text {
            Some(text) => vec![assistant(text)],
            None => Vec::new(),
        },
        code_calls,
        usage: Some(Usage {
            input_tokens: 10,
            input_tokens_details: None,
            output_tokens: 2,
            output_tokens_details: None,
            total_tokens: 12,
        }),
        time_to_first_event_ns: 3,
        time_to_first_output_ns: Some(4),
    }
}

fn reply(output: ResponsesOutput) -> ResponsesServiceResponse {
    ResponsesServiceResponse {
        output,
        attempt: 1,
        connection_generation: 1,
        server_reasoning_included: false,
    }
}

fn open_run() -> ModelRun {
    let config = Arc::new(ModelConfig::new(OpenAiAuth::api_key(), "system prompt".to_owned()));
    let mut run = ModelRun::new(config, Some("global".to_owned()));
    run.begin_turn(&Prompt::new("héllo"), Some("/work".to_owned()), Thinking::Low, false);
    assert!(matches!(run.start_task(Some("/work"), 1), TaskStart::Fresh));
    let history = vec![item(MessageRole::Developer, "rules"), user("context"), user("héllo")];
    let checkpoint = run
        .open_session(
            "/work".to_owned(),
            profile(),
            1,
            history,
            user("context"),
            ContextBaseline::Known("baseline".to_owned()),
        )
        .unwrap_or_else(|error| panic!("{}", error.message()));
    assert!(checkpoint.preserve_inherited_delta);
    assert_eq!(checkpoint.global_instructions.as_deref(), Some("global"));
    assert_eq!(first_text(&checkpoint.conversation.canonical_context()), "context");
    run
}

fn generate(run: &mut ModelRun, output: GenerationOutput) -> GenerationOutput {
    let history = run.session().unwrap().conversation.flattened_history();
    let request = run.begin_model_call(history, false);
    let reply = reply(ResponsesOutput::Generation(output));
    match run.finish_model_call(request.call_index, None, Ok(reply), 5) {
        Ok(output) => output,
        Err(error) => panic!("{}", error.message()),
    }
}

fn message(text: &str) -> TurnCompletion {
    TurnCompletion::Message { final_message: text.to_owned() }
}

fn history(run: &ModelRun) -> Vec<Arc<ResponseItem>> {
    run.session().unwrap().conversation.flattened_history()
}

#[test]
fn a_turn_ends_with_the_models_message() {
    let mut run = open_run();
    assert!(!run.drains_steers());
    let output = generate(&mut run, generation(1, Some("done"), Vec::new()));
    let step = run.take_response(output, false);
    assert!(matches!(step, DriveStep::Completed(text) if text == "done"));
    let ended = match run.finish_completed_turn(message("done"), None) {
        Ok(turn) => Ok(ModelTurnOutcome::Completed(turn)),
        Err(error) => Err(error),
    };
    run.report_end(TurnEnding::of(&ended), None, 100, TransportCounts::new(), None);
    let Ok(ModelTurnOutcome::Completed(turn)) = ended else {
        panic!("the turn must be completed");
    };
    assert_eq!(turn.completion.final_message(), Some("done"));
    assert_eq!(turn.usage.input_tokens(), 10);
    assert_eq!(turn.checkpoint.conversation.previous_response_id().as_deref(), Some("resp-1"));
    assert!(!turn.checkpoint.preserve_inherited_delta);
    assert_eq!(run.stats().model_calls, 1);
    assert_eq!(run.stats().model_duration_ns, 5);
    assert_eq!(run.stats().last_response_id.as_deref(), Some("resp-1"));

    let events = run.take_events();
    assert_eq!(events.len(), 4);
    assert!(matches!(
        &events[0],
        RunEvent::RunStarted { instruction_bytes: 6, effort: Thinking::Low, endpoint, .. }
            if endpoint == "wss://api.openai.com/v1/responses"
    ));
    assert!(matches!(events[1], RunEvent::ModelCallStarted { call_index: 1, .. }));
    assert!(matches!(
        events[2],
        RunEvent::ModelCallCompleted { call_index: 1, tool_calls: 0, duration_ns: 5, .. }
    ));
    assert!(matches!(
        events[3],
        RunEvent::RunEnded { status: TerminalStatus::Completed, elapsed_ns: 100, .. }
    ));
    assert!(run.take_events().is_empty());
}

#[test]
fn responses_decide_what_follows() {
    let mut run = open_run();
    let blank = generate(&mut run, generation(1, Some("  "), Vec::new()));
    assert!(matches!(
        run.take_response(blank, false),
        DriveStep::Completed(text)
            if text == "The model completed without emitting assistant text."
    ));
    let steered = generate(&mut run, generation(2, Some("x"), Vec::new()));
    assert!(matches!(
        run.take_response(steered, true),
        DriveStep::Continue { compaction_holds_steers: false }
    ));
    let mut more = generation(3, Some("x"), Vec::new());
    more.end_turn = Some(false);
    let more = generate(&mut run, more);
    assert!(matches!(
        run.take_response(more, false),
        DriveStep::Continue { compaction_holds_steers: true }
    ));
    let silent = generate(&mut run, generation(4, None, Vec::new()));
    assert!(matches!(
        run.take_response(silent, false),
        DriveStep::Failed(NanocodexError::MalformedResponse {
            detail: "model completed without a final message or exec call"
        })
    ));
    let code = code_call("c1", "exec", CodeCallKind::Custom, "text(1)");
    let calls = generate(&mut run, generation(5, Some("x"), vec![code]));
    match run.take_response(calls, false) {
        DriveStep::RunTools { calls, history } => {
            assert_eq!(calls.len(), 1);
            assert_eq!(history.unwrap().len(), run_history_len(&run));
        }
        _ => panic!("the tools must run"),
    }
    let wait = code_call("c2", "wait", CodeCallKind::Function, "{}");
    let calls = generate(&mut run, generation(6, None, vec![wait]));
    assert!(matches!(
        run.take_response(calls, false),
        DriveStep::RunTools { history: None, .. }
    ));
}

fn run_history_len(run: &ModelRun) -> usize {
    history(run).len()
}

#[test]
fn steering_waits_for_the_first_generation() {
    let mut run = open_run();
    assert!(!run.drains_steers());
    let output = generate(&mut run, generation(1, Some("x"), Vec::new()));
    run.take_response(output, true);
    assert!(run.drains_steers());
    run.take_steer(&Prompt::new("hurry"), text_content("hurry"));
    assert_eq!(run.stats().steers, 1);
    assert_eq!(first_text(history(&run).last().unwrap()), "hurry");
    assert!(matches!(
        run.take_events().last(),
        Some(RunEvent::RunSteered { steer_index: 1, instruction_bytes: 5 })
    ));
    run.note_compaction(true);
    assert!(!run.drains_steers());
    run.note_compaction(false);
    assert!(run.drains_steers());
}

fn finished(call: &CodeCall, text: &str) -> nanocodex::tool_calls::CompletedToolCall {
    let output = ToolOutputBody::Text(text.to_owned());
    complete_code_call(call, true, output, Vec::new(), 7, TerminalToolSelection::Unselected)
}

#[test]
fn tool_results_are_answered_in_the_models_order() {
    let first = code_call("c1", "exec", CodeCallKind::Custom, "a");
    let second = code_call("c2", "exec", CodeCallKind::Custom, "b");
    let mut texts = Vec::new();
    for order in [[0, 1], [1, 0]] {
        let mut run = open_run();
        let output =
            generate(&mut run, generation(1, None, vec![first.clone(), second.clone()]));
        run.take_response(output, false);
        run.begin_tool_batch();
        run.prepare_model_tool_call(1, &first);
        run.prepare_model_tool_call(1, &second);
        for position in order {
            let call = if position == 0 { &first } else { &second };
            run.record_completion(position, finished(call, &call.input), 9);
        }
        assert!(run.settle_next_tool_call().is_none());
        assert!(run.settle_next_tool_call().is_none());
        assert!(run.settle_next_tool_call().is_some());
        run.finish_active_tool_batch_wall(20);
        assert_eq!(run.stats().tool_calls, 2);
        assert_eq!(run.stats().tool_work_duration_ns, 18);
        assert_eq!(run.stats().tool_wall_duration_ns, 20);
        let items = history(&run);
        let answers: Vec<String> =
            items[items.len() - 2..].iter().map(|item| first_text(item)).collect();
        texts.push(answers);
    }
    assert_eq!(texts[0], ["a", "b"]);
    assert_eq!(texts[0], texts[1]);
}

fn interrupted(work: Option<u64>) -> InterruptedCall {
    InterruptedCall {
        duration_ns: 1_500_000_000,
        work_duration_ns: work,
        seconds: "1.5".to_owned(),
        at_least_a_tenth: "1.5".to_owned(),
    }
}

#[test]
fn cancellation_pairs_an_active_tool_call_before_resuming() {
    let mut run = open_run();
    let first = code_call("c1", "exec", CodeCallKind::Custom, "a");
    let second = code_call("c2", "wait", CodeCallKind::Function, "{}");
    let output = generate(&mut run, generation(1, None, vec![first.clone(), second.clone()]));
    run.take_response(output, false);
    run.begin_tool_batch();
    run.prepare_model_tool_call(1, &first);
    run.prepare_model_tool_call(1, &second);
    run.nested_call_started(
        1,
        "c2/code-1",
        "double".to_owned(),
        ToolCallArguments::Raw("{}".to_owned()),
        9,
    );
    run.record_completion(0, finished(&first, "a"), 9);
    assert!(run.stops_tools(&ModelTaskOutcome::Cancelled));
    let before = run_history_len(&run);
    run.take_events();
    let checkpoint = run
        .finish_cancelled_turn(
            &vec![interrupted(None), interrupted(Some(11))],
            30,
            user("interrupted"),
        )
        .ok()
        .unwrap();
    let items = history(&run);
    assert_eq!(items.len(), before + 3);
    assert_eq!(first_text(&items[before]), "a");
    assert!(matches!(&*items[before + 1], ResponseItem::FunctionCallOutput { call_id, .. } if call_id == "c2"));
    assert_eq!(first_text(&items[before + 1]), "aborted by user after 1.5s");
    assert_eq!(first_text(&items[before + 2]), "interrupted");
    assert_eq!(checkpoint.conversation.previous_response_id(), None);
    assert_eq!(checkpoint.conversation.delta_start(), 0);
    assert_eq!(run.stats().tool_calls, 3);
    assert_eq!(run.stats().tool_work_duration_ns, 20);
    assert_eq!(run.stats().tool_wall_duration_ns, 30);
    let cancelled = Ok(ModelTurnOutcome::Cancelled(checkpoint));
    run.report_end(TurnEnding::of(&cancelled), None, 50, TransportCounts::new(), None);

    let events = run.take_events();
    assert_eq!(events.len(), 3);
    assert!(matches!(
        events[0],
        RunEvent::ToolResult { status: ToolStatus::Cancelled, duration_ns: 1_500_000_000, .. }
    ));
    assert!(matches!(events[1], RunEvent::RunError { .. }));
    assert!(matches!(
        events[2],
        RunEvent::RunEnded { status: TerminalStatus::Cancelled, elapsed_ns: 50, .. }
    ));
}

#[test]
fn failed_turns_keep_the_history_and_ask_for_a_compaction() {
    let mut run = open_run();
    let output = generate(&mut run, generation(1, Some("x"), Vec::new()));
    run.take_response(output, true);
    let before = run_history_len(&run);
    assert!(!run.wants_compaction(10, Some(20)));
    assert!(run.wants_compaction(20, Some(20)));
    let error = NanocodexError::Responses(ResponsesError::ContextWindowExceeded {
        event: String::new(),
    });
    let outcome = run.finish_failed_turn(error, &Vec::new(), 0, user("unused"));
    run.report_end(TurnEnding::of(&outcome), None, 5, TransportCounts::new(), None);
    match outcome {
        Ok(ModelTurnOutcome::Failed { error, checkpoint }) => {
            assert!(error.responses_error().unwrap().is_context_window_exceeded());
            assert_eq!(checkpoint.conversation.flattened_history().len(), before);
            assert_eq!(checkpoint.conversation.previous_response_id(), None);
        }
        _ => panic!("the turn must have failed"),
    }
    assert!(run.wants_compaction(0, Some(20)));
    assert!(!run.wants_compaction(0, None));
    assert!(matches!(
        run.take_events().last(),
        Some(RunEvent::RunEnded { status: TerminalStatus::Failed, .. })
    ));

    let config = Arc::new(ModelConfig::new(OpenAiAuth::api_key(), "p".to_owned()));
    let mut fresh = ModelRun::new(config, None);
    let error = NanocodexError::TurnStopped;
    assert!(fresh.finish_failed_turn(error, &Vec::new(), 0, user("unused")).is_err());
    assert!(fresh.finish_completed_turn(message("x"), None).is_err());
}

#[test]
fn failed_requests_are_reported() {
    let mut run = open_run();
    let request = run.begin_model_call(Vec::new(), true);
    assert_eq!(request.previous_response_id, None);
    let failed = run.finish_model_call(
        request.call_index,
        None,
        Err(NanocodexError::Responses(ResponsesError::UnexpectedEnd)),
        4,
    );
    assert!(failed.is_err());
    assert!(matches!(
        run.take_events().last(),
        Some(RunEvent::ModelCallFailed { call_index: 1, duration_ns: 4, .. })
    ));
    let warmup = WarmupOutput { id: "w".to_owned(), usage: None };
    let wrong = reply(ResponsesOutput::Warmup(warmup));
    assert!(matches!(
        run.finish_model_call(1, None, Ok(wrong), 4),
        Err(NanocodexError::InvalidAttemptState {
            detail: "generation returned a non-generation response"
        })
    ));
}

#[test]
fn a_repaired_history_takes_the_place_of_the_conversations_own() {
    let mut run = open_run();
    let repaired = vec![user("context"), user("only")];
    let request = run.begin_model_call(repaired.clone(), true);
    let output = generation(1, Some("x"), Vec::new());
    let reply = reply(ResponsesOutput::Generation(output));
    assert!(run.finish_model_call(request.call_index, Some(repaired), Ok(reply), 1).is_ok());
    assert_eq!(history(&run).len(), 2);
    assert_eq!(run.session().unwrap().conversation.previous_response_id(), None);
}

fn compaction_reply() -> ResponsesServiceResponse {
    reply(ResponsesOutput::Compaction(CompactionOutput {
        id: "resp-c".to_owned(),
        status: "completed".to_owned(),
        item: Arc::new(ResponseItem::Compaction {
            id: None,
            encrypted_content: "summary".to_owned(),
        }),
        usage: None,
        time_to_first_event_ns: 1,
        time_to_first_output_ns: None,
    }))
}

#[test]
fn compaction_replaces_the_history() {
    let mut run = open_run();
    let output = generate(&mut run, generation(1, Some("x"), Vec::new()));
    run.take_response(output, true);
    let request = run.begin_compaction(1, history(&run), 25, 20);
    assert_eq!(request.previous_response_id.as_deref(), Some("resp-1"));
    let compacted = run.finish_compaction(1, Ok(compaction_reply()), 6).ok().unwrap();
    assert!(matches!(*compacted.item, ResponseItem::Compaction { .. }));
    let installed = vec![user("context"), compacted.item];
    assert!(run.install_compaction(CompactionPhase::MidTurn, installed, false).is_none());
    assert_eq!(history(&run).len(), 2);
    assert_eq!(run.session().unwrap().conversation.previous_response_id(), None);
    assert_eq!(run.stats().compactions, 1);
    let events = run.take_events();
    let n = events.len();
    assert!(matches!(
        events[n - 2],
        RunEvent::CompactionStarted {
            active_context_tokens: 25,
            auto_compact_token_limit: 20,
            ..
        }
    ));
    assert!(matches!(events[n - 1], RunEvent::CompactionCompleted { duration_ns: 6, .. }));
    let failed =
        run.finish_compaction(1, Err(NanocodexError::Responses(ResponsesError::InvalidJson)), 1);
    assert!(failed.is_err());
    assert!(matches!(run.take_events().last(), Some(RunEvent::CompactionFailed { .. })));
    let wrong = reply(ResponsesOutput::Generation(generation(2, None, Vec::new())));
    assert!(run.finish_compaction(1, Ok(wrong), 1).is_err());
}

#[test]
fn requested_compactions_end_in_a_boundary() {
    let mut run = open_run();
    let refused = run.begin_compact(Some("/elsewhere"), Thinking::Low, false, 2);
    assert!(matches!(
        refused,
        Some(ModelCompactOutcome::Failed {
            error: NanocodexError::WorkspaceChanged { current, requested },
            ..
        }) if current == "/work" && requested == "/elsewhere"
    ));
    assert!(run.begin_compact(None, Thinking::Low, false, 2).is_none());
    let before = run_history_len(&run);
    assert!(matches!(
        run.finish_compact(CompactionReply::Cancelled, Vec::new()),
        ModelCompactOutcome::Cancelled(checkpoint)
            if checkpoint.conversation.flattened_history().len() == before
    ));
    assert!(matches!(
        run.finish_compact(CompactionReply::Failed(NanocodexError::TurnStopped), Vec::new()),
        ModelCompactOutcome::Failed { error: NanocodexError::TurnStopped, .. }
    ));
    let compacted = CompactedContext {
        item: user("summary"),
        usage: None,
        server_reasoning_included: true,
    };
    assert!(matches!(
        run.finish_compact(CompactionReply::Completed(compacted), vec![user("summary")]),
        ModelCompactOutcome::Completed(checkpoint)
            if checkpoint.conversation.flattened_history().len() == 1
    ));
}

#[test]
fn warmups_seed_the_continuation() {
    let mut run = open_run();
    run.take_events();
    assert!(run.begin_warmup());
    let warmup = WarmupOutput { id: "resp-w".to_owned(), usage: None };
    let execution = ModelRun::read_warmup(Ok(reply(ResponsesOutput::Warmup(warmup)))).ok().unwrap();
    let outcome = run.finish_warmup(Ok(Some(execution)), 8).ok().unwrap();
    assert_eq!(outcome.response_id.as_deref(), Some("resp-w"));
    assert!(run.apply_warmup(Ok(outcome)).is_none());
    assert_eq!(
        run.session().unwrap().conversation.previous_response_id().as_deref(),
        Some("resp-w")
    );
    assert_eq!(run.stats().warmup_duration_ns, 8);
    let events = run.take_events();
    assert!(matches!(&events[0], RunEvent::WarmupStarted { prompt_cache_key } if prompt_cache_key == "cache"));
    assert!(matches!(
        events[1],
        RunEvent::WarmupCompleted { source: WarmupSource::Response, duration_ns: 8, .. }
    ));
    let shared = run.finish_warmup(Ok(None), 1).ok().unwrap();
    assert!(shared.response_id.is_none());
    assert!(matches!(
        run.take_events().last(),
        Some(RunEvent::WarmupCompleted { source: WarmupSource::SharedPrefix, .. })
    ));
    assert!(run.finish_warmup(Err(NanocodexError::TurnStopped), 1).is_err());
    assert!(matches!(run.take_events().last(), Some(RunEvent::WarmupFailed { .. })));
    let _ = run.apply_warmup(Ok(WarmupOutcome {
        response_id: None,
        server_reasoning_included: false,
    }));
}

fn tokens(input_tokens: u64, output_tokens: u64) -> Usage {
    Usage {
        input_tokens,
        input_tokens_details: None,
        output_tokens,
        output_tokens_details: None,
        total_tokens: input_tokens + output_tokens,
    }
}

#[test]
fn warmup_tokens_are_counted_apart_and_billed_with_the_turn() {
    let mut run = open_run();
    assert!(run.begin_warmup());
    let warmup = WarmupOutput { id: "resp-w".to_owned(), usage: Some(tokens(7, 1)) };
    let execution = ModelRun::read_warmup(Ok(reply(ResponsesOutput::Warmup(warmup)))).ok().unwrap();
    let outcome = run.finish_warmup(Ok(Some(execution)), 8).ok().unwrap();
    assert!(run.apply_warmup(Ok(outcome)).is_none());
    assert_eq!(run.stats().usage.input_tokens, 0);
    assert_eq!(run.stats().usage.total_tokens, 0);
    assert_eq!(run.stats().warmup_usage.input_tokens, 7);
    assert_eq!(run.stats().warmup_usage.output_tokens, 1);
    assert_eq!(run.stats().warmup_usage.total_tokens, 8);

    generate(&mut run, generation(1, Some("x"), Vec::new()));
    assert_eq!(run.stats().usage.input_tokens, 10);
    assert_eq!(run.stats().usage.total_tokens, 12);
    assert_eq!(run.stats().warmup_usage.total_tokens, 8);
    let usage = run.turn_usage(None);
    assert_eq!(usage.input_tokens(), 17);
    assert_eq!(usage.output_tokens(), 3);
    assert_eq!(usage.total_tokens(), 20);
}

#[test]
fn unreported_warmup_tokens_leave_the_rest_reported() {
    let mut run = open_run();
    assert!(run.begin_warmup());
    let warmup = WarmupOutput { id: "resp-w".to_owned(), usage: None };
    let execution = ModelRun::read_warmup(Ok(reply(ResponsesOutput::Warmup(warmup)))).ok().unwrap();
    assert!(run.finish_warmup(Ok(Some(execution)), 8).is_ok());
    assert!(run.stats().usage.reported);
    assert!(!run.stats().warmup_usage.reported);
    assert!(!run.stats().usage.join(run.stats().warmup_usage).reported);
}

#[test]
fn the_end_of_a_turn_states_what_the_transport_counted() {
    let mut run = open_run();
    let output = generate(&mut run, generation(1, Some("done"), Vec::new()));
    run.take_response(output, false);
    let ended = run.finish_completed_turn(message("done"), None).map(ModelTurnOutcome::Completed);
    let counted = TransportCounts {
        connection_attempts: 2,
        websocket_reconnects: 1,
        response_attempts: 4,
        response_retries: 3,
        billing_uncertain_response_attempts: 1,
        connection_duration_ns: 70,
        retry_backoff_duration_ns: 80,
    };
    run.report_end(TurnEnding::of(&ended), None, 100, counted, None);
    let events = run.take_events();
    let Some(RunEvent::RunEnded { stats, status: TerminalStatus::Completed, .. }) = events.last()
    else {
        panic!("the turn must be completed");
    };
    assert_eq!(stats.transport, counted);
    assert_eq!(stats.model_calls, 1);
    assert_eq!(run.stats().transport, counted);
}

#[test]
fn follow_on_turns_continue_the_conversation() {
    let mut run = open_run();
    let output = generate(&mut run, generation(1, Some("x"), Vec::new()));
    run.take_response(output, false);
    assert!(run.finish_completed_turn(message("x"), None).is_ok());
    run.begin_turn(&Prompt::new("next"), None, Thinking::Low, false);
    assert!(matches!(
        run.start_task(Some("/other"), 2),
        TaskStart::Refused(NanocodexError::WorkspaceChanged { .. })
    ));
    assert!(matches!(run.start_task(None, 2), TaskStart::FollowOn));
    let before = run_history_len(&run);
    run.begin_follow_on(false);
    run.finish_follow_on(
        ContextUpdate::Partial(user("the directory changed")),
        user("new context"),
        item(MessageRole::Developer, "rules"),
        ContextBaseline::Known("later".to_owned()),
        text_content("next"),
    );
    let items = history(&run);
    assert_eq!(items.len(), before + 2);
    assert_eq!(first_text(&items[before]), "the directory changed");
    assert_eq!(first_text(&items[before + 1]), "next");
    let request = run.begin_model_call(items, false);
    assert_eq!(request.previous_response_id.as_deref(), Some("resp-1"));
    assert_eq!(request.delta_start, before);
    assert_eq!(request.call_index, 1);
    let snapshot = run.publish_fork_snapshot();
    assert_eq!(snapshot.conversation.flattened_history().len(), before + 2);

    run.begin_turn(&Prompt::new("again"), None, Thinking::High, false);
    assert!(matches!(run.start_task(None, 3), TaskStart::FollowOn));
    assert_eq!(run.session().unwrap().conversation.previous_response_id(), None);
}

#[test]
fn cancelled_turns_keep_the_accepted_prompt() {
    let mut run = open_run();
    let before = run_history_len(&run);
    run.cancel_follow_on(text_content("accepted"));
    assert_eq!(run_history_len(&run), before + 1);
    assert_eq!(first_text(history(&run).last().unwrap()), "accepted");
    run.take_events();
    run.emit_cancelled_before_start(&Prompt::new("later"), None, Thinking::Low, false, 0, None);
    let events = run.take_events();
    assert!(matches!(events[0], RunEvent::RunStarted { .. }));
    assert!(matches!(events[1], RunEvent::RunError { .. }));
    assert!(matches!(
        events[2],
        RunEvent::RunEnded { status: TerminalStatus::Cancelled, .. }
    ));
}

#[test]
fn resumed_runs_prefer_their_own_instructions() {
    let mut run = open_run();
    let output = generate(&mut run, generation(1, Some("x"), Vec::new()));
    run.take_response(output, false);
    let mut checkpoint = run.finish_completed_turn(message("x"), None).ok().unwrap().checkpoint;
    let config = || Arc::new(ModelConfig::new(OpenAiAuth::api_key(), "p".to_owned()));
    let resumed = ModelRun::from_checkpoint(config(), "next".to_owned(), checkpoint.clone(), None);
    let session = resumed.session().unwrap();
    assert_eq!(session.profile.session_id, "next");
    assert_eq!(session.profile.prompt_cache_key, "cache");
    assert_eq!(session.workspace, "/work");
    assert_eq!(history(&resumed).len(), history(&run).len());
    assert_eq!(
        resumed.publish_fork_snapshot().global_instructions.as_deref(),
        Some("global")
    );
    checkpoint.prefer_global_instructions(None);
    assert_eq!(checkpoint.global_instructions.as_deref(), Some("global"));
    checkpoint.prefer_global_instructions(Some("newer".to_owned()));
    assert_eq!(checkpoint.global_instructions.as_deref(), Some("newer"));

    let mut empty = ModelRun::new(config(), None);
    empty.open_empty_session("/work".to_owned(), profile(), user("context"));
    assert!(history(&empty).is_empty());
    assert_eq!(ModelConfig::orchestration(), "local_code_mode");
}

#[test]
fn nested_and_panicked_calls_are_reported() {
    let mut run = open_run();
    let exec = code_call("c1", "exec", CodeCallKind::Custom, "x");
    run.prepare_model_tool_call(3, &exec);
    run.nested_call_started(
        0,
        "c1/code-1",
        "double".to_owned(),
        ToolCallArguments::Raw("{}".to_owned()),
        9,
    );
    assert!(matches!(
        run.take_events().last(),
        Some(RunEvent::ToolCall { call_id, model_call_index: 3, .. }) if call_id == "c1/code-1"
    ));
    run.nested_call_completed(
        0,
        NestedToolCall {
            call_id: "c1/code-1".to_owned(),
            name: "double".to_owned(),
            input: "{}".to_owned(),
            output: ToolOutputBody::Text("4".to_owned()),
            success: true,
            turn_behavior: ToolTurnBehavior::Continue,
            started_after_ns: 2,
            duration_ns: 3,
            metadata: None,
        },
    );
    assert!(matches!(
        run.take_events().last(),
        Some(RunEvent::ToolResult {
            status: ToolStatus::Completed,
            duration_ns: 3,
            started_after_ns: Some(2),
            ..
        })
    ));
    let panicked = run.panicked_tool_call(0, 8);
    assert!(!panicked.success);
    assert_eq!(first_text(&panicked.response_items[0]), "aborted");
    assert!(matches!(
        &*panicked.response_items[0],
        ResponseItem::CustomToolCallOutput { call_id, .. } if call_id == "c1"
    ));
}

fn standing(registered: bool, offered_directly: bool) -> ToolStanding {
    ToolStanding { registered, offered_directly }
}

#[test]
fn calls_are_planned_by_their_kind() {
    let exec = code_call("c1", "exec", CodeCallKind::Custom, "text(1)");
    let owned = Arc::new(vec![user("x")]);
    assert!(matches!(plan_tool_call(&exec, standing(false, false), Some(owned)), ToolPlan::Code(_)));
    assert!(matches!(
        plan_tool_call(&exec, standing(false, false), None),
        ToolPlan::Fail(NanocodexError::MalformedResponse { .. })
    ));
    let wait = code_call("c2", "wait", CodeCallKind::Function, "{}");
    assert!(matches!(plan_tool_call(&wait, standing(false, false), None), ToolPlan::Wait));
    let search = code_call("c3", "tool_search", CodeCallKind::ToolSearch, "  {\"q\": 1} ");
    assert!(matches!(
        plan_tool_call(&search, standing(true, false), None),
        ToolPlan::Direct { tool, input, history: None } if tool == "tool_search" && input == "{\"q\": 1}"
    ));
    let seen = Arc::new(vec![user("x")]);
    assert!(matches!(
        plan_tool_call(&search, standing(true, false), Some(seen)),
        ToolPlan::Direct { history: Some(_), .. }
    ));
    let plain = code_call("c4", "double", CodeCallKind::Function, "{}");
    assert!(matches!(
        plan_tool_call(&plain, standing(true, true), Some(Arc::new(Vec::new()))),
        ToolPlan::Direct { tool, history: None, .. } if tool == "double"
    ));
    assert!(matches!(
        plan_tool_call(&plain, standing(true, false), None),
        ToolPlan::Answer(_)
    ));
    let broken = CodeCall { input: "{".to_owned(), ..search.clone() };
    let expected = serde_json::value::RawValue::from_string("{".to_owned()).unwrap_err();
    match plan_tool_call(&broken, standing(true, false), None) {
        ToolPlan::Unreadable(execution) => {
            assert!(matches!(
                execution.output,
                ToolOutputBody::Text(text)
                    if text == format!("failed to encode tool_search arguments: {}", expected)
            ));
        }
        _ => panic!("the input cannot be read"),
    }
    assert!(matches!(
        plan_direct_call(&broken, Err("because".to_owned()), None),
        ToolPlan::Unreadable(ToolExecution { output: ToolOutputBody::Text(text), .. })
            if text == "failed to encode tool_search arguments: because"
    ));
}

#[test]
fn events_show_arguments_as_they_can_be_read() {
    let wait = code_call("c", "wait", CodeCallKind::Function, " {\"a\":1}");
    assert!(matches!(
        read_arguments(&wait, Ok("{\"a\":1}".to_owned())),
        ToolCallArguments::Raw(raw) if raw == "{\"a\":1}"
    ));
    assert!(matches!(
        read_arguments(&wait, Err("bad".to_owned())),
        ToolCallArguments::Text(text) if text == " {\"a\":1}"
    ));
    let mut run = open_run();
    run.prepare_model_tool_call(1, &wait);
    assert!(matches!(
        run.take_events().last(),
        Some(RunEvent::ToolCall { arguments: ToolCallArguments::Raw(raw), .. })
            if raw == "{\"a\":1}"
    ));
    let exec = code_call("c", "exec", CodeCallKind::Custom, "{\"a\":1}");
    run.prepare_model_tool_call(1, &exec);
    assert!(matches!(
        run.take_events().last(),
        Some(RunEvent::ToolCall { arguments: ToolCallArguments::Text(text), .. })
            if text == "{\"a\":1}"
    ));
}

#[test]
fn searches_are_answered_with_what_they_found() {
    let search = code_call("c1", "tool_search", CodeCallKind::ToolSearch, "{}");
    let execution = |success: bool| ToolExecution {
        success,
        output: ToolOutputBody::Text("[]".to_owned()),
        metadata: None,
    };
    let found = || Some(vec!["{\"name\":\"x\"}".to_owned()]);
    let completed = complete_direct_call(&search, execution(true), found(), 1, ToolTurnBehavior::Continue, LIMITS);
    assert!(matches!(
        &*completed.response_items[0],
        ResponseItem::ToolSearchOutput { tools, .. } if tools.len() == 1
    ));
    let failed = complete_direct_call(&search, execution(false), found(), 1, ToolTurnBehavior::Continue, LIMITS);
    assert!(matches!(
        &*failed.response_items[0],
        ResponseItem::ToolSearchOutput { tools, .. } if tools.is_empty()
    ));
}

#[test]
fn nested_calls_belong_to_their_parent() {
    let indices = vec![
        CallIndex { call_id: "c1".to_owned(), index: 4 },
        CallIndex { call_id: "c2".to_owned(), index: 5 },
    ];
    assert_eq!(parent_in_call_id("c1/code-3").as_deref(), Some("c1"));
    assert_eq!(parent_in_call_id("plain"), None);
    let named = event_context("c1/code-3", "c2", &indices, 9);
    assert_eq!((named.call_id.as_str(), named.call_index), ("c1/code-3", 4));
    let unknown = event_context("other/code-1", "c2", &indices, 9);
    assert_eq!(unknown.call_id, "other/code-1");
    assert!(matches!(ToolGate::for_call(true), ToolGate::Shared));
    assert!(matches!(ToolGate::for_call(false), ToolGate::Exclusive));
}

#[test]
fn changed_settings_force_a_full_request() {
    let mut conversation = ConversationState::new(vec![user("a")]).ok().unwrap();
    let low = ContinuationPolicy { thinking: Thinking::Low, fast_mode: false };
    conversation.prepare_request_policy(low);
    conversation.set_previous_response_id("resp".to_owned());
    conversation.clear_delta();
    conversation.prepare_request_policy(low);
    assert_eq!(conversation.previous_response_id().as_deref(), Some("resp"));
    assert_eq!(conversation.delta_start(), 1);
    conversation.prepare_request_policy(ContinuationPolicy {
        thinking: Thinking::Low,
        fast_mode: true,
    });
    assert_eq!(conversation.previous_response_id(), None);
    assert_eq!(conversation.delta_start(), 0);
    assert!(matches!(
        ConversationState::new(vec![assistant("a")]),
        Err(NanocodexError::MalformedResponse {
            detail: "task input did not include initial context"
        })
    ));
}

fn stored(context: Arc<ResponseItem>, fault: Option<String>) -> HistoryCheckpoint {
    HistoryCheckpoint {
        workspace: "/work".to_owned(),
        canonical_context: context,
        history: vec![user("context"), assistant("a")],
        fault,
        prompt_cache_key: "cache".to_owned(),
        context_baseline: None,
    }
}

fn fresh(suffix: &str) -> ResponseItemId {
    ResponseItemId::with_suffix("msg", suffix)
}

#[test]
fn stored_conversations_are_resumed_or_refused() {
    let prefix = vec![item(MessageRole::Developer, "rules")];
    let resume = |stored: HistoryCheckpoint| {
        ModelCheckpoint::resume(
            stored,
            &prefix,
            &vec![fresh("p")],
            fresh("c"),
            Some("global".to_owned()),
            ContextBaseline::Known("rebuilt".to_owned()),
        )
    };
    let resumed = resume(stored(user("context"), None)).ok().unwrap();
    assert_eq!(resumed.conversation.flattened_history().len(), 2);
    assert_eq!(resumed.conversation.previous_response_id(), None);
    assert!(matches!(resumed.context_baseline, ContextBaseline::Known(text) if text == "rebuilt"));
    assert!(resumed.conversation.canonical_context().id().is_some());
    assert!(resumed.conversation.flattened_history().iter().all(|item| item.id().is_some()));
    assert_eq!(resumed.request_prefix[0].id().unwrap().text(), "msg_p");
    assert!(matches!(
        resume(stored(assistant("context"), None)),
        Err(NanocodexError::InvalidSessionSnapshot(reason))
            if reason == "canonical context must be a user message"
    ));
    assert!(matches!(
        resume(stored(user("context"), Some("call without output".to_owned()))),
        Err(NanocodexError::InvalidSessionSnapshot(reason)) if reason == "call without output"
    ));
}

#[test]
fn resumed_prefixes_must_match() {
    assert!(validate_resumed_prefix(&Ok(vec![1, 2]), &Ok(vec![1, 2])).is_none());
    assert!(validate_resumed_prefix(&Ok(vec![1, 2]), &Ok(vec![1])).is_some());
    for (expected, stored, reason) in [
        (Ok(vec![1]), Ok(vec![2]), "instructions or tool definitions do not match the resumed session"),
        (Err("cycle".to_owned()), Ok(vec![1]), "failed to validate the request prefix: cycle"),
        (Ok(vec![1]), Err("depth".to_owned()), "failed to validate the stored request prefix: depth"),
    ] {
        assert!(matches!(
            validate_resumed_prefix(&expected, &stored),
            Some(NanocodexError::InvalidSessionSnapshot(text)) if text == reason
        ));
    }
}

#[test]
fn profiles_state_tools_and_instructions() {
    let tool = ToolDefinition::Custom {
        name: "exec".to_owned(),
        description: "Runs.".to_owned(),
        format: "{}".to_owned(),
    };
    let profile = request_profile("session", "cache", vec![tool], "system prompt");
    assert_eq!(profile.session_id, "session");
    assert_eq!(profile.prompt_cache_key, "cache");
    assert!(matches!(&*profile.prefix[0], ResponseItem::AdditionalTools { tools, .. } if tools.len() == 1));
    assert!(profile.prefix[0].id().is_none());
    assert!(profile.prefix[1].is_developer_message());
    assert_eq!(profile.prefix[1].id().unwrap().text(), "msg_nanocodex-instructions");
    assert_eq!(first_text(&profile.prefix[1]), "system prompt");
    let stripped = without_response_item_ids(&profile.prefix);
    assert!(stripped.iter().all(|item| item.id().is_none()));
}

#[test]
fn request_prefixes_keep_their_identities() {
    let given = vec![
        Arc::new(ResponseItem::additional_tools(Vec::new())),
        item(MessageRole::Developer, "rules"),
        user("said"),
    ];
    let first = assign_request_prefix_ids(&given, &vec![fresh("a"), fresh("b"), fresh("c")]);
    assert!(first[0].id().is_none());
    assert_eq!(first[1].id().unwrap().text(), "msg_b");
    assert_eq!(first[2].id().unwrap().text(), "msg_c");
    let marked = vec![Arc::new(given[0].with_id(Some(fresh("x")))), first[1].clone(), first[2].clone()];
    let again = assign_request_prefix_ids(&marked, &vec![fresh("d"), fresh("e"), fresh("f")]);
    assert!(again[0].id().is_none());
    assert_eq!(again[1].id().unwrap().text(), "msg_b");
    assert_eq!(again[2].id().unwrap().text(), "msg_c");
}

#[test]
fn retained_items_have_identities() {
    let mut conversation = ConversationState::new(vec![user("a")]).ok().unwrap();
    let kept = Arc::new(user("b").with_id(Some(ResponseItemId::Given("msg-own".to_owned()))));
    let blank = Arc::new(user("c").with_id(Some(ResponseItemId::Given(String::new()))));
    conversation.append(&vec![kept, blank]);
    conversation.append_one(Arc::new(ResponseItem::FunctionCallOutput {
        id: None,
        call_id: "c1".to_owned(),
        output: ToolOutputBody::Text("out".to_owned()),
    }));
    let history = conversation.flattened_history();
    let ids: Vec<String> = history.iter().map(|item| item.id().unwrap().text()).collect();
    let seed = ids[0].strip_prefix("msg_").unwrap().strip_suffix("-0").unwrap().to_owned();
    assert!(seed.parse::<SessionId>().is_ok());
    assert_eq!(ids[1], "msg-own");
    assert_eq!(ids[2], format!("msg_{}-2", seed));
    assert_eq!(ids[3], format!("fco_{}-3", seed));
    conversation.adopt_prompt_history(vec![user("d"), history[3].clone()]);
    let ids: Vec<String> = conversation
        .flattened_history()
        .iter()
        .map(|item| item.id().unwrap().text())
        .collect();
    assert_eq!(ids, [format!("msg_{}-4", seed), format!("fco_{}-3", seed)]);
}

#[test]
fn identities_name_the_kind_of_their_item() {
    for (kind, prefix) in [
        (ItemKind::Message, "msg"),
        (ItemKind::Reasoning, "rs"),
        (ItemKind::FunctionCall, "fc"),
        (ItemKind::FunctionCallOutput, "fco"),
        (ItemKind::CustomToolCall, "ctc"),
        (ItemKind::CustomToolCallOutput, "ctco"),
        (ItemKind::LocalShellCall, "lsh"),
        (ItemKind::ToolSearchCall, "tsc"),
        (ItemKind::ToolSearchOutput, "tso"),
        (ItemKind::AdditionalTools, "at"),
        (ItemKind::Compaction, "cmp"),
    ] {
        assert_eq!(kind.as_str(), prefix);
        let id = ResponseItemId::Numbered { kind, seed: "s".to_owned(), number: 10 };
        assert_eq!(id.text(), format!("{}_s-10", prefix));
        assert!(!id.is_empty());
    }
    assert_eq!(user("a").item_kind(), ItemKind::Message);
    assert_eq!(ResponseItemId::Given("x".to_owned()).text(), "x");
}
