use nanocodex::config::{OpenAiAuth, Thinking};
use nanocodex::error::ErrorLink;
use nanocodex::items::{ContentItem, MessageRole, ResponseItem, ToolDefinition};
use nanocodex::openai::{CallerServiceFactory, OpenAi};
use nanocodex::pricing::{CostStatus, PricingSnapshot, TokenRates, Usage};
use nanocodex::response::{Response, ResponseError, ResponseEvent, StreamItem, StreamStep};
use nanocodex::service::{
    CompactionOutput, GenerationOutput, ResponsesOutput, ResponsesServiceResponse, WarmupOutput,
};
use nanocodex::session::{
    ContextEstimate, ResponseInput, Session, SessionBuildError, SessionRequest,
};
use nanocodex::session_id::{SessionId, SessionIdError};
use nanocodex::usage::{estimate_cost, ServicePricing};
use std::sync::Arc;

struct NeverCalled;

fn never_called() -> NeverCalled {
    NeverCalled
}

fn client() -> OpenAi<CallerServiceFactory<fn() -> NeverCalled>> {
    OpenAi::builder(OpenAiAuth::api_key(), "system prompt".to_owned())
        .service(never_called as fn() -> NeverCalled)
        .build()
        .unwrap()
}

fn session(instructions: &str) -> Session {
    client().instructions(instructions).build().unwrap()
}

fn estimate(tokens: u64) -> ContextEstimate {
    ContextEstimate { with_server_reasoning: tokens, without_server_reasoning: tokens }
}

fn message(role: MessageRole, text: String) -> Arc<ResponseItem> {
    let content = if role == MessageRole::Assistant {
        ContentItem::OutputText { text }
    } else {
        ContentItem::InputText { text }
    };
    Arc::new(ResponseItem::message(role, vec![content]))
}

fn answer(call: u32, usage: Option<Usage>, end_turn: Option<bool>) -> ResponsesServiceResponse {
    ResponsesServiceResponse {
        output: ResponsesOutput::Generation(GenerationOutput {
            id: format!("resp-{}", call),
            status: "completed".to_owned(),
            end_turn,
            final_message: Some(format!("answer-{}", call)),
            output_items: vec![message(MessageRole::Assistant, format!("answer-{}", call))],
            code_calls: Vec::new(),
            usage,
            time_to_first_event_ns: 1,
            time_to_first_output_ns: Some(1),
        }),
        attempt: 1,
        connection_generation: 1,
        server_reasoning_included: true,
    }
}

fn compaction(call: u32) -> ResponsesServiceResponse {
    ResponsesServiceResponse {
        output: ResponsesOutput::Compaction(CompactionOutput {
            id: format!("resp-{}", call),
            status: "completed".to_owned(),
            item: Arc::new(ResponseItem::Compaction {
                id: None,
                encrypted_content: "encrypted-summary".to_owned(),
            }),
            usage: None,
            time_to_first_event_ns: 1,
            time_to_first_output_ns: Some(1),
        }),
        attempt: 1,
        connection_generation: 1,
        server_reasoning_included: false,
    }
}

fn create(session: &mut Session, turn: u64, text: &str) -> (SessionRequest, ResponseInput) {
    let input = ResponseInput::text(text);
    let request = session.begin_create(turn, &input).unwrap();
    (request, input)
}

#[test]
fn one_client_recipe_builds_independent_sessions() {
    let client = client();

    let session = client.instructions("Answer only from supplied facts.");
    let first = session.clone().build().unwrap();
    let second = session.build().unwrap();

    assert_ne!(first.id(), second.id());
}

fn stream_and_future_share_one_completed_operation() {
    let mut session = session("Answer only from supplied facts.");
    let turn = session.turn();
    let mut response = Response::new();
    assert!(matches!(response.poll_next(), StreamStep::PollOperation));
    let (_, input) = create(&mut session, turn, "The region is us-west-2.");

    let event = response.take_event(ResponseEvent::OutputTextDelta("answer-1".to_owned()));
    assert!(matches!(
        event,
        StreamItem::Event(ResponseEvent::OutputTextDelta(delta)) if delta == "answer-1"
    ));
    let usage = Usage {
        input_tokens: 12,
        input_tokens_details: None,
        output_tokens: 5,
        output_tokens_details: None,
        total_tokens: 17,
    };
    let completed = session.finish_create(input, Ok(answer(1, Some(usage), None)), estimate(17));
    response.finish(completed);
    assert!(matches!(
        response.poll_next(),
        StreamStep::Yield(StreamItem::Event(ResponseEvent::Completed { .. }))
    ));
    assert!(matches!(response.poll_next(), StreamStep::End));
    let completed = response.into_result().ok().unwrap();

    assert_eq!(completed.output_text(), "answer-1");
    let rates = |input: &str, output: &str| TokenRates {
        input: input.parse().unwrap(),
        cached_input: "0.5".parse().unwrap(),
        cache_write_input: "6.25".parse().unwrap(),
        output: output.parse().unwrap(),
    };
    let pricing = ServicePricing {
        standard: PricingSnapshot::new("standard", "list", "2026-07-01", rates("5", "30")).unwrap(),
        priority: PricingSnapshot::new("priority", "list", "2026-07-01", rates("10", "60"))
            .unwrap(),
    };
    let (cost, status) = estimate_cost(completed.usage().as_ref(), false, &pricing);
    assert_eq!(cost.unwrap().amount().decimal(), "0.00021");
    assert_eq!(status, CostStatus::EstimatedFromUsage);
    assert_eq!(session.history_len(), 2);
    assert_eq!(session.active_context_tokens(), 17);
}

#[test]
fn session_response_stream_and_future_share_one_completed_operation() {
    stream_and_future_share_one_completed_operation();
}

#[test]
fn tests_response_stream_and_future_share_one_completed_operation() {
    stream_and_future_share_one_completed_operation();
}

fn creates_send_only_the_new_delta_after_completion() {
    let mut session = session("Remember deployment facts between calls.");
    let turn = session.turn();

    let (first, input) = create(&mut session, turn, "The region is us-west-2.");
    let completed = session
        .finish_create(input, Ok(answer(1, None, Some(false))), estimate(0))
        .ok()
        .unwrap();
    assert_eq!(completed.output_text(), "answer-1");
    let (second, input) = create(&mut session, turn, "What region did I give you?");
    let completed = session
        .finish_create(input, Ok(answer(2, None, Some(true))), estimate(0))
        .ok()
        .unwrap();
    assert_eq!(completed.output_text(), "answer-2");

    assert!(first.full_replay);
    assert_eq!(first.previous_response_id, None);
    assert_eq!(first.input.len(), 3);
    assert!(!second.full_replay);
    assert_eq!(second.previous_response_id.as_deref(), Some("resp-1"));
    assert_eq!(second.input.len(), 1);
    assert!(second.input[0].is_user_message());
    assert_eq!(session.history_len(), 4);
    assert_eq!(first.call_index, 1);
    assert_eq!(second.call_index, 2);
}

#[test]
fn session_sequential_creates_send_only_the_new_delta_after_completion() {
    creates_send_only_the_new_delta_after_completion();
}

#[test]
fn tests_sequential_creates_send_only_the_new_delta_after_completion() {
    creates_send_only_the_new_delta_after_completion();
}

#[test]
fn a_compaction_may_send_a_history_that_was_cut() {
    let mut session = session("Compact.");
    let turn = session.turn();
    let (_, input) = create(&mut session, turn, "A fact.");
    assert!(session.finish_create(input, Ok(answer(1, None, None)), estimate(0)).is_ok());
    let mut trimmed = session.history().clone();
    let committed = trimmed.len();
    trimmed.push(trimmed[0].clone());
    let compact = session.begin_compact(turn, &trimmed);
    assert_eq!(compact.previous_response_id.as_deref(), Some("resp-1"));
    assert_eq!(session.history_len(), committed);
}

fn compaction_replaces_history_and_forces_one_full_replay() {
    let mut session = session("Retain user facts across explicit compaction.");
    let turn = session.turn();
    let (_, input) = create(&mut session, turn, "The deployment region is us-west-2.");
    assert!(session.finish_create(input, Ok(answer(1, None, None)), estimate(0)).is_ok());
    let kept = session.history()[0].clone();
    let trimmed = session.history().clone();
    let compact = session.begin_compact(turn, &trimmed);
    let summary = Arc::new(ResponseItem::Compaction {
        id: None,
        encrypted_content: "encrypted-summary".to_owned(),
    });
    assert!(session.finish_compact(vec![kept, summary], Ok(compaction(2)), estimate(0)).is_ok());
    assert_eq!(session.history_len(), 2);
    assert!(session.history().iter().any(|item| item.is_user_message()));
    assert!(session
        .history()
        .iter()
        .any(|item| matches!(**item, ResponseItem::Compaction { .. })));

    let turn = session.turn();
    let (last, input) = create(&mut session, turn, "Recall the deployment region.");
    assert!(session.finish_create(input, Ok(answer(3, None, None)), estimate(0)).is_ok());

    assert_eq!(compact.previous_response_id.as_deref(), Some("resp-1"));
    assert!(last.full_replay);
    assert_eq!(last.previous_response_id, None);
    assert_eq!(last.input.len(), 5);
    assert_eq!(last.logical_turn, 2);

    let (next, _) = create(&mut session, turn, "And the zone?");
    assert!(!next.full_replay);
    assert_eq!(next.input.len(), 1);
}

#[test]
fn session_compaction_atomically_replaces_history_and_forces_one_full_replay() {
    compaction_replaces_history_and_forces_one_full_replay();
}

#[test]
fn tests_compaction_atomically_replaces_history_and_forces_one_full_replay() {
    compaction_replaces_history_and_forces_one_full_replay();
}

fn partial_response_never_commits_input_or_output() {
    let mut session = session("Commit only complete Responses operations.");
    let turn = session.turn();
    let mut response = Response::new();
    let (_, input) = create(&mut session, turn, "This input must remain uncommitted.");

    assert!(matches!(
        response.take_event(ResponseEvent::OutputTextDelta("uncommitted".to_owned())),
        StreamItem::Event(ResponseEvent::OutputTextDelta(delta)) if delta == "uncommitted"
    ));
    let failure = ResponseError::service(vec![ErrorLink::Other("scripted failure".to_owned())]);
    let result = session.finish_create(input, Err(failure), estimate(99));
    response.finish(result);
    match response.poll_next() {
        StreamStep::Yield(StreamItem::Failed(error)) => {
            assert_eq!(error.message(), "scripted failure");
        }
        _ => panic!("the failure must be yielded"),
    }
    assert!(matches!(response.poll_next(), StreamStep::End));
    assert!(response.into_result().is_err());

    assert_eq!(session.history_len(), 0);
    assert_eq!(session.active_context_tokens(), 0);
}

#[test]
fn session_failed_partial_response_never_commits_input_or_output() {
    partial_response_never_commits_input_or_output();
}

#[test]
fn tests_failed_partial_response_never_commits_input_or_output() {
    partial_response_never_commits_input_or_output();
}

fn an_unpolled_response_performs_no_work() {
    let mut session = session("Do not run abandoned operations.");
    let turn = session.turn();
    drop(Response::new());

    assert_eq!(session.history_len(), 0);
    let (request, _) = create(&mut session, turn, "first");
    assert_eq!(request.call_index, 1);
}

#[test]
fn session_dropping_an_unpolled_response_performs_no_work() {
    an_unpolled_response_performs_no_work();
}

#[test]
fn tests_dropping_an_unpolled_response_performs_no_work() {
    an_unpolled_response_performs_no_work();
}

#[test]
fn public_session_streams_results_and_reuses_continuation_state() {
    let mut session = session("Preserve exact identifiers and answer concisely.");
    let first_turn = session.turn();
    let (first, input) = create(&mut session, first_turn, "Remember deployment req_7f3.");
    let mut response = Response::new();
    response.finish(session.finish_create(input, Ok(answer(1, None, Some(true))), estimate(5)));
    let mut completed_event_seen = false;
    while let StreamStep::Yield(item) = response.poll_next() {
        completed_event_seen |=
            matches!(item, StreamItem::Event(ResponseEvent::Completed { .. }));
    }
    assert!(completed_event_seen);
    assert_eq!(response.into_result().ok().unwrap().output_text(), "answer-1");

    let second_turn = session.turn();
    let (second, input) =
        create(&mut session, second_turn, "Which deployment identifier did I provide?");
    let completed = session
        .finish_create(input, Ok(answer(2, None, Some(true))), estimate(5))
        .ok()
        .unwrap();
    assert_eq!(completed.output_text(), "answer-2");
    assert!(session.history_len() >= 4);

    assert_eq!(first.previous_response_id, None);
    assert_eq!(second.previous_response_id.as_deref(), Some("resp-1"));
    assert!(first.input.len() > second.input.len());
}

fn ids_are_uuid_v7_values() {
    let id = SessionId::new();
    assert_eq!(uuid::Uuid::from_u128(id.as_uuid()).get_version_num(), 7);

    let encoded = serde_json::to_string(&id.text()).unwrap();
    let decoded = serde_json::from_str::<String>(&encoded).unwrap();
    assert_eq!(decoded.parse::<SessionId>().ok().unwrap(), id);
    assert!("550e8400-e29b-41d4-a716-446655440000".parse::<SessionId>().is_err());
}

#[test]
fn session_session_ids_are_serializable_uuid_v7_values() {
    ids_are_uuid_v7_values();
}

#[test]
fn tests_session_ids_are_serializable_uuid_v7_values() {
    ids_are_uuid_v7_values();
}

#[test]
fn session_identities_name_their_fault() {
    assert!(matches!(
        SessionId::parse("550e8400-e29b-41d4-a716-446655440000"),
        Err(SessionIdError::WrongVersion { version: 4 })
    ));
    assert!(matches!(SessionId::parse("not an identity"), Err(SessionIdError::InvalidUuid(_))));
    let wrong = SessionId::parse("550e8400-e29b-41d4-a716-446655440000").err().unwrap();
    assert_eq!(wrong.message(), "session IDs must be UUIDv7, got UUIDv4");
    let unreadable = SessionId::parse("not an identity").err().unwrap();
    assert_eq!(unreadable.message(), "invalid session UUID");
    let written = "01890a5d-ac96-774b-bcce-b302099a8057";
    let id = SessionId::parse(written).ok().unwrap();
    assert_eq!(id.text(), written);
    assert_eq!(id.as_uuid(), uuid::Uuid::parse_str(written).unwrap().as_u128());
    assert_eq!(SessionId::from_uuid(id.as_uuid()).ok().unwrap(), id);
    assert!(matches!(
        SessionId::from_uuid(0),
        Err(SessionIdError::WrongVersion { version: 0 })
    ));
    assert_eq!(SessionId::parse(&written.to_uppercase()).ok().unwrap(), id);
}

#[test]
fn sessions_refuse_empty_settings() {
    assert!(matches!(
        client().instructions(" \n").build(),
        Err(SessionBuildError::EmptyInstructions)
    ));
    assert!(matches!(
        client().instructions("x").prompt_cache_key(" ".to_owned()).build(),
        Err(SessionBuildError::EmptyPromptCacheKey)
    ));
    assert_eq!(
        SessionBuildError::EmptyInstructions.message(),
        "OpenAI session instructions must not be empty"
    );
}

#[test]
fn requests_carry_the_session() {
    let id = SessionId::new();
    let tool = ToolDefinition::Function {
        name: "lookup".to_owned(),
        description: "Looks up.".to_owned(),
        parameters: "{}".to_owned(),
    };
    let mut session = client()
        .instructions("x")
        .session_id(id)
        .tool_definitions(vec![tool])
        .build()
        .unwrap();
    let (request, _) = create(&mut session, 1, "hello");
    assert_eq!(request.session_id, id.text());
    assert_eq!(request.prompt_cache_key, id.text());
    assert_eq!(request.thinking, Thinking::default());
    match &*request.input[0] {
        ResponseItem::AdditionalTools { id, tools } => {
            assert!(id.is_none());
            assert_eq!(tools[0].name(), "lookup");
        }
        _ => panic!("the tools come first"),
    }
    assert!(request.input[1].is_developer_message());

    let mut keyed = client()
        .instructions("x")
        .prompt_cache_key("shared".to_owned())
        .build()
        .unwrap();
    let (request, _) = create(&mut keyed, 1, "hello");
    assert_eq!(request.prompt_cache_key, "shared");
}

#[test]
fn replies_of_another_kind_are_refused() {
    let mut session = session("x");
    let empty = ResponseInput::items(Vec::new());
    assert_eq!(
        session.begin_create(1, &empty).err().unwrap().message(),
        "invalid Responses state: response.create input must contain at least one item"
    );
    let (_, input) = create(&mut session, 1, "hello");
    let refused = session.finish_create(input, Ok(compaction(1)), estimate(3)).err().unwrap();
    assert_eq!(
        refused.message(),
        "invalid Responses state: response.create returned a non-generation output"
    );
    assert_eq!(session.history_len(), 0);
    let none = session.history().clone();
    let _ = session.begin_compact(1, &none);
    let warmup = ResponsesServiceResponse {
        output: ResponsesOutput::Warmup(WarmupOutput { id: "resp".to_owned(), usage: None }),
        attempt: 1,
        connection_generation: 1,
        server_reasoning_included: false,
    };
    let refused = session.finish_compact(Vec::new(), Ok(warmup), estimate(3)).err().unwrap();
    assert_eq!(
        refused.message(),
        "invalid Responses state: response.compact returned a non-compaction output"
    );
}

#[test]
fn the_context_is_counted_as_the_provider_counts_it() {
    let mut session = session("x");
    let (_, input) = create(&mut session, 1, "hello");
    let mut reply = answer(1, None, None);
    reply.server_reasoning_included = false;
    let context = ContextEstimate { with_server_reasoning: 70, without_server_reasoning: 40 };
    assert!(session.finish_create(input, Ok(reply), context).is_ok());
    assert_eq!(session.active_context_tokens(), 40);
    let (_, input) = create(&mut session, 1, "again");
    let refused = ResponsesServiceResponse { server_reasoning_included: true, ..compaction(2) };
    assert!(session.finish_create(input, Ok(refused), estimate(1)).is_err());
    assert_eq!(session.active_context_tokens(), 70);
}

#[test]
fn input_estimates_add_up_to_the_largest() {
    let input = ResponseInput::items(vec![
        message(MessageRole::User, "a".to_owned()),
        message(MessageRole::User, "b".to_owned()),
    ]);
    assert_eq!(input.estimated_tokens(&vec![3, 4]), 7);
    assert_eq!(input.estimated_tokens(&vec![u64::MAX, 4]), u64::MAX);
}

#[test]
fn streams_without_a_result_end_with_an_error() {
    let response = Response::new();
    assert_eq!(
        response.into_result().err().unwrap().message(),
        "invalid Responses state: response stream ended without a terminal service result"
    );
}

#[test]
fn sessions_keep_items_under_the_identities_that_requests_carried() {
    let mut session = session("Answer only from supplied facts.");
    let turn = session.turn();
    let (request, input) = create(&mut session, turn, "The region is us-west-2.");
    let sent = request.input.last().unwrap().id().unwrap().text();
    assert!(sent.starts_with("msg_") && sent.ends_with("-0"));
    assert!(session.finish_create(input, Ok(answer(1, None, None)), estimate(1)).is_ok());
    let kept: Vec<String> =
        session.history().iter().map(|item| item.id().unwrap().text()).collect();
    assert_eq!(kept.len(), 2);
    assert_eq!(kept[0], sent);
    assert_ne!(kept[1], sent);

    let (request, input) = create(&mut session, turn, "And the zone?");
    assert_eq!(request.input.len(), 1);
    let again = request.input[0].id().unwrap().text();
    assert_ne!(again, sent);
    assert!(session.finish_create(input, Ok(answer(2, None, None)), estimate(2)).is_ok());
    let installed = vec![Arc::new(ResponseItem::Compaction {
        id: None,
        encrypted_content: "encrypted-summary".to_owned(),
    })];
    assert!(session.finish_compact(installed, Ok(compaction(3)), estimate(3)).is_ok());
    assert_eq!(session.history_len(), 1);
    assert!(session.history()[0].id().unwrap().text().starts_with("cmp_"));
}
