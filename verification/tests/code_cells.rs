use nanocodex::code_mode::{
    CodeModeExecution, HostToolTraits, NestedToolCall, OwnedToolContext, ReceiptLimits,
    TerminalToolReceipt, TerminalToolReceiptError, ToolContext, ToolTurnBehavior,
};
use nanocodex::emitted_output::{
    append_bounded_output, append_to_content, bounded_emitted_output, MAX_EMITTED_OUTPUT_BYTES,
    TRUNCATION_MARKER,
};
use nanocodex::host::{
    execute_code, model_specs, prepare_user_input, replay_nested_updates, wait_for_code,
    CodeModeUpdate, HostOutcome, EXEC_DESCRIPTION,
};
use nanocodex::items::{
    ContentItem, MessageRole, ResponseItem, ToolDefinition, ToolOutputBody, ToolOutputContent,
};
use nanocodex::prompt::{ImageDetail, PromptInput, UserInput};
use nanocodex::service::GenerationOutput;
use nanocodex::tool_calls::{CodeCall, CodeCallKind};
use std::sync::Arc;

const LIMITS: ReceiptLimits = ReceiptLimits { max_output_bytes: 64, max_metadata_bytes: 32 };

fn text(text: &str) -> ToolOutputBody {
    ToolOutputBody::Text(text.to_owned())
}

fn text_of(output: &ToolOutputBody) -> String {
    match output {
        ToolOutputBody::Text(text) => text.clone(),
        ToolOutputBody::Content(_) => panic!("the output must be text"),
    }
}

#[test]
fn terminal_receipts_reject_unbounded_output_and_metadata() {
    let output_error = TerminalToolReceipt::new(
        "call-1".to_owned(),
        "finish".to_owned(),
        text(&"x".repeat(LIMITS.max_output_bytes * 2)),
        None,
        LIMITS,
    )
    .unwrap_err();
    assert_eq!(output_error, TerminalToolReceiptError::OutputTooLarge);

    let metadata =
        serde_json::value::to_raw_value(&"x".repeat(LIMITS.max_metadata_bytes * 2)).unwrap();
    let metadata_error = TerminalToolReceipt::new(
        "call-1".to_owned(),
        "finish".to_owned(),
        text("ok"),
        Some(metadata.get().to_owned()),
        LIMITS,
    )
    .unwrap_err();
    assert_eq!(metadata_error, TerminalToolReceiptError::MetadataTooLarge);

    let parts = ToolOutputBody::Content(Arc::new(vec![
        ToolOutputContent::InputText { text: "x".repeat(40) },
        ToolOutputContent::InputAudio { audio_url: "y".repeat(25) },
    ]));
    assert!(TerminalToolReceipt::new("c".to_owned(), "t".to_owned(), parts, None, LIMITS).is_err());
    assert!(TerminalToolReceipt::new(
        "c".to_owned(),
        "t".to_owned(),
        text(&"x".repeat(64)),
        Some("y".repeat(32)),
        LIMITS
    )
    .is_ok());
}

fn nested(name: &str, output: &str, success: bool) -> NestedToolCall {
    NestedToolCall {
        call_id: format!("call-{}", name),
        name: name.to_owned(),
        input: "{}".to_owned(),
        output: text(output),
        success,
        turn_behavior: ToolTurnBehavior::Continue,
        started_after_ns: 0,
        duration_ns: 0,
        metadata: None,
    }
}

fn finishing(emits: bool) -> HostToolTraits {
    HostToolTraits {
        turn_behavior: ToolTurnBehavior::FinishTurnOnSuccess,
        emits_output_on_success: emits,
    }
}

fn ordinary(emits: bool) -> HostToolTraits {
    HostToolTraits { turn_behavior: ToolTurnBehavior::Continue, emits_output_on_success: emits }
}

fn cell(success: bool, calls: Vec<NestedToolCall>) -> CodeModeExecution {
    CodeModeExecution::new(text("cell"), success, calls, Vec::new())
}

#[test]
fn one_successful_tool_may_end_the_turn() {
    let mut execution = cell(true, vec![nested("a", "first", true), nested("b", "second", true)]);
    execution.apply_host_turn_behaviors(&vec![ordinary(true), finishing(false)], LIMITS);
    assert!(execution.terminal_tool().is_some());
    assert!(!execution.has_ambiguous_terminal_tool());
    assert!(execution.terminal_receipt_error().is_none());
    assert_eq!(execution.nested_calls[1].turn_behavior, ToolTurnBehavior::FinishTurnOnSuccess);
    match &execution.output {
        ToolOutputBody::Content(parts) => {
            assert_eq!(parts.len(), 2);
            assert!(matches!(&parts[1], ToolOutputContent::InputText { text } if text == "first"));
        }
        ToolOutputBody::Text(_) => panic!("the emitted output must be added"),
    }
}

#[test]
fn cells_with_two_terminal_tools_are_ambiguous() {
    let mut execution = cell(true, vec![nested("a", "x", true), nested("b", "y", true)]);
    execution.apply_host_turn_behaviors(&vec![finishing(false), finishing(false)], LIMITS);
    assert!(execution.has_ambiguous_terminal_tool());
    assert!(execution.terminal_tool().is_none());
    assert_eq!(text_of(&execution.output), "cell");
}

#[test]
fn failed_cells_end_no_turn() {
    let mut execution = cell(false, vec![nested("a", "x", true)]);
    execution.apply_host_turn_behaviors(&vec![finishing(false)], LIMITS);
    assert!(execution.terminal_tool().is_none());
    assert!(!execution.has_ambiguous_terminal_tool());

    let mut execution = cell(true, vec![nested("a", "x", false)]);
    execution.apply_host_turn_behaviors(&vec![finishing(true)], LIMITS);
    assert!(execution.terminal_tool().is_none());
    assert_eq!(text_of(&execution.output), "cell");
}

#[test]
fn oversized_receipts_spoil_the_selection() {
    let long = "x".repeat(100);
    let mut execution = cell(true, vec![nested("a", &long, true)]);
    execution.apply_host_turn_behaviors(&vec![finishing(false)], LIMITS);
    assert_eq!(execution.terminal_receipt_error(), Some(TerminalToolReceiptError::OutputTooLarge));
    assert!(execution.terminal_tool().is_none());

    let mut execution = cell(true, Vec::new());
    execution.select_terminal_tools(vec![
        TerminalToolReceipt::new("c".to_owned(), "t".to_owned(), text("ok"), None, LIMITS),
        Err(TerminalToolReceiptError::MetadataTooLarge),
    ]);
    assert_eq!(
        execution.terminal_receipt_error(),
        Some(TerminalToolReceiptError::MetadataTooLarge)
    );
}

#[test]
fn emitted_output_is_cut_between_characters() {
    assert!(bounded_emitted_output(&Vec::new()).is_none());
    assert!(bounded_emitted_output(&vec![text(""), text("")]).is_none());
    let joined = bounded_emitted_output(&vec![
        text("a"),
        ToolOutputBody::Content(Arc::new(vec![
            ToolOutputContent::InputText { text: "b".to_owned() },
            ToolOutputContent::InputAudio { audio_url: "data:".to_owned() },
        ])),
    ]);
    assert_eq!(text_of(&joined.unwrap()), "a\nb[non-text emitted output omitted]");
    let whole = "é".repeat(MAX_EMITTED_OUTPUT_BYTES / 2);
    assert_eq!(text_of(&bounded_emitted_output(&vec![text(&whole)]).unwrap()), whole);
    let long = format!("x{}", "é".repeat(MAX_EMITTED_OUTPUT_BYTES));
    let cut = text_of(&bounded_emitted_output(&vec![text(&long)]).unwrap());
    assert!(cut.len() <= MAX_EMITTED_OUTPUT_BYTES);
    assert!(cut.ends_with(TRUNCATION_MARKER));
    assert_eq!(cut.len(), 971 + TRUNCATION_MARKER.len());
}

#[test]
fn outputs_are_appended_in_parts() {
    let mut output = text("first");
    append_bounded_output(&mut output, text("second"));
    match &output {
        ToolOutputBody::Content(parts) => assert_eq!(parts.len(), 2),
        ToolOutputBody::Text(_) => panic!("two parts are expected"),
    }
    let mut parts = vec![ToolOutputContent::InputText { text: "a".to_owned() }];
    append_to_content(&mut parts, output);
    assert_eq!(parts.len(), 3);
}

#[test]
fn contexts_are_lent_and_copied() {
    let history = Arc::new(vec![Arc::new(ResponseItem::message(MessageRole::User, Vec::new()))]);
    let owned = OwnedToolContext::new("model", "session", "call", history, 100);
    let copy = OwnedToolContext::from_context(owned.as_context());
    assert_eq!(copy.call_id, "call");
    assert_eq!(copy.history.len(), 1);
    assert_eq!(copy.with_output_token_budget(7).output_token_budget, 7);
    let none = Vec::new();
    let lent = ToolContext {
        model: "m",
        session_id: "s",
        call_id: "c",
        history: &none,
        output_token_budget: 1,
    };
    assert_eq!(OwnedToolContext::from_context(lent).model, "m");
}

#[test]
fn the_host_is_described_to_the_model() {
    let tool = ToolDefinition::Function {
        name: "lookup".to_owned(),
        description: "  Looks up.\n".to_owned(),
        parameters: "{}".to_owned(),
    };
    let specs = model_specs(&vec![tool]);
    assert_eq!(specs.len(), 1);
    assert_eq!(specs[0].name(), "exec");
    assert_eq!(
        specs[0].description(),
        format!("{}\n\n- `tools.lookup`: Looks up.", EXEC_DESCRIPTION)
    );
}

#[test]
fn host_failures_become_failed_cells() {
    for (outcome, expected) in [
        (HostOutcome::Rejected("boom".to_owned()), "Script failed\nOutput:\nboom"),
        (
            HostOutcome::NotText,
            "Script failed\nOutput:\nJavaScript code-mode host returned a non-string result",
        ),
        (
            HostOutcome::Unreadable("eof".to_owned()),
            "Script failed\nOutput:\nJavaScript code-mode host returned invalid JSON: eof",
        ),
    ] {
        let execution = execute_code(outcome);
        assert!(!execution.success);
        assert_eq!(text_of(&execution.output), expected);
    }
    assert!(execute_code(HostOutcome::Done(cell(true, Vec::new()))).success);
    assert_eq!(
        text_of(&wait_for_code().output),
        "Script failed\nOutput:\nbackground code-mode cells are unavailable in the WASM runtime"
    );
    let updates = replay_nested_updates(&cell(
        true,
        vec![nested("a", "x", true), nested("b", "y", true)],
    ));
    assert_eq!(
        updates,
        [
            CodeModeUpdate::NestedCallStarted { at: 0 },
            CodeModeUpdate::NestedCallCompleted { at: 0 },
            CodeModeUpdate::NestedCallStarted { at: 1 },
            CodeModeUpdate::NestedCallCompleted { at: 1 },
        ]
    );
}

#[test]
fn files_are_unavailable_to_the_host() {
    let input = PromptInput::Content(Arc::new(vec![
        UserInput::Text { text: "t".to_owned() },
        UserInput::Image { image_url: "data:".to_owned(), detail: Some(ImageDetail::Low) },
        UserInput::LocalImage { path: "/a.png".to_owned(), detail: None },
        UserInput::Audio { audio_url: "data:".to_owned() },
        UserInput::LocalAudio { path: "/a.wav".to_owned() },
    ]));
    let parts = prepare_user_input(&input);
    assert!(matches!(&parts[0], ContentItem::InputText { text } if text == "t"));
    assert!(matches!(
        &parts[1],
        ContentItem::InputImage { detail: Some(ImageDetail::Low), .. }
    ));
    assert!(matches!(
        &parts[2],
        ContentItem::InputText { text }
            if text == "Local image paths are unavailable in browser WASM: /a.png"
    ));
    assert!(matches!(&parts[3], ContentItem::InputAudio { .. }));
    assert!(matches!(
        &parts[4],
        ContentItem::InputText { text }
            if text == "Local audio paths are unavailable in browser WASM: /a.wav"
    ));
    let single = prepare_user_input(&PromptInput::Text("x".to_owned()));
    assert!(matches!(&single[0], ContentItem::InputText { text } if text == "x"));
}

#[test]
fn generations_are_traced_by_their_sizes() {
    let message = |text: &str| {
        Arc::new(ResponseItem::message(
            MessageRole::Assistant,
            vec![ContentItem::OutputText { text: text.to_owned() }],
        ))
    };
    let output = GenerationOutput {
        id: "r".to_owned(),
        status: "completed".to_owned(),
        end_turn: None,
        final_message: None,
        output_items: vec![message("ab"), message("é")],
        code_calls: vec![CodeCall {
            call_id: "c".to_owned(),
            name: "exec".to_owned(),
            namespace: None,
            input: String::new(),
            kind: CodeCallKind::Custom,
        }],
        usage: None,
        time_to_first_event_ns: 0,
        time_to_first_output_ns: None,
    };
    assert_eq!(output.delivered_text(), "abé");
    let trace = output.trace(true, &vec![Some(30), Some(40)]);
    assert_eq!(trace.item_count, 2);
    assert_eq!(trace.tool_call_count, 1);
    assert_eq!(trace.summary_count, 0);
}
