use nanocodex::branch::{
    BranchSettings, BranchSpawner, InitialResume, OriginKind, ToolProfile, ToolsConfiguration,
    ToolsFactory, ToolsSource,
};
use nanocodex::config::{
    Model, ModelConfig, OpenAiAuth, OpenAiAuthMode, ReasoningMode, ResponsesHistory, ResponsesTransport,
    Thinking,
};
use nanocodex::conversation::{ContextBaseline, ConversationState, ModelCheckpoint};
use nanocodex::error::NanocodexError;
use nanocodex::items::{ContentItem, MessageRole, ResponseItem};
use nanocodex::openai::{OpenAi, OpenAiError};
use nanocodex::prompt::Prompt;
use nanocodex::responses::Responses;
use nanocodex::rollout::{
    join_path, rollout_workspace, Durability, DurabilityConfig, LocalTime, PathStyle,
    RolloutCommit, RolloutConfig, RolloutIdentity, RolloutOrigin, RolloutPlan, RolloutRecorder,
    RolloutSeed, RolloutStart, RolloutTurn, RolloutTurnStatus, StatedWorkspace, TurnEnd,
    WriterCommand, WriterReply,
};
use nanocodex::session_id::SessionId;
use std::sync::Arc;

fn chat_gpt() -> OpenAiAuth {
    OpenAiAuth::chat_gpt("wss://chat/responses".to_owned(), "https://chat/codex".to_owned())
}

fn message(error: Option<OpenAiError>) -> String {
    error.unwrap().message()
}

#[test]
fn credentials_choose_the_defaults() {
    let api = OpenAi::new(OpenAiAuth::api_key(), "p".to_owned()).unwrap_or_else(|_| panic!());
    assert!(api.config().store_responses);
    assert_eq!(api.config().thinking, Thinking::High);
    assert_eq!(api.config().websocket_url, "wss://api.openai.com/v1/responses");
    let subscription = OpenAi::new(chat_gpt(), "p".to_owned()).unwrap_or_else(|_| panic!());
    assert!(!subscription.config().store_responses);
    assert_eq!(subscription.config().api_base_url, "https://chat/codex");
}

#[test]
fn settings_that_do_not_go_together_are_refused() {
    let builder = || OpenAi::builder(OpenAiAuth::api_key(), "p".to_owned());
    let mut missing = OpenAiAuth::api_key();
    missing.problem = Some("no key".to_owned());
    assert!(matches!(
        OpenAi::new(missing, "p".to_owned()).err(),
        Some(OpenAiError::Authorization(error)) if error.message == "no key"
    ));
    assert!(message(builder().websocket_url(" ".to_owned()).build().err())
        .contains("the Responses WebSocket URL must not be empty"));
    assert!(message(builder().api_base_url("".to_owned()).build().err())
        .contains("the OpenAI API base URL must not be empty"));
    assert!(message(OpenAi::builder(chat_gpt(), "p".to_owned()).store(true).build().err())
        .contains("ChatGPT subscription authentication does not support stored responses"));
    let incremental = builder()
        .transport(ResponsesTransport::Https)
        .store(false)
        .history(ResponsesHistory::Incremental)
        .build();
    assert!(message(incremental.err())
        .contains("HTTPS without stored responses requires complete client-history replay"));
}

#[test]
fn transport_and_store_are_chosen_in_any_order() {
    let builder = || OpenAi::builder(OpenAiAuth::api_key(), "p".to_owned());
    let first = builder().transport(ResponsesTransport::Https).store(false).build();
    let second = builder().store(false).transport(ResponsesTransport::Https).build();
    for client in [first, second] {
        let client = client.unwrap_or_else(|_| panic!());
        assert_eq!(client.config().responses_history, ResponsesHistory::FullReplay);
    }
    let chosen = builder()
        .thinking(Thinking::Max)
        .reasoning_mode(ReasoningMode::Pro)
        .fast_mode(true)
        .build()
        .unwrap_or_else(|_| panic!());
    assert_eq!(chosen.config().thinking, Thinking::Max);
    assert_eq!(chosen.config().reasoning_mode, ReasoningMode::Pro);
    assert!(chosen.config().fast_mode);
}

#[test]
fn services_are_made_for_each_session() {
    let standard = OpenAi::builder(OpenAiAuth::api_key(), "p".to_owned())
        .max_attempts(3)
        .build()
        .unwrap_or_else(|_| panic!());
    let service = standard.make_service();
    assert_eq!(service.max_attempts, Some(3));
    assert_eq!(service.config.system_prompt, "p");
    let layered = OpenAi::builder(OpenAiAuth::api_key(), "p".to_owned())
        .service(|| 20_u32)
        .layer(|inner: u32| inner + 1)
        .build()
        .unwrap_or_else(|_| panic!());
    assert_eq!(layered.make_service(), 21);
}

#[test]
fn policies_follow_transport_and_credentials() {
    let standard = Responses::default();
    assert!(standard.selected_store(OpenAiAuthMode::ApiKey));
    assert!(!standard.selected_store(OpenAiAuthMode::ChatGpt));
    assert_eq!(
        standard.selected_history(OpenAiAuthMode::ChatGpt),
        ResponsesHistory::Incremental
    );
    let https = Responses::builder().transport(ResponsesTransport::Https).build();
    assert_eq!(https.selected_history(OpenAiAuthMode::ApiKey), ResponsesHistory::Incremental);
    assert_eq!(https.selected_history(OpenAiAuthMode::ChatGpt), ResponsesHistory::FullReplay);
    let chosen = Responses::builder()
        .transport(ResponsesTransport::Https)
        .store(false)
        .history(ResponsesHistory::Incremental)
        .max_attempts(2)
        .websocket_url("wss://x".to_owned())
        .api_base_url("https://x".to_owned())
        .layer("outer")
        .layer("inner")
        .build();
    assert_eq!(chosen.selected_history(OpenAiAuthMode::ApiKey), ResponsesHistory::Incremental);
    assert_eq!(chosen.max_attempts, Some(2));
    assert_eq!(chosen.service.layers, ("inner", ("outer", ())));
    let factory = Responses::builder().service("factory").build();
    assert_eq!(factory.service.factory, "factory");
    let mut config = ModelConfig::new(OpenAiAuth::api_key(), "p".to_owned());
    config.store_responses = false;
    let taken = Responses::from_openai(&config, 5);
    assert!(!taken.selected_store(OpenAiAuthMode::ApiKey));
    assert_eq!(taken.service, 5);
}

fn user(text: &str) -> Arc<ResponseItem> {
    let content = ContentItem::InputText { text: text.to_owned() };
    Arc::new(ResponseItem::message(MessageRole::User, vec![content]))
}

fn checkpoint() -> ModelCheckpoint {
    ModelCheckpoint {
        workspace: "/work".to_owned(),
        conversation: ConversationState::new(vec![user("context"), user("a")]).ok().unwrap(),
        request_prefix: Arc::new(Vec::new()),
        prompt_cache_key: "cache".to_owned(),
        preserve_inherited_delta: true,
        global_instructions: None,
        context_baseline: ContextBaseline::Known("b".to_owned()),
    }
}

fn spawner(has_child_factory: bool) -> BranchSpawner {
    BranchSpawner {
        config: Arc::new(ModelConfig::new(OpenAiAuth::api_key(), "p".to_owned())),
        has_child_factory,
        lineage_id: "lineage".to_owned(),
        prompt_cache_key: Some("cache".to_owned()),
        tool_profile: ToolProfile::Primary,
        depth: 1,
    }
}

fn settings(tool_profile: ToolProfile) -> BranchSettings {
    BranchSettings {
        model: Model { name: "branch-model" },
        thinking: Thinking::Low,
        fast_mode: true,
        tool_profile,
    }
}

#[test]
fn forks_share_the_lineage_and_the_boundary() {
    let id = SessionId::new();
    let plan = spawner(false).fork(id, &checkpoint(), "parent", settings(ToolProfile::Child));
    assert_eq!(plan.spawner.lineage_id, "lineage");
    assert_eq!(plan.spawner.prompt_cache_key.as_deref(), Some("cache"));
    assert_eq!(plan.spawner.depth, 2);
    assert_eq!(plan.spawner.config.model.name, "branch-model");
    assert_eq!(plan.spawner.config.thinking, Thinking::Low);
    assert_eq!(plan.workspace.as_deref(), Some("/work"));
    assert_eq!(plan.origin.kind, OriginKind::Fork);
    assert_eq!(plan.origin.kind.name(), "fork");
    assert_eq!(plan.origin.parent_session_id, "parent");
    let resume = plan.resume.unwrap();
    assert!(matches!(resume, InitialResume::Exact(_)));
    assert_eq!(resume.workspace(), "/work");
    assert_eq!(resume.history_len(), 2);
    assert_eq!(resume.prompt_cache_key(), "cache");
}

#[test]
fn branches_with_other_tools_start_a_cache_of_their_own() {
    let id = SessionId::new();
    let plan = spawner(true).fork(id, &checkpoint(), "parent", settings(ToolProfile::Child));
    assert_eq!(plan.spawner.prompt_cache_key, Some(id.text()));
    let resume = plan.resume.unwrap();
    assert!(matches!(resume, InitialResume::History(_)));
    assert_eq!(resume.prompt_cache_key(), id.text());
    let spawned = spawner(true).spawn(id, None, "parent", settings(ToolProfile::Child));
    assert_eq!(spawned.spawner.config.model.name, "branch-model");
    assert_eq!(spawned.spawner.lineage_id, id.text());
    assert_eq!(spawned.spawner.prompt_cache_key, Some(id.text()));
    assert!(spawned.resume.is_none());
    let same = spawner(true).spawn(id, None, "parent", settings(ToolProfile::Primary));
    assert_eq!(same.spawner.prompt_cache_key.as_deref(), Some("cache"));
    assert!(matches!(
        spawner(true).seed(ToolProfile::Child, Arc::new(1), Some(Arc::new(2))),
        Ok(seed) if *seed == 2
    ));
    assert!(matches!(
        spawner(true).seed::<u8>(ToolProfile::Child, Arc::new(1), None),
        Err(NanocodexError::InvalidRequest(reason))
            if reason == "profile-changing fork did not produce a child history checkpoint"
    ));
    assert!(matches!(
        spawner(false).seed(ToolProfile::Child, Arc::new(1), None),
        Ok(seed) if *seed == 1
    ));
}

#[test]
fn children_get_their_own_tools() {
    let shared: ToolsConfiguration<&str, &str> = ToolsConfiguration::Shared("tools");
    assert!(!shared.has_child_factory());
    assert!(matches!(shared.materialize(ToolProfile::Child), ToolsSource::Tools(&"tools")));
    let split = shared.with_child_factory("child");
    assert!(split.has_child_factory());
    assert!(matches!(split.materialize(ToolProfile::Child), ToolsSource::Call(&"child")));
    assert!(matches!(split.materialize(ToolProfile::Primary), ToolsSource::Tools(&"tools")));
    let made: ToolsConfiguration<&str, &str> = ToolsConfiguration::PerAgent {
        factory: ToolsFactory::Call("make"),
        child_factory: None,
    };
    assert!(matches!(made.materialize(ToolProfile::Child), ToolsSource::Call(&"make")));
}

fn start() -> RolloutStart {
    RolloutStart {
        now: LocalTime { year: 2025, month: 1, day: 31, hour: 23, minute: 5, second: 9 },
        timestamp: "2025-01-31T22:05:09.000Z".to_owned(),
        window_id: "window".to_owned(),
        cli_version: "1.2.3".to_owned(),
    }
}

fn identity() -> RolloutIdentity<'static> {
    RolloutIdentity { lineage_id: "lineage", prompt_cache_key: "cache" }
}

fn config(resume_path: Option<&str>) -> RolloutConfig {
    RolloutConfig {
        codex_home: "/home/codex".to_owned(),
        resume_path: resume_path.map(str::to_owned),
        path_style: PathStyle::Unix,
    }
}

fn plan(
    config: &RolloutConfig,
    kind: &'static str,
    parent: Option<&'static str>,
    resume_history_len: Option<usize>,
) -> Result<RolloutPlan, String> {
    RolloutRecorder::create(
        config,
        "thread",
        &identity(),
        "/work",
        "instructions",
        &RolloutOrigin { kind, parent_thread_id: parent },
        resume_history_len,
        start(),
    )
}

#[test]
fn records_are_kept_by_day() {
    match plan(&config(None), "root", None, None) {
        Ok(RolloutPlan::Create(new)) => {
            assert_eq!(new.directory, "/home/codex/sessions/2025/01/31");
            assert_eq!(
                new.recorder.info().path(),
                "/home/codex/sessions/2025/01/31/rollout-2025-01-31T23-05-09-thread.jsonl"
            );
            assert_eq!(new.recorder.info().thread_id(), "thread");
            assert_eq!(new.writer_path, new.recorder.info().path());
            assert_eq!(new.recorder.publish_path(), None);
            assert!(new.recorder.discard_unpublished_rollout().is_empty());
            assert_eq!(new.meta.cwd, "/work");
            assert_eq!(new.meta.base_instructions, "instructions");
            assert_eq!(new.meta.nanocodex_lineage_id, "lineage");
            assert_eq!(new.meta.originator, "nanocodex");
            assert!(new.meta.forked_from_id.is_none());
        }
        _ => panic!("a record must be made"),
    }
}

#[test]
fn forked_records_are_hidden_until_they_are_published() {
    match plan(&config(None), "fork", Some("parent"), None) {
        Ok(RolloutPlan::Create(new)) => {
            let hidden = "/home/codex/sessions/2025/01/31/.rollout-2025-01-31T23-05-09-thread.pending";
            assert_eq!(new.writer_path, hidden);
            assert_eq!(new.recorder.publish_path(), Some(new.recorder.info().path()));
            assert_eq!(new.recorder.shutdown_removes(), Some(hidden));
            assert_eq!(
                new.recorder.discard_unpublished_rollout(),
                [hidden, new.recorder.info().path()]
            );
            assert_eq!(new.meta.forked_from_id.as_deref(), Some("parent"));
        }
        _ => panic!("a record must be made"),
    }
}

#[test]
fn resumed_records_are_continued() {
    let resumed = config(Some("/records/old.jsonl"));
    assert!(matches!(
        plan(&resumed, "root", None, Some(4)),
        Ok(RolloutPlan::Resume { path, history_len: 4 }) if path == "/records/old.jsonl"
    ));
    assert_eq!(
        plan(&resumed, "root", None, None).err().unwrap(),
        "resumed rollout requires restored history"
    );
    assert!(resumed.for_new_thread().resume_path.is_none());
    let recorder = RolloutRecorder::resume("thread", "/records/old.jsonl", 4, 4).ok().unwrap();
    assert_eq!(recorder.info().path(), "/records/old.jsonl");
    assert_eq!(
        RolloutRecorder::resume("thread", "/records/old.jsonl", 5, 4).err().unwrap(),
        "Codex rollout contains history newer than the durable Nanocodex boundary"
    );
}

fn begin(
    durability: &DurabilityConfig,
    runtime_available: bool,
    current: Result<String, String>,
    workspace: Option<StatedWorkspace<'_>>,
    resume_history_len: Option<usize>,
) -> Result<Option<RolloutPlan>, NanocodexError> {
    durability.start(
        runtime_available,
        "thread",
        &identity(),
        current,
        workspace,
        "instructions",
        &RolloutOrigin { kind: "root", parent_thread_id: None },
        resume_history_len,
        start(),
    )
}

#[test]
fn recording_starts_where_it_is_asked_for() {
    let mut durability = DurabilityConfig::new();
    let home = || Ok("/home/me".to_owned());
    assert!(matches!(begin(&durability, false, home(), None, None), Ok(None)));
    durability.set_rollout(config(None));
    assert!(matches!(
        begin(&durability, false, home(), None, None),
        Err(NanocodexError::TokioRuntimeUnavailable)
    ));
    assert!(matches!(
        begin(&durability, true, Err("gone".to_owned()), None, None),
        Err(NanocodexError::InitializeRollout { codex_home, source })
            if codex_home == "/home/codex" && source == "gone"
    ));
    assert!(matches!(
        begin(&durability, true, home(), Some(StatedWorkspace { path: "project", resolved: "unused" }), None),
        Ok(Some(RolloutPlan::Create(new))) if new.meta.cwd == "/home/me/project"
    ));
    durability.set_rollout(config(Some("/old")));
    assert!(matches!(
        begin(&durability, true, home(), None, None),
        Err(NanocodexError::InitializeRollout { source, .. })
            if source == "resumed rollout requires restored history"
    ));
    assert!(matches!(
        begin(&durability.for_new_thread(), true, home(), None, None),
        Ok(Some(RolloutPlan::Create(_)))
    ));
}

#[test]
fn paths_are_joined_like_std_joins_them() {
    for (base, path) in [("/a", "b"), ("/a/", "b"), ("", "b"), ("/a", ""), ("a", "b/c")] {
        assert_eq!(
            join_path(PathStyle::Unix, base, path),
            std::path::Path::new(base).join(path).to_str().unwrap()
        );
    }
    for (base, path, joined) in [
        (r"C:\a", "b", r"C:\a\b"),
        (r"C:\a\", "b", r"C:\a\b"),
        ("C:/a/", "b", "C:/a/b"),
        ("C:/a", r"b\c", r"C:/a\b\c"),
        ("C:", "b", "C:b"),
        ("", "b", "b"),
        (r"\\?\C:\a", "b", r"\\?\C:\a\b"),
    ] {
        assert_eq!(join_path(PathStyle::Windows, base, path), joined);
    }
    assert_eq!(join_path(PathStyle::Unix, "C:", "b"), "C:/b");
}

#[test]
fn workspaces_are_resolved_where_the_process_runs() {
    let resolve = |style: PathStyle, current: &str, path: &str| {
        let workspace = StatedWorkspace { path, resolved: "resolved" };
        rollout_workspace(style, Ok(current.to_owned()), Some(workspace)).unwrap()
    };
    for (path, expected) in [("w", "/c/w"), ("", "/c/"), ("/w", "/w"), ("C:/w", "/c/C:/w")] {
        assert_eq!(resolve(PathStyle::Unix, "/c", path), expected);
        assert_eq!(expected, std::path::Path::new("/c").join(path).to_str().unwrap());
    }
    for (path, expected) in [
        ("w", r"C:\c\w"),
        (r"D:\w", r"D:\w"),
        ("d:/w", "d:/w"),
        (r"\w", "resolved"),
        ("D:w", "resolved"),
        (r"\\server\share\w", "resolved"),
    ] {
        assert_eq!(resolve(PathStyle::Windows, r"C:\c", path), expected);
    }
    assert_eq!(resolve(PathStyle::Windows, r"\\?\C:\c", "w/v"), "resolved");
    assert_eq!(
        rollout_workspace(PathStyle::Unix, Ok("/c".to_owned()), None),
        Ok("/c".to_owned())
    );
    for path in ["w", "/w"] {
        let workspace = StatedWorkspace { path, resolved: "unused" };
        assert_eq!(
            rollout_workspace(PathStyle::Unix, Err("e".to_owned()), Some(workspace)),
            Err("e".to_owned())
        );
    }
}

#[test]
fn records_are_placed_as_the_platform_writes_paths() {
    let windows = RolloutConfig {
        codex_home: r"C:\codex".to_owned(),
        resume_path: None,
        path_style: PathStyle::Windows,
    };
    match plan(&windows, "root", None, None) {
        Ok(RolloutPlan::Create(new)) => {
            assert_eq!(new.directory, r"C:\codex\sessions\2025\01\31");
            assert_eq!(
                new.recorder.info().path(),
                r"C:\codex\sessions\2025\01\31\rollout-2025-01-31T23-05-09-thread.jsonl"
            );
        }
        _ => panic!("a new record must be made"),
    }
    assert_eq!(windows.for_new_thread().path_style, PathStyle::Windows);
}

#[test]
fn writers_report_why_they_stopped() {
    assert_eq!(WriterCommand::Commit.failure(WriterReply::Done), None);
    assert_eq!(
        WriterCommand::Commit.failure(WriterReply::Failed("disk full".to_owned())).as_deref(),
        Some("disk full")
    );
    assert_eq!(
        WriterCommand::Seed.failure(WriterReply::Dropped).as_deref(),
        Some("Codex rollout writer stopped during initial seed")
    );
    assert_eq!(
        WriterCommand::Publish.failure(WriterReply::NotSent).as_deref(),
        Some("Codex rollout writer stopped during publish")
    );
    assert_eq!(WriterCommand::Shutdown.failure(WriterReply::NotSent), None);
    assert_eq!(
        WriterCommand::Flush.failure(WriterReply::Dropped).as_deref(),
        Some("Codex rollout writer stopped")
    );
}

#[test]
fn turns_are_timed_once() {
    let turn = RolloutTurn::started(&Prompt::new("go"), Thinking::Low, 100);
    assert_eq!(turn.status, RolloutTurnStatus::InProgress);
    assert_eq!(uuid::Uuid::parse_str(&turn.turn_id).unwrap().get_version_num(), 7);
    let done = turn.completed("done".to_owned(), TurnEnd { now: 105, elapsed_ms: 5_000 });
    assert_eq!(done.final_message.as_deref(), Some("done"));
    assert_eq!((done.completed_at, done.duration_ms), (Some(105), Some(5_000)));
    let again = done.failed(TurnEnd { now: 200, elapsed_ms: 9 });
    assert_eq!((again.completed_at, again.duration_ms), (Some(200), None));
    assert_eq!(again.status, RolloutTurnStatus::Failed);
    let compaction = RolloutTurn::compaction_started(Thinking::Low, 1);
    assert!(compaction.user_message.is_none());
    let quiet = RolloutTurn::compaction_started(Thinking::Low, 1)
        .completed_without_message(TurnEnd { now: 2, elapsed_ms: 7 });
    assert_eq!(quiet.status, RolloutTurnStatus::Completed);
    assert_eq!((quiet.final_message, quiet.duration_ms), (None, Some(7)));
    let long = compaction.interrupted(TurnEnd { now: 2, elapsed_ms: u128::MAX });
    assert_eq!(long.duration_ms, Some(i64::MAX));
}

#[test]
fn conversations_are_recorded_where_a_recorder_is() {
    let off = Durability::new(None);
    assert!(off.info().is_none());
    let turn = off.start_turn(&Prompt::new("go"), Thinking::Low, 1);
    assert!(off.persist(turn).is_none());
    assert!(off.persist_failure("disk full".to_owned()).is_none());
    let recorder = RolloutRecorder::resume("thread", "/r.jsonl", 0, 0).ok().unwrap();
    let on = Durability::new(Some(recorder));
    assert_eq!(on.info().unwrap().path(), "/r.jsonl");
    let end = TurnEnd { now: 3, elapsed_ms: 2_000 };
    let turn = on.start_turn(&Prompt::new("go"), Thinking::Low, 1).completed("ok".to_owned(), end);
    assert_eq!(on.persist(turn).unwrap().final_message.as_deref(), Some("ok"));
    let turn = on.start_compaction(Thinking::Low, 1).ended(RolloutTurnStatus::Replaced, end);
    assert_eq!(on.persist(turn).unwrap().status, RolloutTurnStatus::Replaced);
    let failure = on.persist_failure("disk full".to_owned()).unwrap();
    assert_eq!((failure.path.as_str(), failure.source.as_str()), ("/r.jsonl", "disk full"));

    let turn = RolloutTurn::started(&Prompt::new("go"), Thinking::Low, 1);
    let commit = RolloutCommit::from_session(&checkpoint(), Model::sol(), 3, turn);
    assert_eq!(commit.model.name, "gpt-5.6-sol");
    assert_eq!((commit.history.len(), commit.revision), (2, 3));
    let seed = RolloutSeed::from_session(&checkpoint(), Model { name: "other" }, 4, Thinking::Max);
    assert_eq!(seed.model.name, "other");
    assert_eq!((seed.history.len(), seed.revision, seed.effort), (2, 4, Thinking::Max));
}
