use nanocodex::config::{ModelConfig, OpenAiAuth};
use nanocodex::items::{ToolDefinition, ToolOutputBody};
use nanocodex::tool_calls::ToolExecution;
use nanocodex::tools::{
    finish_dispatch, remote_tools, tool_schema, Dispatch, EnvironmentVariable, HandlerOutcome,
    NestedInput, ProviderSurface, RegisteredTool, SchemaEntry, ToolInput, ToolRegistry,
    ToolRuntime, Tools, ToolsBuildError,
};

fn function(name: &str) -> ToolDefinition {
    ToolDefinition::Function {
        name: name.to_owned(),
        description: format!("Tool `{}`.", name),
        parameters: r#"{"type":"object","properties":{}}"#.to_owned(),
    }
}

fn tool(name: &str) -> RegisteredTool {
    RegisteredTool { definition: function(name), parallel: false }
}

fn parallel(name: &str) -> RegisteredTool {
    RegisteredTool { definition: function(name), parallel: true }
}

fn freeform(name: &str) -> RegisteredTool {
    RegisteredTool {
        definition: ToolDefinition::Custom {
            name: name.to_owned(),
            description: "Free text.".to_owned(),
            format: "{}".to_owned(),
        },
        parallel: false,
    }
}

fn search() -> RegisteredTool {
    RegisteredTool {
        definition: ToolDefinition::ToolSearch { description: "Searches.".to_owned() },
        parallel: false,
    }
}

fn names(registry: &ToolRegistry) -> Vec<String> {
    registry.entries().iter().map(|tool| tool.definition.name().to_owned()).collect()
}

fn exec_spec(nested: &[ToolDefinition]) -> ToolDefinition {
    let listed: Vec<String> =
        nested.iter().map(|definition| format!("`{}`", definition.name())).collect();
    ToolDefinition::Custom {
        name: "exec".to_owned(),
        description: listed.join("\n"),
        format: "{}".to_owned(),
    }
}

fn specs(runtime: &ToolRuntime) -> Vec<ToolDefinition> {
    runtime.model_specs(exec_spec(&runtime.nested_definitions()), function("wait"))
}

fn workspace_tools() -> Vec<RegisteredTool> {
    ["apply_patch", "exec_command", "update_plan", "view_image", "write_stdin"]
        .into_iter()
        .map(tool)
        .collect()
}

fn runtime(web_search: bool) -> ToolRuntime {
    ToolRuntime::new_with_tools(
        ".".to_owned(),
        "bash".to_owned(),
        workspace_tools(),
        if web_search { Some(parallel("web__run")) } else { None },
        Some(tool("image_gen__imagegen")),
        &Tools::default(),
    )
}

fn plain_runtime(directory: &str, tools: &Tools) -> ToolRuntime {
    ToolRuntime::new_with_tools(
        directory.to_owned(),
        "bash".to_owned(),
        workspace_tools(),
        None,
        None,
        tools,
    )
}

#[test]
fn web_search_handler_and_spec_are_absent_when_disabled() {
    let none = Vec::new();
    let enabled = runtime(true);
    assert!(names(enabled.registry()).iter().any(|name| name == "web__run"));
    assert!(enabled.registry().supports_parallel_tool_calls("web__run", &none));
    assert!(!enabled.registry().supports_parallel_tool_calls("image_gen__imagegen", &none));
    assert!(specs(&enabled)[0].description().contains("`web__run`"));

    let disabled = runtime(false);
    assert!(names(disabled.registry()).iter().all(|name| name != "web__run"));
    assert!(!specs(&disabled)[0].description().contains("`web__run`"));
}

#[test]
fn parallel_safety_follows_direct_then_provider_dispatch_precedence() {
    let provider = |name: &str, safe: bool| ProviderSurface {
        tools: vec![RegisteredTool { definition: function(name), parallel: safe }],
    };
    let empty = || ToolInput::Function("{}".to_owned());
    let direct_collision = Tools::builder()
        .without_defaults()
        .tool(tool("collision"))
        .provider(Vec::new())
        .build()
        .unwrap();
    assert_eq!(direct_collision.provider_count(), 1);
    let direct_collision = plain_runtime(".", &direct_collision);
    let providers = vec![provider("collision", true)];
    let registry = direct_collision.registry();
    assert!(registry.contains("collision", &providers));
    assert!(!registry.supports_parallel_tool_calls("collision", &providers));
    assert!(matches!(
        registry.dispatch_direct("collision", empty(), &providers),
        Dispatch::Handler { at: 0, .. }
    ));

    let provider_collision = Tools::builder()
        .without_defaults()
        .provider(Vec::new())
        .provider(Vec::new())
        .build()
        .unwrap();
    let provider_collision = plain_runtime(".", &provider_collision);
    let providers =
        vec![provider("provider_collision", false), provider("provider_collision", true)];
    let registry = provider_collision.registry();
    assert!(registry.contains("provider_collision", &providers));
    assert!(!registry.supports_parallel_tool_calls("provider_collision", &providers));
    assert!(matches!(
        registry.dispatch_direct("provider_collision", empty(), &providers),
        Dispatch::Provider(0)
    ));
    assert!(!registry.contains("unknown", &providers));
    assert!(!registry.supports_parallel_tool_calls("unknown", &providers));
}

#[test]
fn without_defaults_allows_replacing_a_standard_workspace_tool() {
    assert!(Tools::builder().tool(tool("exec_command")).build().is_err());

    let tools = Tools::builder().without_defaults().tool(tool("exec_command")).build().unwrap();
    let runtime = plain_runtime(".", &tools);

    assert_eq!(names(runtime.registry()), ["exec_command"]);
}

#[test]
fn model_description_is_stable_across_registration_order() {
    let first = Tools::builder()
        .without_defaults()
        .tool(tool("fails"))
        .tool(tool("double"))
        .build()
        .unwrap();
    let second = Tools::builder()
        .without_defaults()
        .tool(tool("double"))
        .tool(tool("fails"))
        .build()
        .unwrap();

    let first = format!("{:?}", specs(&plain_runtime(".", &first)));
    let second = format!("{:?}", specs(&plain_runtime(".", &second)));

    assert_eq!(first, second);
    assert!(first.find("`double`").unwrap() < first.find("`fails`").unwrap());
}

#[test]
fn tool_recipe_overrides_model_visible_environment_context() {
    let tools = Tools::builder()
        .without_defaults()
        .working_directory("/workspace".to_owned())
        .default_shell("sh".to_owned())
        .build()
        .unwrap();
    let runtime = plain_runtime("/host/attempt", &tools);

    assert_eq!(runtime.working_directory(), "/workspace");
    assert_eq!(runtime.default_shell_name(), "sh");
}

fn variable(name: &str, value: &str) -> EnvironmentVariable {
    EnvironmentVariable { name: name.to_owned(), value: value.to_owned() }
}

fn environment(tools: &Tools) -> Vec<(&str, &str)> {
    tools
        .process_environment()
        .iter()
        .map(|variable| (variable.name.as_str(), variable.value.as_str()))
        .collect()
}

#[test]
fn session_binding_overrides_only_its_process_environment_clone() {
    let tools = Tools::builder()
        .process_environment(vec![
            variable("OTHER_VARIABLE", "preserved"),
            variable("CODEX_THREAD_ID", "caller-spoof"),
        ])
        .build()
        .unwrap();
    let bound = tools.clone().for_session("session-1");

    assert_eq!(
        environment(&tools),
        [("OTHER_VARIABLE", "preserved"), ("CODEX_THREAD_ID", "caller-spoof")]
    );
    assert_eq!(
        environment(&bound),
        [("OTHER_VARIABLE", "preserved"), ("CODEX_THREAD_ID", "session-1")]
    );
}

#[test]
fn the_last_value_of_a_variable_stays() {
    let tools = Tools::builder()
        .process_environment(vec![variable("A", "1"), variable("B", "2"), variable("A", "3")])
        .build()
        .unwrap();
    assert_eq!(environment(&tools), [("B", "2"), ("A", "3")]);
}

#[test]
fn tool_recipe_rejects_empty_environment_overrides() {
    assert!(matches!(
        Tools::builder().working_directory(" ".to_owned()).build(),
        Err(ToolsBuildError::EmptyWorkingDirectory)
    ));
    assert!(matches!(
        Tools::builder().default_shell("".to_owned()).build(),
        Err(ToolsBuildError::EmptyDefaultShell)
    ));
}

fn refusal(result: Result<Tools, ToolsBuildError>) -> String {
    result.err().unwrap().message()
}

#[test]
fn names_of_tools_are_checked() {
    assert_eq!(
        refusal(Tools::builder().tool(tool("")).build()),
        "tool name must not be empty"
    );
    assert_eq!(
        refusal(Tools::builder().tool(tool("x")).tool(tool("x")).build()),
        "tool name `x` is registered more than once"
    );
    assert_eq!(
        refusal(Tools::builder().tool(tool("web__run")).build()),
        "tool name `web__run` conflicts with an enabled built-in tool"
    );
    assert!(Tools::builder().web_search(false).tool(tool("web__run")).build().is_ok());
    assert_eq!(
        refusal(Tools::builder().provider(vec![tool("view_image")]).build()),
        "tool name `view_image` conflicts with an enabled built-in tool"
    );
    assert_eq!(
        refusal(Tools::builder().default_shell(" ".to_owned()).build()),
        "default shell override must not be empty"
    );
    assert_eq!(
        refusal(Tools::builder().working_directory("".to_owned()).build()),
        "working directory override must not be empty"
    );
}

#[test]
fn choices_are_kept() {
    let tools = Tools::builder()
        .workspace(false)
        .web_search(true)
        .image_generation(false)
        .build()
        .unwrap();
    assert!(!tools.workspace_enabled());
    assert!(tools.web_search_enabled());
    assert!(!tools.image_generation_enabled());
    let again = tools.into_builder().image_generation(true).build().unwrap();
    assert!(again.image_generation_enabled());

    let mut config = ModelConfig::new(OpenAiAuth::api_key(), "prompt".to_owned());
    config.api_base_url = "http://127.0.0.1:1/v1/".to_owned();
    let remote = remote_tools("/w", &config, &again);
    assert_eq!(remote.web_search.unwrap().endpoint, "http://127.0.0.1:1/v1/alpha/search");
    let images = remote.image_generation.unwrap();
    assert_eq!(images.api_base_url, "http://127.0.0.1:1/v1/");
    assert_eq!(images.save_root, "/w");
    let none = Tools::builder().without_defaults().build().unwrap();
    let remote = remote_tools("/w", &config, &none);
    assert!(remote.web_search.is_none());
    assert!(remote.image_generation.is_none());
}

#[test]
fn provider_search_is_described_to_the_model_alone() {
    let runtime = ToolRuntime::new(
        ".".to_owned(),
        "bash".to_owned(),
        vec![tool("zeta"), search(), tool("alpha")],
    );
    let nested: Vec<String> =
        runtime.nested_definitions().iter().map(|tool| tool.name().to_owned()).collect();
    assert_eq!(nested, ["alpha", "zeta"]);
    let listed: Vec<String> = specs(&runtime).iter().map(|tool| tool.name().to_owned()).collect();
    assert_eq!(listed, ["exec", "tool_search", "wait"]);
}

fn failure(dispatch: Dispatch) -> String {
    match dispatch {
        Dispatch::Failed(execution) => {
            assert!(!execution.success);
            text(execution)
        }
        _ => panic!("the call must fail"),
    }
}

fn text(execution: ToolExecution) -> String {
    match execution.output {
        ToolOutputBody::Text(text) => text,
        _ => panic!("the output must be text"),
    }
}

fn done(text: String) -> HandlerOutcome {
    HandlerOutcome::Done(ToolExecution {
        success: true,
        output: ToolOutputBody::Text(text),
        metadata: None,
    })
}

/// Runs a call of the model: a registered tool by `handle`, and one of a
/// provider by `provide`.
fn execute_direct(
    registry: &ToolRegistry,
    providers: &Vec<ProviderSurface>,
    name: &str,
    arguments: &str,
    handle: &mut dyn FnMut(&str, &str) -> HandlerOutcome,
    provide: &mut dyn FnMut(&str, &str) -> HandlerOutcome,
) -> ToolExecution {
    match registry.dispatch_direct(name, ToolInput::Function(arguments.to_owned()), providers) {
        Dispatch::Failed(execution) => execution,
        Dispatch::Handler { at, input } => {
            let ToolInput::Function(given) = input else { panic!("the input must be JSON") };
            let called = registry.entries()[at].definition.name().to_owned();
            finish_dispatch(name, false, handle(&called, &given))
        }
        Dispatch::Provider(_) => finish_dispatch(name, false, provide(name, arguments)),
    }
}

#[test]
fn direct_model_calls_reach_activated_dynamic_tools() {
    let tools = Tools::builder()
        .without_defaults()
        .provider(vec![tool("tool_search")])
        .build()
        .unwrap();
    let runtime =
        ToolRuntime::new(".".to_owned(), "bash".to_owned(), Vec::new()).with_tools(&tools);
    let registry = runtime.registry();
    let activated = std::cell::Cell::new(false);
    let surface = |active: bool| {
        vec![ProviderSurface {
            tools: if active { vec![tool("deferred_echo")] } else { Vec::new() },
        }]
    };
    let mut search = |name: &str, given: &str| {
        assert_eq!((name, given), ("tool_search", r#"{"query":"echo"}"#));
        activated.set(true);
        done(r#"{"name":"deferred_echo"}"#.to_owned())
    };
    let mut echo = |name: &str, given: &str| {
        assert_eq!(name, "deferred_echo");
        done(given.to_owned())
    };
    let value = r#"{"value":21}"#;

    let early = execute_direct(
        registry,
        &surface(activated.get()),
        "deferred_echo",
        value,
        &mut search,
        &mut echo,
    );
    assert!(!early.success);
    assert_eq!(text(early), "unsupported tool call: deferred_echo");

    let found = execute_direct(
        registry,
        &surface(activated.get()),
        "tool_search",
        r#"{"query":"echo"}"#,
        &mut search,
        &mut echo,
    );
    assert!(found.success);
    assert!(activated.get());

    let execution = execute_direct(
        registry,
        &surface(activated.get()),
        "deferred_echo",
        value,
        &mut search,
        &mut echo,
    );
    assert!(execution.success);
    assert_eq!(
        serde_json::from_str::<serde_json::Value>(&text(execution)).unwrap(),
        serde_json::from_str::<serde_json::Value>(value).unwrap()
    );
}

#[test]
fn providers_take_json_values_alone() {
    let registry = ToolRegistry::from_ordered(vec![tool("own")]);
    let active = vec![ProviderSurface { tools: vec![tool("deferred_echo")] }];
    assert_eq!(
        failure(registry.dispatch_direct(
            "deferred_echo",
            ToolInput::Freeform("text".to_owned()),
            &active
        )),
        "dynamic tool deferred_echo requires object arguments"
    );
    let broken = failure(registry.dispatch_direct(
        "deferred_echo",
        ToolInput::Function("{".to_owned()),
        &active,
    ));
    let expected = serde_json::from_str::<serde_json::Value>("{").unwrap_err().to_string();
    assert_eq!(broken, format!("failed to decode deferred_echo arguments: {}", expected));
    assert!(matches!(
        registry.dispatch_direct("own", ToolInput::Freeform("{".to_owned()), &active),
        Dispatch::Handler { at: 0, input: ToolInput::Freeform(given) } if given == "{"
    ));
}

#[test]
fn nested_calls_are_given_what_their_tool_takes() {
    let registry = ToolRegistry::from_ordered(vec![tool("double"), freeform("patch"), search()]);
    let providers = vec![ProviderSurface { tools: vec![tool("deferred")] }];
    assert!(matches!(
        registry.dispatch_nested("double", NestedInput::Object(Ok("{}".to_owned())), &providers),
        Dispatch::Handler { at: 0, input: ToolInput::Function(given) } if given == "{}"
    ));
    assert!(matches!(
        registry.dispatch_nested("patch", NestedInput::Text("p".to_owned()), &providers),
        Dispatch::Handler { at: 1, input: ToolInput::Freeform(given) } if given == "p"
    ));
    assert!(matches!(
        registry.dispatch_nested("deferred", NestedInput::Other, &providers),
        Dispatch::Provider(0)
    ));
    for (name, input, expected) in [
        ("double", NestedInput::Other, "nested function tool double requires an object argument"),
        (
            "double",
            NestedInput::Object(Err("too deep".to_owned())),
            "failed to encode double input: too deep",
        ),
        ("patch", NestedInput::Other, "nested freeform tool patch requires a string argument"),
        (
            "tool_search",
            NestedInput::Other,
            "provider-native tool_search cannot execute as a nested Code Mode tool",
        ),
        ("missing", NestedInput::Other, "unsupported nested tool call: missing"),
    ] {
        assert_eq!(failure(registry.dispatch_nested(name, input, &providers)), expected);
    }
}

#[test]
fn handler_errors_become_failed_model_visible_results() {
    let execution = finish_dispatch(
        "fails",
        true,
        HandlerOutcome::Failed("intentional handler failure".to_owned()),
    );
    assert!(!execution.success);
    assert_eq!(text(execution), "intentional handler failure");
}

#[test]
fn handler_panics_become_aborted_outputs_without_escaping_the_runtime() {
    let tools = Tools::builder()
        .without_defaults()
        .tool(tool("panics"))
        .provider(Vec::new())
        .build()
        .unwrap();
    let runtime =
        ToolRuntime::new(".".to_owned(), "bash".to_owned(), Vec::new()).with_tools(&tools);
    let providers = vec![ProviderSurface { tools: vec![tool("provider_panic")] }];
    let registry = runtime.registry();

    let nested =
        registry.dispatch_nested("panics", NestedInput::Object(Ok("{}".to_owned())), &providers);
    assert!(matches!(
        nested,
        Dispatch::Handler { at: 0, input: ToolInput::Function(given) } if given == "{}"
    ));
    let registered = finish_dispatch("panics", true, HandlerOutcome::Panicked);
    assert!(!registered.success);
    assert_eq!(text(registered), "aborted");

    let provider = execute_direct(
        registry,
        &providers,
        "provider_panic",
        "{}",
        &mut |_, _| panic!("no registered tool is called"),
        &mut |name, _| {
            assert_eq!(name, "provider_panic");
            HandlerOutcome::Panicked
        },
    );
    assert!(!provider.success);
    assert_eq!(text(provider), "aborted");
}

#[test]
fn tools_that_went_away_are_unsupported() {
    let execution = finish_dispatch("gone", false, HandlerOutcome::Gone);
    assert!(!execution.success);
    assert_eq!(text(execution), "unsupported tool call: gone");
    let execution = finish_dispatch("gone", true, HandlerOutcome::Gone);
    assert_eq!(text(execution), "unsupported nested tool call: gone");
    assert_eq!(text(finish_dispatch("double", true, done("4".to_owned()))), "4");
}

#[test]
fn of_two_tools_with_a_name_the_later_is_called() {
    let mut registry = ToolRegistry::from_ordered(vec![tool("x"), tool("y")]);
    registry.extend(&vec![parallel("x")]);
    assert_eq!(registry.get("x"), Some(2));
    assert_eq!(registry.get("y"), Some(1));
    assert_eq!(registry.get("z"), None);
    assert!(registry.supports_parallel_tool_calls("x", &Vec::new()));
}

#[test]
fn running_code_is_told_of_its_tools() {
    let registry = ToolRegistry::from_ordered(vec![tool("double"), search(), freeform("patch")]);
    let providers = vec![ProviderSurface { tools: vec![tool("deferred")] }];
    let metadata = registry.nested_tool_metadata(&providers);
    let told: Vec<(&str, &str)> =
        metadata.iter().map(|tool| (tool.tool_name.as_str(), tool.kind)).collect();
    assert_eq!(told, [("double", "function"), ("patch", "freeform"), ("deferred", "function")]);
    assert_eq!(metadata[0].description, "Tool `double`.");
}

#[test]
fn schemas_keep_what_the_model_reads() {
    let entry = |key: &str| SchemaEntry { key: key.to_owned(), value: "{}".to_owned() };
    let kept = tool_schema(&vec![
        entry("$schema"),
        entry("type"),
        entry("properties"),
        entry("title"),
        entry("required"),
        entry("additionalProperties"),
    ]);
    let keys: Vec<&str> = kept.iter().map(|entry| entry.key.as_str()).collect();
    assert!(!keys.contains(&"$schema"));
    assert!(!keys.contains(&"title"));
    assert!(keys.contains(&"type"));
    assert!(keys.contains(&"properties"));
    assert!(keys.contains(&"required"));
}

#[test]
fn turns_are_numbered() {
    let mut runtime = plain_runtime(".", &Tools::default());
    assert_eq!(runtime.current_turn(), 0);
    runtime.begin_turn();
    runtime.begin_turn();
    assert_eq!(runtime.current_turn(), 2);
}
