//! Choosing the tools of an agent, and finding the one that a call asks for.
use crate::config::{ModelConfig, OpenAiAuth};
use crate::items::{clone_text, ToolDefinition};
use crate::json;
use crate::json::json_value_error;
use crate::text;
use crate::text::{comes_before, is_blank, join, join3, same_text};
use crate::tool_calls::ToolExecution;
use std::sync::Arc;
use vstd::prelude::*;
use vstd::seq_lib::*;
use vstd::string::*;

verus! {

/// Variable that tells a command which session it belongs to.
pub const CODEX_THREAD_ID_ENV_VAR: &'static str = "CODEX_THREAD_ID";

/// A tool that can be called.
#[derive(Debug)]
pub struct RegisteredTool {
    /// What the model is told of it.
    pub definition: ToolDefinition,
    /// Whether it may run beside other calls.
    pub parallel: bool,
}

impl Clone for RegisteredTool {
    fn clone(&self) -> (r: Self)
        ensures
            r == *self,
    {
        RegisteredTool { definition: self.definition.clone(), parallel: self.parallel }
    }
}

/// A variable of the environment of commands.
#[derive(Debug)]
pub struct EnvironmentVariable {
    /// Name.
    pub name: String,
    /// Value.
    pub value: String,
}

impl Clone for EnvironmentVariable {
    fn clone(&self) -> (r: Self)
        ensures
            r == *self,
    {
        EnvironmentVariable { name: self.name.clone(), value: self.value.clone() }
    }
}

/// Copies tools.
fn clone_tools(tools: &Vec<RegisteredTool>) -> (r: Vec<RegisteredTool>)
    ensures
        r@ == tools@,
{
    let mut out: Vec<RegisteredTool> = Vec::new();
    extend_tools(&mut out, tools);
    proof {
        assert(out@ =~= tools@);
    }
    out
}

/// Copies variables.
fn clone_environment(variables: &Vec<EnvironmentVariable>) -> (r: Vec<EnvironmentVariable>)
    ensures
        r@ == variables@,
{
    let mut out: Vec<EnvironmentVariable> = Vec::new();
    let mut i: usize = 0;
    while i < variables.len()
        invariant
            i <= variables@.len(),
            out@ == variables@.take(i as int),
        decreases variables@.len() - i,
    {
        out.push(variables[i].clone());
        proof {
            assert(out@ =~= variables@.take(i as int + 1));
        }
        i = i + 1;
    }
    proof {
        assert(variables@.take(variables@.len() as int) =~= variables@);
    }
    out
}

/// Adds copies of tools.
fn extend_tools(target: &mut Vec<RegisteredTool>, tools: &Vec<RegisteredTool>)
    ensures
        final(target)@ == old(target)@ + tools@,
{
    let mut i: usize = 0;
    while i < tools.len()
        invariant
            i <= tools@.len(),
            target@ == old(target)@ + tools@.take(i as int),
        decreases tools@.len() - i,
    {
        target.push(tools[i].clone());
        proof {
            assert(target@ =~= old(target)@ + tools@.take(i as int + 1));
        }
        i = i + 1;
    }
    proof {
        assert(tools@.take(tools@.len() as int) =~= tools@);
    }
}

/// What was chosen of the tools of an agent.
pub struct ToolSelection {
    /// Whether the standard command, patch, plan, and file tools are there.
    pub workspace: bool,
    /// Whether the standard web search is there.
    pub web_search: bool,
    /// Whether the standard image generation is there.
    pub image_generation: bool,
    /// Working directory that the model is told of.
    pub working_directory: Option<String>,
    /// Shell that the model is told of.
    pub default_shell: Option<String>,
    /// Variables for commands. No name occurs twice.
    pub process_environment: Vec<EnvironmentVariable>,
    /// Client of tools that ask other services.
    pub remote_http_client: Option<Arc<reqwest::Client>>,
    /// Tools beside the standard ones.
    pub registered: Vec<RegisteredTool>,
    /// Number of providers of further tools.
    pub providers: usize,
}

/// What a choice of tools holds.
#[verifier::ext_equal]
pub struct SelectionView {
    /// Whether the standard command, patch, plan, and file tools are there.
    pub workspace: bool,
    /// Whether the standard web search is there.
    pub web_search: bool,
    /// Whether the standard image generation is there.
    pub image_generation: bool,
    /// Working directory that the model is told of.
    pub working_directory: Option<String>,
    /// Shell that the model is told of.
    pub default_shell: Option<String>,
    /// Variables for commands.
    pub environment: Seq<EnvironmentVariable>,
    /// Client of tools that ask other services.
    pub remote_http_client: Option<Arc<reqwest::Client>>,
    /// Tools beside the standard ones.
    pub registered: Seq<RegisteredTool>,
    /// Number of providers of further tools.
    pub providers: nat,
}

impl View for ToolSelection {
    type V = SelectionView;

    open spec fn view(&self) -> SelectionView {
        SelectionView {
            workspace: self.workspace,
            web_search: self.web_search,
            image_generation: self.image_generation,
            working_directory: self.working_directory,
            default_shell: self.default_shell,
            environment: self.process_environment@,
            remote_http_client: self.remote_http_client,
            registered: self.registered@,
            providers: self.providers as nat,
        }
    }
}

/// Variables with one set: an earlier value of the same name is gone.
pub open spec fn with_variable(
    environment: Seq<EnvironmentVariable>,
    name: String,
    value: String,
) -> Seq<EnvironmentVariable> {
    environment.filter(|variable: EnvironmentVariable| variable.name@ != name@).push(
        EnvironmentVariable { name, value },
    )
}

/// Variables with several set, in order.
pub open spec fn with_variables(
    environment: Seq<EnvironmentVariable>,
    variables: Seq<EnvironmentVariable>,
) -> Seq<EnvironmentVariable>
    decreases variables.len(),
{
    if variables.len() == 0 {
        environment
    } else {
        with_variable(
            with_variables(environment, variables.drop_last()),
            variables.last().name,
            variables.last().value,
        )
    }
}

/// Whether a name is that of a standard tool that is there.
pub open spec fn is_built_in(selection: SelectionView, name: Seq<char>) -> bool {
    ||| selection.workspace && (name == "exec_command"@ || name == "write_stdin"@ || name
        == "update_plan"@ || name == "apply_patch"@ || name == "view_image"@)
    ||| selection.web_search && name == "web__run"@
    ||| selection.image_generation && name == "image_gen__imagegen"@
}

/// What is wrong with a tool beside the standard ones.
pub enum NameFault {
    /// It has no name.
    Empty,
    /// It has the name of a standard tool that is there.
    BuiltIn,
    /// An earlier one has the same name.
    Duplicate,
}

/// Whether one of the first tools has a name.
pub open spec fn named_before(tools: Seq<RegisteredTool>, upto: int, name: Seq<char>) -> bool {
    exists|j: int| 0 <= j < upto && (#[trigger] tools[j]).definition.named() == name
}

/// What is wrong with a tool, if anything.
pub open spec fn name_fault(selection: SelectionView, at: int) -> Option<NameFault> {
    let name = selection.registered[at].definition.named();
    if name.len() == 0 {
        Some(NameFault::Empty)
    } else if is_built_in(selection, name) {
        Some(NameFault::BuiltIn)
    } else if named_before(selection.registered, at, name) {
        Some(NameFault::Duplicate)
    } else {
        None
    }
}

/// The first tool from a place on that something is wrong with.
pub open spec fn first_fault(selection: SelectionView, from: nat) -> Option<nat>
    decreases selection.registered.len() - from,
{
    if from >= selection.registered.len() {
        None
    } else if name_fault(selection, from as int) is Some {
        Some(from)
    } else {
        first_fault(selection, from + 1)
    }
}

/// Invalid choice of tools.
#[derive(Debug)]
pub enum ToolsBuildError {
    /// A tool has no name.
    EmptyName,
    /// The working directory that the model is told of is empty.
    EmptyWorkingDirectory,
    /// The shell that the model is told of is empty.
    EmptyDefaultShell,
    /// Two tools have the same name.
    DuplicateName(String),
    /// A tool has the name of a standard tool that is there.
    BuiltInName(String),
}

impl ToolsBuildError {
    /// The description of the error.
    pub open spec fn text(self) -> Seq<char> {
        match self {
            ToolsBuildError::EmptyName => "tool name must not be empty"@,
            ToolsBuildError::EmptyWorkingDirectory =>
                "working directory override must not be empty"@,
            ToolsBuildError::EmptyDefaultShell => "default shell override must not be empty"@,
            ToolsBuildError::DuplicateName(name) => "tool name `"@ + name@
                + "` is registered more than once"@,
            ToolsBuildError::BuiltInName(name) => "tool name `"@ + name@
                + "` conflicts with an enabled built-in tool"@,
        }
    }

    /// Describes the error.
    pub fn message(&self) -> (r: String)
        ensures
            r@ == self.text(),
    {
        match self {
            ToolsBuildError::EmptyName => "tool name must not be empty".to_owned(),
            ToolsBuildError::EmptyWorkingDirectory =>
                "working directory override must not be empty".to_owned(),
            ToolsBuildError::EmptyDefaultShell => "default shell override must not be empty".to_owned(),
            ToolsBuildError::DuplicateName(name) => join3(
                "tool name `",
                name.as_str(),
                "` is registered more than once",
            ),
            ToolsBuildError::BuiltInName(name) => join3(
                "tool name `",
                name.as_str(),
                "` conflicts with an enabled built-in tool",
            ),
        }
    }
}

/// Whether an optional text is there and blank.
pub open spec fn given_blank(value: Option<String>) -> bool {
    value is Some && text::blank(value->0@)
}

/// Whether a choice of tools can be used.
pub open spec fn usable(selection: SelectionView) -> bool {
    &&& !given_blank(selection.working_directory)
    &&& !given_blank(selection.default_shell)
    &&& first_fault(selection, 0) is None
}

/// Whether an error says why a choice of tools cannot be used.
pub open spec fn explains(error: ToolsBuildError, selection: SelectionView) -> bool {
    if given_blank(selection.working_directory) {
        error is EmptyWorkingDirectory
    } else if given_blank(selection.default_shell) {
        error is EmptyDefaultShell
    } else {
        match first_fault(selection, 0) {
            Some(at) => {
                let name = selection.registered[at as int].definition.named();
                match name_fault(selection, at as int)->0 {
                    NameFault::Empty => error is EmptyName,
                    NameFault::BuiltIn => error matches ToolsBuildError::BuiltInName(own) && own@
                        == name,
                    NameFault::Duplicate => error matches ToolsBuildError::DuplicateName(own)
                        && own@ == name,
                }
            },
            None => false,
        }
    }
}

/// Tests whether a name is that of a standard tool that is there.
fn built_in_name(selection: &ToolSelection, name: &str) -> (r: bool)
    ensures
        r == is_built_in(selection@, name@),
{
    (selection.workspace && (same_text(name, "exec_command") || same_text(name, "write_stdin")
        || same_text(name, "update_plan") || same_text(name, "apply_patch") || same_text(
        name,
        "view_image",
    ))) || (selection.web_search && same_text(name, "web__run")) || (selection.image_generation
        && same_text(name, "image_gen__imagegen"))
}

impl ToolSelection {
    /// All standard tools and nothing else.
    pub open spec fn standard() -> SelectionView {
        SelectionView {
            workspace: true,
            web_search: true,
            image_generation: true,
            working_directory: None,
            default_shell: None,
            environment: Seq::empty(),
            remote_http_client: None,
            registered: Seq::empty(),
            providers: 0,
        }
    }

    /// Starts with all standard tools and nothing else.
    fn new() -> (r: Self)
        ensures
            r@ == ToolSelection::standard(),
    {
        ToolSelection {
            workspace: true,
            web_search: true,
            image_generation: true,
            working_directory: None,
            default_shell: None,
            process_environment: Vec::new(),
            remote_http_client: None,
            registered: Vec::new(),
            providers: 0,
        }
    }

    /// Sets a variable for commands.
    fn insert_process_environment(&mut self, name: String, value: String)
        ensures
            final(self)@ == (SelectionView {
                environment: with_variable(old(self)@.environment, name, value),
                ..old(self)@
            }),
    {
        let ghost other = |variable: EnvironmentVariable| variable.name@ != name@;
        let mut kept: Vec<EnvironmentVariable> = Vec::new();
        let mut i: usize = 0;
        proof {
            assert(self.process_environment@.take(0).filter(other) =~= Seq::empty());
        }
        while i < self.process_environment.len()
            invariant
                i <= self.process_environment@.len(),
                self@ == old(self)@,
                other == (|variable: EnvironmentVariable| variable.name@ != name@),
                kept@ == self.process_environment@.take(i as int).filter(other),
            decreases self.process_environment@.len() - i,
        {
            proof {
                let upto = self.process_environment@.take(i as int + 1);
                assert(upto.drop_last() =~= self.process_environment@.take(i as int));
                reveal(Seq::filter);
            }
            if !same_text(self.process_environment[i].name.as_str(), name.as_str()) {
                kept.push(self.process_environment[i].clone());
            }
            i = i + 1;
        }
        proof {
            assert(self.process_environment@.take(i as int) =~= self.process_environment@);
        }
        kept.push(EnvironmentVariable { name, value });
        self.process_environment = kept;
    }
}

/// A usable choice of tools.
pub struct Tools {
    selection: ToolSelection,
}

impl View for Tools {
    type V = SelectionView;

    closed spec fn view(&self) -> SelectionView {
        self.selection@
    }
}

impl Default for Tools {
    fn default() -> (r: Self)
        ensures
            r@ == ToolSelection::standard(),
    {
        Tools { selection: ToolSelection::new() }
    }
}

impl Clone for Tools {
    fn clone(&self) -> (r: Self)
        ensures
            r@ == self@,
    {
        proof {
            use_type_invariant(self);
        }
        let remote_http_client = match &self.selection.remote_http_client {
            Some(client) => Some(client.clone()),
            None => None,
        };
        let selection = ToolSelection {
            workspace: self.selection.workspace,
            web_search: self.selection.web_search,
            image_generation: self.selection.image_generation,
            working_directory: clone_text(&self.selection.working_directory),
            default_shell: clone_text(&self.selection.default_shell),
            process_environment: clone_environment(&self.selection.process_environment),
            remote_http_client,
            registered: clone_tools(&self.selection.registered),
            providers: self.selection.providers,
        };
        proof {
            assert(selection@ == self.selection@);
        }
        Tools { selection }
    }
}

impl Tools {
    /// Only a usable choice is ever there.
    #[verifier::type_invariant]
    spec fn held(self) -> bool {
        usable(self.selection@)
    }

    /// Starts a builder with all standard tools.
    pub fn builder() -> (r: ToolsBuilder)
        ensures
            r@ == ToolSelection::standard(),
    {
        ToolsBuilder { selection: ToolSelection::new() }
    }

    /// Goes on choosing.
    pub fn into_builder(self) -> (r: ToolsBuilder)
        ensures
            r@ == self@,
    {
        ToolsBuilder { selection: self.selection }
    }

    /// Returns whether the standard command, patch, plan, and file tools are
    /// there.
    pub fn workspace_enabled(&self) -> (r: bool)
        ensures
            r == self@.workspace,
    {
        self.selection.workspace
    }

    /// Returns whether the standard web search is there.
    pub fn web_search_enabled(&self) -> (r: bool)
        ensures
            r == self@.web_search,
    {
        self.selection.web_search
    }

    /// Returns whether the standard image generation is there.
    pub fn image_generation_enabled(&self) -> (r: bool)
        ensures
            r == self@.image_generation,
    {
        self.selection.image_generation
    }

    /// Returns the variables for commands.
    pub fn process_environment(&self) -> (r: &Vec<EnvironmentVariable>)
        ensures
            r@ == self@.environment,
    {
        &self.selection.process_environment
    }

    /// Returns the number of providers of further tools.
    pub fn provider_count(&self) -> (r: usize)
        ensures
            r == self@.providers,
    {
        self.selection.providers
    }

    /// Binds the choice to one session: commands learn the session's identity,
    /// whatever was set before.
    pub fn for_session(self, session_id: &str) -> (r: Self)
        ensures
            exists|name: String, value: String|
                name@ == CODEX_THREAD_ID_ENV_VAR@ && value@ == session_id@ && r@
                    == (SelectionView {
                    environment: #[trigger] with_variable(self@.environment, name, value),
                    ..self@
                }),
    {
        proof {
            use_type_invariant(&self);
        }
        let mut selection = self.selection;
        let name = CODEX_THREAD_ID_ENV_VAR.to_owned();
        let value = session_id.to_owned();
        let ghost environment = with_variable(selection@.environment, name, value);
        let ghost before = selection@;
        selection.insert_process_environment(name, value);
        proof {
            lemma_environment_keeps_faults(before, environment, 0);
        }
        Tools { selection }
    }
}

/// Variables for commands have nothing to do with the names of tools.
proof fn lemma_environment_keeps_faults(
    selection: SelectionView,
    environment: Seq<EnvironmentVariable>,
    from: nat,
)
    ensures
        first_fault(SelectionView { environment, ..selection }, from) == first_fault(
            selection,
            from,
        ),
    decreases selection.registered.len() - from,
{
    let other = SelectionView { environment, ..selection };
    if from < selection.registered.len() {
        assert(name_fault(other, from as int) == name_fault(selection, from as int));
        lemma_environment_keeps_faults(selection, environment, from + 1);
    }
}

/// Builder for a choice of tools.
pub struct ToolsBuilder {
    selection: ToolSelection,
}

impl View for ToolsBuilder {
    type V = SelectionView;

    closed spec fn view(&self) -> SelectionView {
        self.selection@
    }
}

impl ToolsBuilder {
    /// Leaves out all standard tools.
    pub fn without_defaults(self) -> (r: Self)
        ensures
            r@ == (SelectionView {
                workspace: false,
                web_search: false,
                image_generation: false,
                ..self@
            }),
    {
        let mut selection = self.selection;
        selection.workspace = false;
        selection.web_search = false;
        selection.image_generation = false;
        ToolsBuilder { selection }
    }

    /// Chooses the standard command, patch, plan, and file tools.
    pub fn workspace(self, enabled: bool) -> (r: Self)
        ensures
            r@ == (SelectionView { workspace: enabled, ..self@ }),
    {
        let mut selection = self.selection;
        selection.workspace = enabled;
        ToolsBuilder { selection }
    }

    /// Chooses the standard web search.
    pub fn web_search(self, enabled: bool) -> (r: Self)
        ensures
            r@ == (SelectionView { web_search: enabled, ..self@ }),
    {
        let mut selection = self.selection;
        selection.web_search = enabled;
        ToolsBuilder { selection }
    }

    /// Chooses the standard image generation.
    pub fn image_generation(self, enabled: bool) -> (r: Self)
        ensures
            r@ == (SelectionView { image_generation: enabled, ..self@ }),
    {
        let mut selection = self.selection;
        selection.image_generation = enabled;
        ToolsBuilder { selection }
    }

    /// Sets the working directory that the model is told of.
    pub fn working_directory(self, directory: String) -> (r: Self)
        ensures
            r@ == (SelectionView { working_directory: Some(directory), ..self@ }),
    {
        let mut selection = self.selection;
        selection.working_directory = Some(directory);
        ToolsBuilder { selection }
    }

    /// Sets the shell that the model is told of.
    pub fn default_shell(self, shell: String) -> (r: Self)
        ensures
            r@ == (SelectionView { default_shell: Some(shell), ..self@ }),
    {
        let mut selection = self.selection;
        selection.default_shell = Some(shell);
        ToolsBuilder { selection }
    }

    /// Sets variables for commands. A later value of the same name wins.
    pub fn process_environment(self, variables: Vec<EnvironmentVariable>) -> (r: Self)
        ensures
            r@ == (SelectionView {
                environment: with_variables(self@.environment, variables@),
                ..self@
            }),
    {
        let ghost given = self.selection@;
        let mut selection = self.selection;
        let mut i: usize = 0;
        while i < variables.len()
            invariant
                i <= variables@.len(),
                selection@ == (SelectionView {
                    environment: with_variables(given.environment, variables@.take(i as int)),
                    ..given
                }),
            decreases variables@.len() - i,
        {
            proof {
                assert(variables@.take(i as int + 1).drop_last() =~= variables@.take(i as int));
            }
            selection.insert_process_environment(
                variables[i].name.clone(),
                variables[i].value.clone(),
            );
            i = i + 1;
        }
        proof {
            assert(variables@.take(variables@.len() as int) =~= variables@);
        }
        ToolsBuilder { selection }
    }

    /// Sets the client of tools that ask other services.
    pub fn remote_http_client(self, client: reqwest::Client) -> (r: Self)
        ensures
            r@ == (SelectionView { remote_http_client: Some(Arc::new(client)), ..self@ }),
    {
        let mut selection = self.selection;
        selection.remote_http_client = Some(Arc::new(client));
        ToolsBuilder { selection }
    }

    /// Adds a tool.
    pub fn tool(self, tool: RegisteredTool) -> (r: Self)
        ensures
            r@ == (SelectionView { registered: self@.registered.push(tool), ..self@ }),
    {
        let mut selection = self.selection;
        selection.registered.push(tool);
        ToolsBuilder { selection }
    }

    /// Adds a provider of further tools. `direct_tools` are those that are
    /// always there.
    pub fn provider(self, direct_tools: Vec<RegisteredTool>) -> (r: Self)
        requires
            self@.providers < usize::MAX,
        ensures
            r@ == (SelectionView {
                registered: self@.registered + direct_tools@,
                providers: self@.providers + 1,
                ..self@
            }),
    {
        let mut selection = self.selection;
        extend_tools(&mut selection.registered, &direct_tools);
        selection.providers = selection.providers + 1;
        ToolsBuilder { selection }
    }

    /// Checks the choice.
    pub fn build(self) -> (r: Result<Tools, ToolsBuildError>)
        ensures
            match r {
                Ok(tools) => usable(self@) && tools@ == self@,
                Err(error) => !usable(self@) && explains(error, self@),
            },
    {
        let ghost choice = self.selection@;
        if let Some(directory) = &self.selection.working_directory {
            if is_blank(directory.as_str()) {
                return Err(ToolsBuildError::EmptyWorkingDirectory);
            }
        }
        if let Some(shell) = &self.selection.default_shell {
            if is_blank(shell.as_str()) {
                return Err(ToolsBuildError::EmptyDefaultShell);
            }
        }
        let mut i: usize = 0;
        while i < self.selection.registered.len()
            invariant
                i <= self.selection.registered@.len(),
                choice == self.selection@,
                choice == self@,
                first_fault(choice, 0) == first_fault(choice, i as nat),
                !given_blank(choice.working_directory),
                !given_blank(choice.default_shell),
            decreases self.selection.registered@.len() - i,
        {
            let name = self.selection.registered[i].definition.name();
            if name.is_empty() {
                return Err(ToolsBuildError::EmptyName);
            }
            if built_in_name(&self.selection, name) {
                return Err(ToolsBuildError::BuiltInName(name.to_owned()));
            }
            let mut j: usize = 0;
            while j < i
                invariant
                    j <= i,
                    i < self.selection.registered@.len(),
                    choice == self.selection@,
                    choice == self@,
                    name@ == choice.registered[i as int].definition.named(),
                    name@.len() > 0,
                    !is_built_in(choice, name@),
                    first_fault(choice, 0) == first_fault(choice, i as nat),
                    !given_blank(choice.working_directory),
                    !given_blank(choice.default_shell),
                    forall|k: int|
                        0 <= k < j ==> (#[trigger] choice.registered[k]).definition.named()
                            != name@,
                decreases i - j,
            {
                if same_text(self.selection.registered[j].definition.name(), name) {
                    proof {
                        assert(choice.registered[j as int].definition.named() == name@);
                        assert(named_before(choice.registered, i as int, name@));
                    }
                    return Err(ToolsBuildError::DuplicateName(name.to_owned()));
                }
                j = j + 1;
            }
            proof {
                assert(!named_before(choice.registered, i as int, name@));
            }
            i = i + 1;
        }
        Ok(Tools { selection: self.selection })
    }
}

/// Tools that a provider has activated.
pub struct ProviderSurface {
    /// The tools.
    pub tools: Vec<RegisteredTool>,
}

/// The last tool of a name.
pub open spec fn last_named(tools: Seq<RegisteredTool>, name: Seq<char>) -> Option<nat>
    decreases tools.len(),
{
    if tools.len() == 0 {
        None
    } else if tools.last().definition.named() == name {
        Some((tools.len() - 1) as nat)
    } else {
        last_named(tools.drop_last(), name)
    }
}

/// The first provider that has a tool of a name, from a place on.
pub open spec fn first_provider(
    providers: Seq<ProviderSurface>,
    name: Seq<char>,
    from: nat,
) -> Option<nat>
    decreases providers.len() - from,
{
    if from >= providers.len() {
        None
    } else if last_named(providers[from as int].tools@, name) is Some {
        Some(from)
    } else {
        first_provider(providers, name, from + 1)
    }
}

/// Finds the last tool of a name.
fn find_last(tools: &Vec<RegisteredTool>, name: &str) -> (r: Option<usize>)
    ensures
        match r {
            Some(at) => last_named(tools@, name@) == Some(at as nat) && at < tools@.len(),
            None => last_named(tools@, name@) is None,
        },
{
    let mut end: usize = tools.len();
    proof {
        assert(tools@.take(end as int) =~= tools@);
    }
    while end > 0
        invariant
            end <= tools@.len(),
            last_named(tools@, name@) == last_named(tools@.take(end as int), name@),
        decreases end,
    {
        proof {
            assert(tools@.take(end as int).drop_last() =~= tools@.take(end as int - 1));
        }
        if same_text(tools[end - 1].definition.name(), name) {
            return Some(end - 1);
        }
        end = end - 1;
    }
    None
}

/// Finds the first provider that has a tool of a name.
fn find_provider(providers: &Vec<ProviderSurface>, name: &str) -> (r: Option<usize>)
    ensures
        match r {
            Some(at) => first_provider(providers@, name@, 0) == Some(at as nat) && at
                < providers@.len() && last_named(providers@[at as int].tools@, name@) is Some,
            None => first_provider(providers@, name@, 0) is None,
        },
{
    let mut i: usize = 0;
    while i < providers.len()
        invariant
            i <= providers@.len(),
            first_provider(providers@, name@, 0) == first_provider(providers@, name@, i as nat),
        decreases providers@.len() - i,
    {
        if find_last(&providers[i].tools, name).is_some() {
            return Some(i);
        }
        i = i + 1;
    }
    None
}

/// Input of a tool.
pub enum ToolInput {
    /// A JSON value.
    Function(String),
    /// Free text.
    Freeform(String),
}

/// A JSON value that running code hands to a tool.
pub enum NestedInput {
    /// An object, as JSON text, or the reason why it could not be written.
    Object(Result<String, String>),
    /// A string.
    Text(String),
    /// Anything else.
    Other,
}

/// Who serves a call.
pub enum Dispatch {
    /// A registered tool.
    Handler {
        /// Its place.
        at: usize,
        /// What it is given.
        input: ToolInput,
    },
    /// A provider.
    Provider(usize),
    /// Nobody.
    Failed(ToolExecution),
}

/// Whether an outcome is a failure with a message.
pub open spec fn fails_with(execution: ToolExecution, message: Seq<char>) -> bool {
    &&& !execution.success
    &&& execution.metadata is None
    &&& execution.output matches crate::items::ToolOutputBody::Text(text) && text@ == message
}

/// Whether a dispatch is the one of a call of the model that no registered tool
/// serves. `fault` says why its input cannot be read, if it cannot.
pub open spec fn goes_to_provider(
    dispatch: Dispatch,
    name: Seq<char>,
    fault: Option<Seq<char>>,
    providers: Seq<ProviderSurface>,
) -> bool {
    match fault {
        Some(error) => dispatch matches Dispatch::Failed(execution) && fails_with(
            execution,
            "failed to decode "@ + name + " arguments: "@ + error,
        ),
        None => match first_provider(providers, name, 0) {
            Some(which) => dispatch matches Dispatch::Provider(at) && at == which,
            None => dispatch matches Dispatch::Failed(execution) && fails_with(
                execution,
                "unsupported tool call: "@ + name,
            ),
        },
    }
}

/// Decides who serves a call of the model that no registered tool serves, once
/// it was tried to read its input.
pub fn dispatch_provided(
    name: &str,
    fault: Option<String>,
    providers: &Vec<ProviderSurface>,
) -> (r: Dispatch)
    ensures
        goes_to_provider(
            r,
            name@,
            match fault {
                Some(error) => Some(error@),
                None => None,
            },
            providers@,
        ),
{
    match fault {
        Some(error) => {
            let start = join3("failed to decode ", name, " arguments: ");
            Dispatch::Failed(ToolExecution::error(join(start.as_str(), error.as_str())))
        },
        None => match find_provider(providers, name) {
            Some(which) => Dispatch::Provider(which),
            None => Dispatch::Failed(ToolExecution::error(join("unsupported tool call: ", name))),
        },
    }
}

/// The tools that can be called.
pub struct ToolRegistry {
    entries: Vec<RegisteredTool>,
}

impl View for ToolRegistry {
    type V = Seq<RegisteredTool>;

    closed spec fn view(&self) -> Seq<RegisteredTool> {
        self.entries@
    }
}

impl ToolRegistry {
    /// A registry of tools in order. Of two with the same name the later one is
    /// called.
    pub fn from_ordered(tools: Vec<RegisteredTool>) -> (r: Self)
        ensures
            r@ == tools@,
    {
        ToolRegistry { entries: tools }
    }

    /// Adds tools.
    pub fn extend(&mut self, tools: &Vec<RegisteredTool>)
        ensures
            final(self)@ == old(self)@ + tools@,
    {
        extend_tools(&mut self.entries, tools);
    }

    /// Returns the tools in order.
    pub fn entries(&self) -> (r: &Vec<RegisteredTool>)
        ensures
            r@ == self@,
    {
        &self.entries
    }

    /// Returns the place of the tool of a name.
    pub fn get(&self, name: &str) -> (r: Option<usize>)
        ensures
            match r {
                Some(at) => last_named(self@, name@) == Some(at as nat) && at < self@.len(),
                None => last_named(self@, name@) is None,
            },
    {
        find_last(&self.entries, name)
    }

    /// Returns whether a tool of a name can be called.
    pub fn contains(&self, name: &str, providers: &Vec<ProviderSurface>) -> (r: bool)
        ensures
            r == (last_named(self@, name@) is Some || first_provider(providers@, name@, 0)
                is Some),
    {
        self.get(name).is_some() || find_provider(providers, name).is_some()
    }

    /// Returns whether a tool of a name may run beside other calls. Unknown
    /// tools may not.
    pub fn supports_parallel_tool_calls(
        &self,
        name: &str,
        providers: &Vec<ProviderSurface>,
    ) -> (r: bool)
        ensures
            r == match last_named(self@, name@) {
                Some(at) => self@[at as int].parallel,
                None => match first_provider(providers@, name@, 0) {
                    Some(which) => {
                        let tools = providers@[which as int].tools@;
                        tools[last_named(tools, name@)->0 as int].parallel
                    },
                    None => false,
                },
            },
    {
        match self.get(name) {
            Some(at) => self.entries[at].parallel,
            None => match find_provider(providers, name) {
                Some(which) => match find_last(&providers[which].tools, name) {
                    Some(at) => providers[which].tools[at].parallel,
                    None => false,
                },
                None => false,
            },
        }
    }

    /// Decides who serves a call of the model.
    ///
    /// A registered tool comes before providers, which take JSON values only.
    pub fn dispatch_direct(
        &self,
        name: &str,
        input: ToolInput,
        providers: &Vec<ProviderSurface>,
    ) -> (r: Dispatch)
        ensures
            match last_named(self@, name@) {
                Some(own) => r matches Dispatch::Handler { at, input: given } && at == own && given
                    == input,
                None => match input {
                    ToolInput::Freeform(_) => r matches Dispatch::Failed(execution) && fails_with(
                        execution,
                        "dynamic tool "@ + name@ + " requires object arguments"@,
                    ),
                    ToolInput::Function(arguments) => goes_to_provider(
                        r,
                        name@,
                        json::json_value_fault(arguments@),
                        providers@,
                    ),
                },
            },
    {
        if let Some(at) = self.get(name) {
            return Dispatch::Handler { at, input };
        }
        match input {
            ToolInput::Freeform(_) => Dispatch::Failed(
                ToolExecution::error(
                    join3("dynamic tool ", name, " requires object arguments"),
                ),
            ),
            ToolInput::Function(arguments) => dispatch_provided(
                name,
                json_value_error(arguments.as_str()),
                providers,
            ),
        }
    }

    /// Decides who serves a call of running code.
    pub fn dispatch_nested(
        &self,
        name: &str,
        input: NestedInput,
        providers: &Vec<ProviderSurface>,
    ) -> (r: Dispatch)
        ensures
            match last_named(self@, name@) {
                None => match first_provider(providers@, name@, 0) {
                    Some(which) => r matches Dispatch::Provider(at) && at == which,
                    None => r matches Dispatch::Failed(execution) && fails_with(
                        execution,
                        "unsupported nested tool call: "@ + name@,
                    ),
                },
                Some(own) => match self@[own as int].definition {
                    ToolDefinition::Function { .. } => match input {
                        NestedInput::Object(Ok(encoded)) => r matches Dispatch::Handler {
                            at,
                            input: given,
                        } && at == own && given == ToolInput::Function(encoded),
                        NestedInput::Object(Err(error)) => r matches Dispatch::Failed(execution)
                            && fails_with(
                            execution,
                            "failed to encode "@ + name@ + " input: "@ + error@,
                        ),
                        _ => r matches Dispatch::Failed(execution) && fails_with(
                            execution,
                            "nested function tool "@ + name@ + " requires an object argument"@,
                        ),
                    },
                    ToolDefinition::Custom { .. } => match input {
                        NestedInput::Text(text) => r matches Dispatch::Handler { at, input: given }
                            && at == own && given == ToolInput::Freeform(text),
                        _ => r matches Dispatch::Failed(execution) && fails_with(
                            execution,
                            "nested freeform tool "@ + name@ + " requires a string argument"@,
                        ),
                    },
                    ToolDefinition::ToolSearch { .. } => r matches Dispatch::Failed(execution)
                        && fails_with(
                        execution,
                        "provider-native tool_search cannot execute as a nested Code Mode tool"@,
                    ),
                },
            },
    {
        let at = match self.get(name) {
            Some(at) => at,
            None => return match find_provider(providers, name) {
                Some(which) => Dispatch::Provider(which),
                None => Dispatch::Failed(
                    ToolExecution::error(join("unsupported nested tool call: ", name)),
                ),
            },
        };
        match &self.entries[at].definition {
            ToolDefinition::Function { .. } => match input {
                NestedInput::Object(Ok(encoded)) => Dispatch::Handler {
                    at,
                    input: ToolInput::Function(encoded),
                },
                NestedInput::Object(Err(error)) => {
                    let start = join3("failed to encode ", name, " input: ");
                    Dispatch::Failed(ToolExecution::error(join(start.as_str(), error.as_str())))
                },
                _ => Dispatch::Failed(
                    ToolExecution::error(
                        join3("nested function tool ", name, " requires an object argument"),
                    ),
                ),
            },
            ToolDefinition::Custom { .. } => match input {
                NestedInput::Text(text) => Dispatch::Handler {
                    at,
                    input: ToolInput::Freeform(text),
                },
                _ => Dispatch::Failed(
                    ToolExecution::error(
                        join3("nested freeform tool ", name, " requires a string argument"),
                    ),
                ),
            },
            ToolDefinition::ToolSearch { .. } => Dispatch::Failed(
                ToolExecution::error(
                    "provider-native tool_search cannot execute as a nested Code Mode tool".to_owned(),
                ),
            ),
        }
    }
}

/// What running code is told of a tool.
pub struct ToolMetadata {
    /// Registered name.
    pub tool_name: String,
    /// What the tool does.
    pub description: String,
    /// Kind of its input.
    pub kind: &'static str,
}

/// Whether metadata states a definition.
pub open spec fn describes(metadata: ToolMetadata, definition: ToolDefinition) -> bool {
    &&& metadata.tool_name@ == definition.named()
    &&& metadata.description@ == definition.described()
    &&& metadata.kind@ == match definition {
        ToolDefinition::Function { .. } => "function"@,
        ToolDefinition::Custom { .. } => "freeform"@,
        ToolDefinition::ToolSearch { .. } => "tool_search"@,
    }
}

/// What running code is told of a tool.
fn definition_metadata(definition: &ToolDefinition) -> (r: ToolMetadata)
    ensures
        describes(r, *definition),
{
    let kind = match definition {
        ToolDefinition::Function { .. } => "function",
        ToolDefinition::Custom { .. } => "freeform",
        ToolDefinition::ToolSearch { .. } => "tool_search",
    };
    ToolMetadata {
        tool_name: definition.name().to_owned(),
        description: definition.description().to_owned(),
        kind,
    }
}

/// The definitions of several providers that running code may call.
pub open spec fn provided_of(providers: Seq<ProviderSurface>) -> Seq<ToolDefinition>
    decreases providers.len(),
{
    if providers.len() == 0 {
        Seq::empty()
    } else {
        provided_of(providers.drop_last()) + nested_of(providers.last().tools@)
    }
}

/// Whether metadata states definitions, one for one.
pub open spec fn describe_all(
    metadata: Seq<ToolMetadata>,
    definitions: Seq<ToolDefinition>,
) -> bool {
    &&& metadata.len() == definitions.len()
    &&& forall|i: int|
        0 <= i < definitions.len() ==> describes(#[trigger] metadata[i], definitions[i])
}

/// Adds what running code is told of tools.
fn describe_tools(target: &mut Vec<ToolMetadata>, tools: &Vec<RegisteredTool>)
    ensures
        final(target)@.len() == old(target)@.len() + nested_of(tools@).len(),
        final(target)@.take(old(target)@.len() as int) == old(target)@,
        describe_all(final(target)@.skip(old(target)@.len() as int), nested_of(tools@)),
{
    let ghost n = target@.len() as int;
    let mut i: usize = 0;
    proof {
        assert(target@.take(n) =~= old(target)@);
        assert(target@.skip(n) =~= Seq::<ToolMetadata>::empty());
    }
    while i < tools.len()
        invariant
            i <= tools@.len(),
            n == old(target)@.len(),
            target@.len() == n + nested_of(tools@.take(i as int)).len(),
            target@.take(n) == old(target)@,
            describe_all(target@.skip(n), nested_of(tools@.take(i as int))),
        decreases tools@.len() - i,
    {
        let ghost given = target@;
        proof {
            assert(tools@.take(i as int + 1).drop_last() =~= tools@.take(i as int));
        }
        match &tools[i].definition {
            ToolDefinition::ToolSearch { .. } => {},
            _ => {
                let metadata = definition_metadata(&tools[i].definition);
                target.push(metadata);
                proof {
                    assert(target@.take(n) =~= given.take(n));
                    assert(target@.skip(n) =~= given.skip(n).push(metadata));
                }
            },
        }
        i = i + 1;
    }
    proof {
        assert(tools@.take(tools@.len() as int) =~= tools@);
    }
}

impl ToolRegistry {
    /// Returns what running code is told of tools: the registered ones, and
    /// those that providers have activated. The provider's own search is not
    /// among them.
    pub fn nested_tool_metadata(&self, providers: &Vec<ProviderSurface>) -> (r: Vec<ToolMetadata>)
        ensures
            describe_all(r@, nested_of(self@) + provided_of(providers@)),
    {
        let mut metadata: Vec<ToolMetadata> = Vec::new();
        describe_tools(&mut metadata, &self.entries);
        proof {
            assert(metadata@.skip(0) =~= metadata@);
            assert(nested_of(self@) + provided_of(providers@.take(0)) =~= nested_of(self@));
        }
        let mut i: usize = 0;
        while i < providers.len()
            invariant
                i <= providers@.len(),
                describe_all(
                    metadata@,
                    nested_of(self@) + provided_of(providers@.take(i as int)),
                ),
            decreases providers@.len() - i,
        {
            let ghost given = metadata@;
            let ghost before = nested_of(self@) + provided_of(providers@.take(i as int));
            let ghost added = nested_of(providers@[i as int].tools@);
            describe_tools(&mut metadata, &providers[i].tools);
            proof {
                assert(providers@.take(i as int + 1).drop_last() =~= providers@.take(i as int));
                let all = nested_of(self@) + provided_of(providers@.take(i as int + 1));
                assert(all =~= before + added);
                assert forall|k: int| 0 <= k < all.len() implies describes(
                    #[trigger] metadata@[k],
                    all[k],
                ) by {
                    if k < given.len() {
                        assert(metadata@[k] == metadata@.take(given.len() as int)[k]);
                        assert(describes(given[k], before[k]));
                    } else {
                        let tail = metadata@.skip(given.len() as int);
                        assert(metadata@[k] == tail[k - given.len()]);
                        assert(describes(tail[k - given.len()], added[k - given.len()]));
                    }
                }
            }
            i = i + 1;
        }
        proof {
            assert(providers@.take(providers@.len() as int) =~= providers@);
        }
        metadata
    }
}

/// A key of a JSON object with its value as JSON text.
pub struct SchemaEntry {
    /// Key.
    pub key: String,
    /// Value.
    pub value: String,
}

impl Clone for SchemaEntry {
    fn clone(&self) -> (r: Self)
        ensures
            r == *self,
    {
        SchemaEntry { key: self.key.clone(), value: self.value.clone() }
    }
}

/// Whether the schema of a tool keeps a key.
pub open spec fn keeps_key(key: Seq<char>) -> bool {
    ||| key == "properties"@
    ||| key == "required"@
    ||| key == "type"@
    ||| key == "additionalProperties"@
    ||| key == "$defs"@
    ||| key == "definitions"@
    ||| key == "enum"@
    ||| key == "const"@
    ||| key == "anyOf"@
    ||| key == "oneOf"@
    ||| key == "allOf"@
}

/// Tests whether the schema of a tool keeps a key.
fn is_schema_key(key: &str) -> (r: bool)
    ensures
        r == keeps_key(key@),
{
    same_text(key, "properties") || same_text(key, "required") || same_text(key, "type")
        || same_text(key, "additionalProperties") || same_text(key, "$defs") || same_text(
        key,
        "definitions",
    ) || same_text(key, "enum") || same_text(key, "const") || same_text(key, "anyOf")
        || same_text(key, "oneOf") || same_text(key, "allOf")
}

/// Reduces the schema of a type to what the schema of a tool keeps.
pub fn tool_schema(entries: &Vec<SchemaEntry>) -> (r: Vec<SchemaEntry>)
    ensures
        r@ == entries@.filter(|entry: SchemaEntry| keeps_key(entry.key@)),
{
    let ghost kept = |entry: SchemaEntry| keeps_key(entry.key@);
    let mut out: Vec<SchemaEntry> = Vec::new();
    let mut i: usize = 0;
    proof {
        reveal(Seq::filter);
        assert(entries@.take(0).filter(kept) =~= Seq::<SchemaEntry>::empty());
    }
    while i < entries.len()
        invariant
            i <= entries@.len(),
            kept == (|entry: SchemaEntry| keeps_key(entry.key@)),
            out@ == entries@.take(i as int).filter(kept),
        decreases entries@.len() - i,
    {
        proof {
            reveal(Seq::filter);
            assert(entries@.take(i as int + 1).drop_last() =~= entries@.take(i as int));
        }
        if is_schema_key(entries[i].key.as_str()) {
            out.push(entries[i].clone());
        }
        i = i + 1;
    }
    proof {
        assert(entries@.take(entries@.len() as int) =~= entries@);
    }
    out
}

/// What came of a tool that was called.
pub enum HandlerOutcome {
    /// It ended.
    Done(ToolExecution),
    /// It could not do its work.
    Failed(String),
    /// The provider no longer has it.
    Gone,
    /// It panicked.
    Panicked,
}

/// Turns what came of a tool into an outcome for the model.
pub fn finish_dispatch(name: &str, nested: bool, outcome: HandlerOutcome) -> (r: ToolExecution)
    ensures
        match outcome {
            HandlerOutcome::Done(execution) => r == execution,
            HandlerOutcome::Failed(error) => fails_with(r, error@),
            HandlerOutcome::Gone => fails_with(
                r,
                if nested {
                    "unsupported nested tool call: "@ + name@
                } else {
                    "unsupported tool call: "@ + name@
                },
            ),
            HandlerOutcome::Panicked => fails_with(r, "aborted"@),
        },
{
    match outcome {
        HandlerOutcome::Done(execution) => execution,
        HandlerOutcome::Failed(error) => ToolExecution::error(error),
        HandlerOutcome::Gone => {
            if nested {
                ToolExecution::error(join("unsupported nested tool call: ", name))
            } else {
                ToolExecution::error(join("unsupported tool call: ", name))
            }
        },
        HandlerOutcome::Panicked => ToolExecution::error("aborted".to_owned()),
    }
}

/// A sorted list with one more definition, behind those that it does not come
/// before.
pub open spec fn inserted(list: Seq<ToolDefinition>, definition: ToolDefinition) -> Seq<
    ToolDefinition,
>
    decreases list.len(),
{
    if list.len() > 0 && text::before(definition.named(), list.last().named()) {
        inserted(list.drop_last(), definition).push(list.last())
    } else {
        list.push(definition)
    }
}

/// Definitions in the order of their names; those of the same name stay in
/// their order.
pub open spec fn sorted(definitions: Seq<ToolDefinition>) -> Seq<ToolDefinition>
    decreases definitions.len(),
{
    if definitions.len() == 0 {
        Seq::empty()
    } else {
        inserted(sorted(definitions.drop_last()), definitions.last())
    }
}

/// Where a definition is inserted.
proof fn lemma_inserted_at(list: Seq<ToolDefinition>, definition: ToolDefinition, at: int)
    requires
        0 <= at <= list.len(),
        forall|j: int|
            at <= j < list.len() ==> text::before(definition.named(), #[trigger] list[j].named()),
        at > 0 ==> !text::before(definition.named(), list[at - 1].named()),
    ensures
        inserted(list, definition) == list.insert(at, definition),
    decreases list.len(),
{
    if at < list.len() {
        let shorter = list.drop_last();
        assert(text::before(definition.named(), list[list.len() - 1].named()));
        lemma_inserted_at(shorter, definition, at);
        assert(shorter.insert(at, definition).push(list.last()) =~= list.insert(at, definition));
    } else {
        assert(list.insert(at, definition) =~= list.push(definition));
    }
}

/// Sorts definitions by their names.
fn sort_definitions(definitions: &Vec<ToolDefinition>) -> (r: Vec<ToolDefinition>)
    ensures
        r@ == sorted(definitions@),
{
    let mut out: Vec<ToolDefinition> = Vec::new();
    let mut i: usize = 0;
    while i < definitions.len()
        invariant
            i <= definitions@.len(),
            out@ == sorted(definitions@.take(i as int)),
            out@.len() == i,
        decreases definitions@.len() - i,
    {
        proof {
            assert(definitions@.take(i as int + 1).drop_last() =~= definitions@.take(i as int));
        }
        let definition = definitions[i].clone();
        let ghost list = out@;
        let mut at: usize = out.len();
        while at > 0 && comes_before(definition.name(), out[at - 1].name())
            invariant
                at <= out@.len(),
                out@ == list,
                forall|j: int|
                    at <= j < list.len() ==> text::before(
                        definition.named(),
                        #[trigger] list[j].named(),
                    ),
            decreases at,
        {
            at = at - 1;
        }
        proof {
            lemma_inserted_at(list, definition, at as int);
        }
        out.insert(at, definition);
        i = i + 1;
    }
    proof {
        assert(definitions@.take(definitions@.len() as int) =~= definitions@);
    }
    out
}

/// The definitions of tools that stand for themselves before the model: the
/// provider's own search.
pub open spec fn native_of(tools: Seq<RegisteredTool>) -> Seq<ToolDefinition>
    decreases tools.len(),
{
    if tools.len() == 0 {
        Seq::empty()
    } else {
        let before = native_of(tools.drop_last());
        if tools.last().definition is ToolSearch {
            before.push(tools.last().definition)
        } else {
            before
        }
    }
}

/// The definitions of tools that only running code may call.
pub open spec fn nested_of(tools: Seq<RegisteredTool>) -> Seq<ToolDefinition>
    decreases tools.len(),
{
    if tools.len() == 0 {
        Seq::empty()
    } else {
        let before = nested_of(tools.drop_last());
        if tools.last().definition is ToolSearch {
            before
        } else {
            before.push(tools.last().definition)
        }
    }
}

/// The state of one agent's tools.
pub struct ToolRuntime {
    registry: ToolRegistry,
    current_turn: u64,
    default_shell_name: String,
    working_directory: String,
}

/// What the state of one agent's tools holds.
#[verifier::ext_equal]
pub struct RuntimeView {
    /// Tools in order.
    pub tools: Seq<RegisteredTool>,
    /// Number of the turn.
    pub current_turn: u64,
    /// Shell that the model is told of.
    pub default_shell_name: String,
    /// Working directory that the model is told of.
    pub working_directory: String,
}

impl View for ToolRuntime {
    type V = RuntimeView;

    closed spec fn view(&self) -> RuntimeView {
        RuntimeView {
            tools: self.registry@,
            current_turn: self.current_turn,
            default_shell_name: self.default_shell_name,
            working_directory: self.working_directory,
        }
    }
}

/// The runtime of standard tools after a choice was added to it.
pub open spec fn runtime_with(before: RuntimeView, selection: SelectionView) -> RuntimeView {
    RuntimeView {
        tools: before.tools + selection.registered,
        working_directory: match selection.working_directory {
            Some(directory) => directory,
            None => before.working_directory,
        },
        default_shell_name: match selection.default_shell {
            Some(shell) => shell,
            None => before.default_shell_name,
        },
        ..before
    }
}

/// Where the standard web search is.
pub struct WebSearchConfig {
    /// Search endpoint.
    pub endpoint: String,
    /// Authentication source.
    pub auth: OpenAiAuth,
}

/// Where the standard image generation is.
pub struct ImageGenerationConfig {
    /// API base URL.
    pub api_base_url: String,
    /// Authentication source.
    pub auth: OpenAiAuth,
    /// Directory that images are saved in.
    pub save_root: String,
}

/// Where the chosen standard tools are.
pub struct RemoteToolsConfig {
    /// The web search, if it was chosen.
    pub web_search: Option<WebSearchConfig>,
    /// The image generation, if it was chosen.
    pub image_generation: Option<ImageGenerationConfig>,
}

/// Returns where the chosen standard tools of an agent are.
pub fn remote_tools(workspace: &str, config: &ModelConfig, tools: &Tools) -> (r: RemoteToolsConfig)
    ensures
        match r.web_search {
            Some(search) => tools@.web_search && search.endpoint@ == text::without_trailing(
                config.api_base_url@,
                '/',
            ) + "/alpha/search"@ && search.auth == config.auth,
            None => !tools@.web_search,
        },
        match r.image_generation {
            Some(images) => tools@.image_generation && images.api_base_url == config.api_base_url
                && images.auth == config.auth && images.save_root@ == workspace@,
            None => !tools@.image_generation,
        },
{
    let web_search = if tools.web_search_enabled() {
        Some(WebSearchConfig { endpoint: config.search_endpoint(), auth: config.auth.clone() })
    } else {
        None
    };
    let image_generation = if tools.image_generation_enabled() {
        Some(
            ImageGenerationConfig {
                api_base_url: config.api_base_url.clone(),
                auth: config.auth.clone(),
                save_root: workspace.to_owned(),
            },
        )
    } else {
        None
    };
    RemoteToolsConfig { web_search, image_generation }
}

/// The standard tools of a runtime: those of the workspace where they are
/// enabled, then the remote ones that are configured.
pub open spec fn chosen_standard(
    workspace_enabled: bool,
    workspace: Seq<RegisteredTool>,
    web_search: Option<RegisteredTool>,
    image_generation: Option<RegisteredTool>,
) -> Seq<RegisteredTool> {
    let local = if workspace_enabled {
        workspace
    } else {
        Seq::empty()
    };
    let searched = match web_search {
        Some(tool) => local.push(tool),
        None => local,
    };
    match image_generation {
        Some(tool) => searched.push(tool),
        None => searched,
    }
}

impl ToolRuntime {
    /// A runtime of standard tools.
    pub fn new(
        working_directory: String,
        default_shell_name: String,
        standard: Vec<RegisteredTool>,
    ) -> (r: Self)
        ensures
            r@ == (RuntimeView {
                tools: standard@,
                current_turn: 0,
                default_shell_name,
                working_directory,
            }),
    {
        ToolRuntime {
            registry: ToolRegistry::from_ordered(standard),
            current_turn: 0,
            default_shell_name,
            working_directory,
        }
    }

    /// A runtime of the standard tools that a choice of tools enables, and of
    /// that choice. The remote tools are there where they are configured.
    pub fn new_with_tools(
        working_directory: String,
        default_shell_name: String,
        workspace: Vec<RegisteredTool>,
        web_search: Option<RegisteredTool>,
        image_generation: Option<RegisteredTool>,
        tools: &Tools,
    ) -> (r: Self)
        ensures
            r@ == runtime_with(
                RuntimeView {
                    tools: chosen_standard(
                        tools@.workspace,
                        workspace@,
                        web_search,
                        image_generation,
                    ),
                    current_turn: 0,
                    default_shell_name,
                    working_directory,
                },
                tools@,
            ),
    {
        let mut standard: Vec<RegisteredTool> = if tools.workspace_enabled() {
            workspace
        } else {
            Vec::new()
        };
        if let Some(tool) = web_search {
            standard.push(tool);
        }
        if let Some(tool) = image_generation {
            standard.push(tool);
        }
        proof {
            assert(standard@ =~= chosen_standard(
                tools@.workspace,
                workspace@,
                web_search,
                image_generation,
            ));
        }
        ToolRuntime::new(working_directory, default_shell_name, standard).with_tools(tools)
    }

    /// Adds a choice of tools.
    pub fn with_tools(self, tools: &Tools) -> (r: Self)
        ensures
            r@ == runtime_with(self@, tools@),
    {
        let mut registry = self.registry;
        registry.extend(&tools.selection.registered);
        let working_directory = match &tools.selection.working_directory {
            Some(directory) => directory.clone(),
            None => self.working_directory,
        };
        let default_shell_name = match &tools.selection.default_shell {
            Some(shell) => shell.clone(),
            None => self.default_shell_name,
        };
        ToolRuntime {
            registry,
            current_turn: self.current_turn,
            default_shell_name,
            working_directory,
        }
    }

    /// Returns the shell that the model is told of.
    pub fn default_shell_name(&self) -> (r: &str)
        ensures
            r@ == self@.default_shell_name@,
    {
        self.default_shell_name.as_str()
    }

    /// Returns the working directory that the model is told of.
    pub fn working_directory(&self) -> (r: &str)
        ensures
            r@ == self@.working_directory@,
    {
        self.working_directory.as_str()
    }

    /// Returns the tools that can be called.
    pub fn registry(&self) -> (r: &ToolRegistry)
        ensures
            r@ == self@.tools,
    {
        &self.registry
    }

    /// Returns the definitions that running code is told of, in the order of
    /// their names.
    pub fn nested_definitions(&self) -> (r: Vec<ToolDefinition>)
        ensures
            r@ == sorted(nested_of(self@.tools)),
    {
        let mut nested: Vec<ToolDefinition> = Vec::new();
        let mut i: usize = 0;
        while i < self.registry.entries.len()
            invariant
                i <= self.registry.entries@.len(),
                nested@ == nested_of(self.registry.entries@.take(i as int)),
            decreases self.registry.entries@.len() - i,
        {
            proof {
                assert(self.registry.entries@.take(i as int + 1).drop_last()
                    =~= self.registry.entries@.take(i as int));
            }
            match &self.registry.entries[i].definition {
                ToolDefinition::ToolSearch { .. } => {},
                _ => {
                    nested.push(self.registry.entries[i].definition.clone());
                },
            }
            i = i + 1;
        }
        proof {
            assert(self.registry.entries@.take(i as int) =~= self.registry.entries@);
        }
        sort_definitions(&nested)
    }

    /// Returns the definitions that the model is told of: the provider's own
    /// search, and the two that run code and wait for it, in the order of their
    /// names. `exec` and `wait` are made from [`Self::nested_definitions`].
    pub fn model_specs(&self, exec: ToolDefinition, wait: ToolDefinition) -> (r: Vec<
        ToolDefinition,
    >)
        ensures
            r@ == sorted(native_of(self@.tools).push(exec).push(wait)),
    {
        let mut native: Vec<ToolDefinition> = Vec::new();
        let mut i: usize = 0;
        while i < self.registry.entries.len()
            invariant
                i <= self.registry.entries@.len(),
                native@ == native_of(self.registry.entries@.take(i as int)),
            decreases self.registry.entries@.len() - i,
        {
            proof {
                assert(self.registry.entries@.take(i as int + 1).drop_last()
                    =~= self.registry.entries@.take(i as int));
            }
            match &self.registry.entries[i].definition {
                ToolDefinition::ToolSearch { .. } => {
                    native.push(self.registry.entries[i].definition.clone());
                },
                _ => {},
            }
            i = i + 1;
        }
        proof {
            assert(self.registry.entries@.take(i as int) =~= self.registry.entries@);
        }
        native.push(exec);
        native.push(wait);
        sort_definitions(&native)
    }

    /// Starts the next turn.
    pub fn begin_turn(&mut self)
        ensures
            final(self)@ == (RuntimeView {
                current_turn: crate::session::next_u64(old(self)@.current_turn),
                ..old(self)@
            }),
    {
        self.current_turn = self.current_turn.saturating_add(1);
    }

    /// Returns the number of the turn, whose work a cancellation stops.
    pub fn current_turn(&self) -> (r: u64)
        ensures
            r == self@.current_turn,
    {
        self.current_turn
    }
}

/// Whether no two definitions have the same name.
pub open spec fn distinct_names(definitions: Seq<ToolDefinition>) -> bool {
    forall|i: int, j: int|
        0 <= i < j < definitions.len() ==> (#[trigger] definitions[i]).named() != (
        #[trigger] definitions[j]).named()
}

/// Whether definitions stand in the order of their names.
pub open spec fn in_order(definitions: Seq<ToolDefinition>) -> bool {
    forall|i: int, j: int|
        0 <= i < j < definitions.len() ==> !text::before(
            (#[trigger] definitions[j]).named(),
            (#[trigger] definitions[i]).named(),
        )
}

/// Inserting keeps the order and adds one definition.
proof fn lemma_inserted_keeps_order(list: Seq<ToolDefinition>, definition: ToolDefinition)
    requires
        in_order(list),
    ensures
        in_order(inserted(list, definition)),
        inserted(list, definition).len() == list.len() + 1,
        inserted(list, definition).to_multiset() == list.to_multiset().insert(definition),
    decreases list.len(),
{
    broadcast use group_to_multiset_ensures;

    let out = inserted(list, definition);
    if list.len() > 0 && text::before(definition.named(), list.last().named()) {
        let shorter = list.drop_last();
        lemma_inserted_keeps_order(shorter, definition);
        let rest = inserted(shorter, definition);
        assert(shorter.push(list.last()) =~= list);
        assert(out.to_multiset() =~= list.to_multiset().insert(definition));
        assert forall|i: int, j: int| 0 <= i < j < out.len() implies !text::before(
            (#[trigger] out[j]).named(),
            (#[trigger] out[i]).named(),
        ) by {
            if j < rest.len() {
                assert(out[i] == rest[i] && out[j] == rest[j]);
            } else {
                assert(out[j] == list.last());
                assert(out[i] == rest[i]);
                assert(rest.contains(rest[i]));
                assert(rest.to_multiset().count(rest[i]) > 0);
                if rest[i] == definition {
                    text::lemma_before_is_total(definition.named(), list.last().named());
                } else {
                    assert(shorter.to_multiset().count(rest[i]) > 0);
                    assert(shorter.contains(rest[i]));
                    let k = choose|k: int| 0 <= k < shorter.len() && shorter[k] == rest[i];
                    assert(list[k] == rest[i]);
                    assert(list[list.len() - 1] == list.last());
                }
            }
        }
    } else {
        assert forall|i: int, j: int| 0 <= i < j < out.len() implies !text::before(
            (#[trigger] out[j]).named(),
            (#[trigger] out[i]).named(),
        ) by {
            if j < list.len() {
                assert(out[i] == list[i] && out[j] == list[j]);
            } else if i < list.len() - 1 {
                assert(out[j] == definition);
                let last = list[list.len() - 1];
                assert(out[i] == list[i]);
                if text::before(definition.named(), list[i].named()) {
                    text::lemma_before_is_total(last.named(), list[i].named());
                    assert(!text::before(last.named(), list[i].named()));
                    text::lemma_before_is_total(list[i].named(), last.named());
                    if list[i].named() != last.named() {
                        text::lemma_before_is_transitive(
                            definition.named(),
                            list[i].named(),
                            last.named(),
                        );
                    }
                }
            }
        }
    }
}

/// Sorting keeps what is there and puts it in order.
pub proof fn lemma_sorted(definitions: Seq<ToolDefinition>)
    ensures
        in_order(sorted(definitions)),
        sorted(definitions).len() == definitions.len(),
        sorted(definitions).to_multiset() == definitions.to_multiset(),
    decreases definitions.len(),
{
    broadcast use group_to_multiset_ensures;

    if definitions.len() > 0 {
        lemma_sorted(definitions.drop_last());
        lemma_inserted_keeps_order(sorted(definitions.drop_last()), definitions.last());
        assert(definitions.drop_last().push(definitions.last()) =~= definitions);
    } else {
        assert(sorted(definitions) =~= definitions);
    }
}

/// Two lists in order that hold the same definitions of distinct names are the
/// same.
proof fn lemma_ordered_lists_agree(a: Seq<ToolDefinition>, b: Seq<ToolDefinition>)
    requires
        in_order(a),
        in_order(b),
        a.to_multiset() == b.to_multiset(),
        distinct_names(a),
        distinct_names(b),
    ensures
        a == b,
    decreases a.len(),
{
    broadcast use group_to_multiset_ensures;

    assert(a.len() == a.to_multiset().len());
    assert(b.len() == b.to_multiset().len());
    if a.len() == 0 {
        assert(a =~= b);
    } else {
        let x = a.last();
        let y = b.last();
        assert(a[a.len() - 1] == x);
        assert(b[b.len() - 1] == y);
        assert(a.contains(x));
        assert(b.contains(y));
        assert(b.to_multiset().count(x) > 0);
        assert(a.to_multiset().count(y) > 0);
        let i = choose|i: int| 0 <= i < b.len() && b[i] == x;
        let j = choose|j: int| 0 <= j < a.len() && a[j] == y;
        if i < b.len() - 1 {
            assert(!text::before(b[b.len() - 1].named(), b[i].named()));
        }
        if j < a.len() - 1 {
            assert(!text::before(a[a.len() - 1].named(), a[j].named()));
        }
        text::lemma_before_is_total(x.named(), y.named());
        text::lemma_before_is_total(y.named(), x.named());
        if x.named() == y.named() && j < a.len() - 1 {
            assert(a[j].named() != a[a.len() - 1].named());
        }
        assert(x == y);
        let c = a.drop_last();
        let d = b.drop_last();
        assert(c.push(x) =~= a);
        assert(d.push(x) =~= b);
        assert(c.to_multiset() =~= a.to_multiset().remove(x));
        assert(d.to_multiset() =~= b.to_multiset().remove(x));
        assert forall|p: int, q: int| 0 <= p < q < c.len() implies (#[trigger] c[p]).named() != (
        #[trigger] c[q]).named() by {
            assert(a[p].named() != a[q].named());
        }
        assert forall|p: int, q: int| 0 <= p < q < d.len() implies (#[trigger] d[p]).named() != (
        #[trigger] d[q]).named() by {
            assert(b[p].named() != b[q].named());
        }
        lemma_ordered_lists_agree(c, d);
    }
}

/// Distinct names stay distinct when a list is reordered.
proof fn lemma_distinct_names_stay(a: Seq<ToolDefinition>, b: Seq<ToolDefinition>)
    requires
        a.to_multiset() == b.to_multiset(),
        distinct_names(a),
    ensures
        distinct_names(b),
{
    broadcast use group_to_multiset_ensures;

    assert forall|i: int, j: int| 0 <= i < j < b.len() implies (#[trigger] b[i]).named() != (
    #[trigger] b[j]).named() by {
        if b[i].named() == b[j].named() {
            assert(b.contains(b[i]) && b.contains(b[j]));
            assert(a.to_multiset().count(b[i]) > 0);
            assert(a.to_multiset().count(b[j]) > 0);
            let p = choose|p: int| 0 <= p < a.len() && a[p] == b[i];
            let q = choose|q: int| 0 <= q < a.len() && a[q] == b[j];
            if p < q {
                assert(a[p].named() != a[q].named());
            } else if q < p {
                assert(a[q].named() != a[p].named());
            } else {
                lemma_two_places_count_twice(b, i, j);
                lemma_distinct_counts_once(a, b[i]);
            }
        }
    }
}

/// What stands at two places is counted at least twice.
proof fn lemma_two_places_count_twice(list: Seq<ToolDefinition>, i: int, j: int)
    requires
        0 <= i < j < list.len(),
        list[i] == list[j],
    ensures
        list.to_multiset().count(list[i]) >= 2,
{
    broadcast use group_to_multiset_ensures;

    let without = list.remove(j);
    assert(without[i] == list[i]);
    assert(without.contains(list[i]));
    assert(without.to_multiset() =~= list.to_multiset().remove(list[j]));
    assert(without.to_multiset().count(list[i]) > 0);
}

/// In a list of distinct names nothing is counted twice.
proof fn lemma_distinct_counts_once(list: Seq<ToolDefinition>, definition: ToolDefinition)
    requires
        distinct_names(list),
    ensures
        list.to_multiset().count(definition) <= 1,
    decreases list.len(),
{
    broadcast use group_to_multiset_ensures;

    if list.len() > 0 {
        let shorter = list.drop_last();
        assert(shorter.push(list.last()) =~= list);
        assert forall|p: int, q: int| 0 <= p < q < shorter.len() implies (
        #[trigger] shorter[p]).named() != (#[trigger] shorter[q]).named() by {
            assert(list[p].named() != list[q].named());
        }
        lemma_distinct_counts_once(shorter, definition);
        if list.last() == definition && shorter.contains(definition) {
            let k = choose|k: int| 0 <= k < shorter.len() && shorter[k] == definition;
            assert(list[k].named() != list[list.len() - 1].named());
        }
        assert(shorter.contains(definition) <==> shorter.to_multiset().count(definition) > 0);
    } else {
        assert(list =~= Seq::<ToolDefinition>::empty());
        assert(!list.contains(definition));
    }
}

/// What the model is told of tools does not depend on the order in which they
/// were registered, as long as no two have the same name.
pub proof fn law_description_does_not_depend_on_registration_order(
    first: Seq<ToolDefinition>,
    second: Seq<ToolDefinition>,
)
    requires
        first.to_multiset() == second.to_multiset(),
        distinct_names(first),
    ensures
        sorted(first) == sorted(second),
{
    lemma_sorted(first);
    lemma_sorted(second);
    lemma_distinct_names_stay(first, sorted(first));
    lemma_distinct_names_stay(first, sorted(second));
    lemma_ordered_lists_agree(sorted(first), sorted(second));
}

/// A bound choice of tools names its session once, and keeps every other
/// variable.
pub proof fn law_session_binding_replaces_one_variable(
    environment: Seq<EnvironmentVariable>,
    name: String,
    value: String,
    other: EnvironmentVariable,
)
    ensures
        with_variable(environment, name, value).contains(EnvironmentVariable { name, value }),
        other.name@ == name@ && with_variable(environment, name, value).contains(other) ==> other
            == (EnvironmentVariable { name, value }),
        other.name@ != name@ ==> (with_variable(environment, name, value).contains(other)
            <==> environment.contains(other)),
{
    broadcast use group_filter_ensures;

    let keep = |variable: EnvironmentVariable| variable.name@ != name@;
    let kept = environment.filter(keep);
    let bound = with_variable(environment, name, value);
    let set = EnvironmentVariable { name, value };
    assert(bound =~= kept.push(set));
    assert(bound[kept.len() as int] == set);
    if bound.contains(other) {
        let k = choose|k: int| 0 <= k < bound.len() && bound[k] == other;
        if k < kept.len() {
            assert(keep(kept[k]));
            assert(kept.contains(other));
            environment.lemma_filter_contains_rev(keep, other);
        }
    }
    if environment.contains(other) && other.name@ != name@ {
        let i = choose|i: int| 0 <= i < environment.len() && environment[i] == other;
        assert(keep(environment[i]));
        assert(kept.contains(environment[i]));
        let k = choose|k: int| 0 <= k < kept.len() && kept[k] == other;
        assert(bound[k] == other);
    }
}

/// Of several tools of a name the last one serves; a name that no tool has is
/// served by none.
pub proof fn law_the_last_tool_of_a_name_serves(tools: Seq<RegisteredTool>, name: Seq<char>)
    ensures
        last_named(tools, name) matches Some(at) ==> {
            &&& at < tools.len()
            &&& tools[at as int].definition.named() == name
            &&& forall|j: int|
                at < j < tools.len() ==> (#[trigger] tools[j]).definition.named() != name
        },
        last_named(tools, name) is None <==> forall|j: int|
            0 <= j < tools.len() ==> (#[trigger] tools[j]).definition.named() != name,
    decreases tools.len(),
{
    if tools.len() > 0 {
        let shorter = tools.drop_last();
        law_the_last_tool_of_a_name_serves(shorter, name);
        assert(tools[tools.len() - 1] == tools.last());
        assert forall|j: int| 0 <= j < shorter.len() implies #[trigger] tools[j]
            == shorter[j] by {}
        if tools.last().definition.named() != name && last_named(shorter, name) is Some {
            let at = last_named(shorter, name)->0;
            assert(tools[at as int].definition.named() == name);
        }
        if last_named(tools, name) is None {
            assert forall|j: int| 0 <= j < tools.len() implies (
            #[trigger] tools[j]).definition.named() != name by {
                if j < shorter.len() {
                    assert(tools[j] == shorter[j]);
                }
            }
        }
    }
}

/// The first provider that has a tool of a name serves it; where none has one,
/// none does.
pub proof fn law_the_first_provider_serves(
    providers: Seq<ProviderSurface>,
    name: Seq<char>,
    from: nat,
)
    ensures
        first_provider(providers, name, from) matches Some(at) ==> {
            &&& from <= at < providers.len()
            &&& last_named(providers[at as int].tools@, name) is Some
            &&& forall|j: int|
                from <= j < at ==> last_named((#[trigger] providers[j]).tools@, name) is None
        },
        first_provider(providers, name, from) is None <==> forall|j: int|
            from <= j < providers.len() ==> last_named((#[trigger] providers[j]).tools@, name)
                is None,
    decreases providers.len() - from,
{
    if from < providers.len() {
        if last_named(providers[from as int].tools@, name) is None {
            law_the_first_provider_serves(providers, name, from + 1);
        }
    }
}

/// A call that no registered tool serves goes to the first provider that has its
/// tool. It fails with what is wrong with its input where that cannot be read,
/// and by its name where nobody serves it.
pub proof fn law_calls_go_to_who_has_the_tool(
    dispatch: Dispatch,
    name: Seq<char>,
    fault: Option<Seq<char>>,
    providers: Seq<ProviderSurface>,
)
    requires
        goes_to_provider(dispatch, name, fault, providers),
    ensures
        !(dispatch is Handler),
        dispatch is Provider <==> fault is None && exists|j: int, k: int|
            0 <= j < providers.len() && 0 <= k < providers[j].tools@.len() && (
            #[trigger] providers[j].tools@[k]).definition.named() == name,
        dispatch matches Dispatch::Provider(at) ==> {
            &&& at < providers.len()
            &&& exists|k: int|
                0 <= k < providers[at as int].tools@.len() && (
                #[trigger] providers[at as int].tools@[k]).definition.named() == name
            &&& forall|j: int, k: int|
                0 <= j < at && 0 <= k < providers[j].tools@.len() ==> (
                #[trigger] providers[j].tools@[k]).definition.named() != name
        },
        fault matches Some(error) ==> (dispatch matches Dispatch::Failed(execution) && fails_with(
            execution,
            "failed to decode "@ + name + " arguments: "@ + error,
        )),
        fault is None && !(dispatch is Provider) ==> (dispatch matches Dispatch::Failed(execution)
            && fails_with(execution, "unsupported tool call: "@ + name)),
{
    law_the_first_provider_serves(providers, name, 0);
    assert forall|j: int| 0 <= j < providers.len() implies (last_named(
        (#[trigger] providers[j]).tools@,
        name,
    ) is None <==> forall|k: int|
        0 <= k < providers[j].tools@.len() ==> (#[trigger] providers[j].tools@[k]).definition.named()
            != name) by {
        law_the_last_tool_of_a_name_serves(providers[j].tools@, name);
    }
    if fault is None && first_provider(providers, name, 0) is Some {
        let at: int = first_provider(providers, name, 0)->0 as int;
        law_the_last_tool_of_a_name_serves(providers[at].tools@, name);
        let k: int = last_named(providers[at].tools@, name)->0 as int;
        assert(providers[at].tools@[k].definition.named() == name);
        assert forall|j: int, k: int|
            0 <= j < at && 0 <= k < providers[j].tools@.len() implies (
        #[trigger] providers[j].tools@[k]).definition.named() != name by {
            assert(last_named(providers[j].tools@, name) is None);
        }
    }
    if fault is None && (exists|j: int, k: int|
        0 <= j < providers.len() && 0 <= k < providers[j].tools@.len() && (
        #[trigger] providers[j].tools@[k]).definition.named() == name) {
        let (j, k) = choose|j: int, k: int|
            0 <= j < providers.len() && 0 <= k < providers[j].tools@.len() && (
            #[trigger] providers[j].tools@[k]).definition.named() == name;
        assert(last_named(providers[j].tools@, name) is Some);
    }
}

/// A failed call shows its message, does not succeed and tells nothing else.
pub proof fn law_failed_calls_show_their_message(execution: ToolExecution, message: Seq<char>)
    requires
        fails_with(execution, message),
    ensures
        !execution.success,
        execution.metadata is None,
        execution.output matches crate::items::ToolOutputBody::Text(text) && text@ == message,
{
}

/// The first fault is a fault, and no tool before it has one.
proof fn lemma_first_fault(selection: SelectionView, from: nat)
    ensures
        first_fault(selection, from) matches Some(at) ==> {
            &&& from <= at < selection.registered.len()
            &&& name_fault(selection, at as int) is Some
            &&& forall|j: int| from <= j < at ==> (#[trigger] name_fault(selection, j)) is None
        },
        first_fault(selection, from) is None <==> forall|j: int|
            from <= j < selection.registered.len() ==> (#[trigger] name_fault(selection, j)) is None,
    decreases selection.registered.len() - from,
{
    if from < selection.registered.len() {
        if name_fault(selection, from as int) is None {
            lemma_first_fault(selection, from + 1);
        }
    }
}

/// A choice of tools can be used exactly when what the model is told is not
/// blank and every tool beside the standard ones has a name of its own: one that
/// is not empty, no other has, and no standard tool that is there has.
pub proof fn law_usable_choices_have_distinct_names(selection: SelectionView)
    ensures
        usable(selection) <==> {
            &&& selection.working_directory is Some ==> !text::blank(
                selection.working_directory->0@,
            )
            &&& selection.default_shell is Some ==> !text::blank(selection.default_shell->0@)
            &&& forall|i: int|
                0 <= i < selection.registered.len() ==> {
                    let name = (#[trigger] selection.registered[i]).definition.named();
                    name.len() > 0 && !is_built_in(selection, name)
                }
            &&& forall|i: int, j: int|
                0 <= i < j < selection.registered.len() ==> (
                #[trigger] selection.registered[i]).definition.named() != (
                #[trigger] selection.registered[j]).definition.named()
        },
{
    lemma_first_fault(selection, 0);
    let tools = selection.registered;
    if first_fault(selection, 0) is None {
        assert forall|i: int| 0 <= i < tools.len() implies {
            let name = (#[trigger] tools[i]).definition.named();
            name.len() > 0 && !is_built_in(selection, name)
        } by {
            assert(name_fault(selection, i) is None);
        }
        assert forall|i: int, j: int| 0 <= i < j < tools.len() implies (
        #[trigger] tools[i]).definition.named() != (#[trigger] tools[j]).definition.named() by {
            assert(name_fault(selection, j) is None);
            assert(!named_before(tools, j, tools[j].definition.named()));
        }
    } else {
        let at: int = first_fault(selection, 0)->0 as int;
        let name = tools[at].definition.named();
        if name.len() > 0 && !is_built_in(selection, name) {
            assert(named_before(tools, at, name));
        }
    }
}

/// The standard tools that are there take their names; those that were left out
/// leave their names free.
pub proof fn law_standard_tools_take_their_names(selection: SelectionView, name: Seq<char>)
    ensures
        is_built_in(selection, name) ==> selection.workspace || selection.web_search
            || selection.image_generation,
        selection.workspace ==> is_built_in(selection, "exec_command"@) && is_built_in(
            selection,
            "write_stdin"@,
        ) && is_built_in(selection, "update_plan"@) && is_built_in(selection, "apply_patch"@)
            && is_built_in(selection, "view_image"@),
        selection.web_search ==> is_built_in(selection, "web__run"@),
        selection.image_generation ==> is_built_in(selection, "image_gen__imagegen"@),
        is_built_in(selection, name) && !selection.workspace ==> name == "web__run"@ || name
            == "image_gen__imagegen"@,
        is_built_in(selection, name) && !selection.web_search && !selection.image_generation
            ==> name == "exec_command"@ || name == "write_stdin"@ || name == "update_plan"@ || name
            == "apply_patch"@ || name == "view_image"@,
        is_built_in(selection, name) && !selection.workspace && !selection.image_generation ==> name
            == "web__run"@,
        is_built_in(selection, name) && !selection.workspace && !selection.web_search ==> name
            == "image_gen__imagegen"@,
{
}

/// An error tells a fault that the choice of tools has: a choice that can be
/// used has none, and a name in the error is that of a faulty tool.
pub proof fn law_errors_tell_a_fault_of_the_choice(
    error: ToolsBuildError,
    selection: SelectionView,
)
    requires
        explains(error, selection),
    ensures
        !usable(selection),
        error is EmptyWorkingDirectory ==> selection.working_directory is Some && text::blank(
            selection.working_directory->0@,
        ),
        error is EmptyDefaultShell ==> selection.default_shell is Some && text::blank(
            selection.default_shell->0@,
        ),
        error is EmptyName ==> exists|i: int|
            0 <= i < selection.registered.len() && (
            #[trigger] selection.registered[i]).definition.named().len() == 0,
        error matches ToolsBuildError::BuiltInName(name) ==> is_built_in(selection, name@) && exists
            |i: int|
            0 <= i < selection.registered.len() && (
            #[trigger] selection.registered[i]).definition.named() == name@,
        error matches ToolsBuildError::DuplicateName(name) ==> exists|i: int, j: int|
            0 <= i < j < selection.registered.len() && (
            #[trigger] selection.registered[i]).definition.named() == name@ && (
            #[trigger] selection.registered[j]).definition.named() == name@,
{
    lemma_first_fault(selection, 0);
    if !given_blank(selection.working_directory) && !given_blank(selection.default_shell) {
        let at: int = first_fault(selection, 0)->0 as int;
        let name = selection.registered[at].definition.named();
        if error is DuplicateName {
            assert(named_before(selection.registered, at, name));
            let j = choose|j: int|
                0 <= j < at && (#[trigger] selection.registered[j]).definition.named() == name;
            assert(selection.registered[j].definition.named() == name);
            assert(selection.registered[at].definition.named() == name);
        }
    }
}

/// Every tool is told to the model either for itself, as the provider's own
/// search is, or as one that running code may call; both in their order.
pub proof fn law_tools_are_native_or_nested(tools: Seq<RegisteredTool>, tool: RegisteredTool)
    ensures
        native_of(tools).len() + nested_of(tools).len() == tools.len(),
        tool.definition is ToolSearch ==> native_of(tools.push(tool)) == native_of(tools).push(
            tool.definition,
        ) && nested_of(tools.push(tool)) == nested_of(tools),
        !(tool.definition is ToolSearch) ==> nested_of(tools.push(tool)) == nested_of(tools).push(
            tool.definition,
        ) && native_of(tools.push(tool)) == native_of(tools),
    decreases tools.len(),
{
    assert(tools.push(tool).drop_last() =~= tools);
    if tools.len() > 0 {
        law_tools_are_native_or_nested(tools.drop_last(), tools.last());
        assert(tools.drop_last().push(tools.last()) =~= tools);
    }
}

/// Running code may call the tools of every provider, one provider's behind the
/// other's.
pub proof fn law_every_provider_is_described(
    providers: Seq<ProviderSurface>,
    provider: ProviderSurface,
)
    ensures
        provided_of(Seq::<ProviderSurface>::empty()).len() == 0,
        provided_of(providers.push(provider)) == provided_of(providers) + nested_of(
            provider.tools@,
        ),
{
    assert(providers.push(provider).drop_last() =~= providers);
}

/// Running code is told of a tool under its name, with what it does and how it
/// takes its input.
pub proof fn law_metadata_states_the_tool(metadata: ToolMetadata, definition: ToolDefinition)
    requires
        describes(metadata, definition),
    ensures
        metadata.tool_name@ == definition.named(),
        metadata.description@ == definition.described(),
        definition is Function <==> metadata.kind@ == "function"@,
        definition is Custom <==> metadata.kind@ == "freeform"@,
        definition is ToolSearch <==> metadata.kind@ == "tool_search"@,
{
    reveal_strlit("function");
    reveal_strlit("freeform");
    reveal_strlit("tool_search");
    assert("function"@[1] != "freeform"@[1]);
    assert("tool_search"@.len() != "function"@.len());
}

/// A choice of tools adds its own behind those that are there, and states
/// directory and shell where it does; everything else stays.
pub proof fn law_choices_add_to_the_runtime(before: RuntimeView, selection: SelectionView)
    ensures
        ({
            let after = runtime_with(before, selection);
            &&& after.tools.len() == before.tools.len() + selection.registered.len()
            &&& forall|i: int|
                0 <= i < before.tools.len() ==> (#[trigger] after.tools[i]) == before.tools[i]
            &&& forall|i: int|
                0 <= i < selection.registered.len() ==> after.tools[before.tools.len() + i] == (
                #[trigger] selection.registered[i])
            &&& selection.working_directory matches Some(directory) ==> after.working_directory
                == directory
            &&& selection.working_directory is None ==> after.working_directory
                == before.working_directory
            &&& selection.default_shell matches Some(shell) ==> after.default_shell_name == shell
            &&& selection.default_shell is None ==> after.default_shell_name
                == before.default_shell_name
            &&& after.current_turn == before.current_turn
        }),
{
}

/// The standard tools are those of the workspace, if they are enabled, then the
/// search, then the image generation, each only where it is there.
pub proof fn law_standard_tools_stand_in_order(
    workspace: Seq<RegisteredTool>,
    search: RegisteredTool,
    images: RegisteredTool,
)
    ensures
        chosen_standard(true, workspace, None, None) == workspace,
        chosen_standard(true, workspace, Some(search), None) == workspace + seq![search],
        chosen_standard(true, workspace, None, Some(images)) == workspace + seq![images],
        chosen_standard(true, workspace, Some(search), Some(images)) == workspace + seq![
            search,
            images,
        ],
        chosen_standard(false, workspace, None, None).len() == 0,
        chosen_standard(false, workspace, Some(search), None) == seq![search],
        chosen_standard(false, workspace, None, Some(images)) == seq![images],
        chosen_standard(false, workspace, Some(search), Some(images)) == seq![search, images],
{
    assert(chosen_standard(true, workspace, Some(search), Some(images)) =~= workspace + seq![
        search,
        images,
    ]);
}

/// Setting several variables sets them one after another: a later value of the
/// same name counts, and setting none changes nothing.
pub proof fn law_later_variables_count(
    environment: Seq<EnvironmentVariable>,
    variables: Seq<EnvironmentVariable>,
    variable: EnvironmentVariable,
    other: EnvironmentVariable,
)
    ensures
        with_variables(environment, Seq::<EnvironmentVariable>::empty()) == environment,
        with_variables(environment, variables.push(variable)).last() == variable,
        other.name@ == variable.name@ && with_variables(
            environment,
            variables.push(variable),
        ).contains(other) ==> other == variable,
        other.name@ != variable.name@ ==> (with_variables(
            environment,
            variables.push(variable),
        ).contains(other) <==> with_variables(environment, variables).contains(other)),
{
    let all = variables.push(variable);
    assert(all.drop_last() =~= variables);
    law_session_binding_replaces_one_variable(
        with_variables(environment, variables),
        variable.name,
        variable.value,
        other,
    );
}

/// A choice starts with every standard tool and nothing else.
pub proof fn law_choices_start_with_the_standard_tools()
    ensures
        usable(ToolSelection::standard()),
        ToolSelection::standard().workspace,
        ToolSelection::standard().web_search,
        ToolSelection::standard().image_generation,
        ToolSelection::standard().working_directory is None,
        ToolSelection::standard().default_shell is None,
        ToolSelection::standard().environment.len() == 0,
        ToolSelection::standard().registered.len() == 0,
        ToolSelection::standard().providers == 0,
{
}

/// A message about a name names the tool.
pub proof fn law_name_faults_name_the_tool(error: ToolsBuildError)
    ensures
        error matches ToolsBuildError::DuplicateName(name) ==> error.text() == "tool name `"@ + name@
            + "` is registered more than once"@,
        error matches ToolsBuildError::BuiltInName(name) ==> error.text() == "tool name `"@ + name@
            + "` conflicts with an enabled built-in tool"@,
{
}

/// Running code is told of every tool once, in their order.
pub proof fn law_every_tool_is_told_once(
    metadata: Seq<ToolMetadata>,
    definitions: Seq<ToolDefinition>,
    at: int,
)
    requires
        describe_all(metadata, definitions),
        0 <= at < definitions.len(),
    ensures
        metadata.len() == definitions.len(),
        metadata[at].tool_name@ == definitions[at].named(),
        metadata[at].description@ == definitions[at].described(),
{
    assert(describes(metadata[at], definitions[at]));
}

/// The schema of a tool keeps what says which values it takes, and no words
/// about them.
pub proof fn law_schemas_keep_their_structure()
    ensures
        keeps_key("properties"@) && keeps_key("required"@) && keeps_key("type"@),
        keeps_key("additionalProperties"@) && keeps_key("$defs"@) && keeps_key("definitions"@),
        keeps_key("enum"@) && keeps_key("const"@),
        keeps_key("anyOf"@) && keeps_key("oneOf"@) && keeps_key("allOf"@),
        forall|key: Seq<char>|
            #[trigger] keeps_key(key) ==> key == "properties"@ || key == "required"@ || key
                == "type"@ || key == "additionalProperties"@ || key == "$defs"@ || key
                == "definitions"@ || key == "enum"@ || key == "const"@ || key == "anyOf"@ || key
                == "oneOf"@ || key == "allOf"@,
{
}

} // verus!
