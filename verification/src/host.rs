//! Agents inside a JavaScript host, which owns all tools.
use crate::code_mode;
use crate::code_mode::CodeModeExecution;
use crate::items::{ContentItem, ToolDefinition, ToolOutputBody};
use crate::prompt::{PromptInput, UserInput};
use crate::text;
use crate::text::{join, trim};
use vstd::prelude::*;
use vstd::string::*;

verus! {

/// What the model is told of running code in the host.
pub const EXEC_DESCRIPTION: &'static str = "Run JavaScript in the embedded host.\n- `tools` contains the application-defined async tools listed below.\n- `text(value)` and `image(value)` append output for the model.\n- `generatedImage(result)` appends an image-generation result for the model.\n- `store(key, value)` and `load(key)` retain serializable values across calls.\n- JavaScript runs inside the Node or browser host supplied by the embedding application.";

/// Grammar of the code that the model writes.
pub const EXEC_GRAMMAR: &'static str = "start: /[\\s\\S]+/";

/// The name under which the model runs code.
pub const EXEC_NAME: &'static str = "exec";

/// The shell that the model is told of.
pub const HOST_SHELL_NAME: &'static str = "javascript";

/// How the model is told of a tool of the host.
pub open spec fn tool_line(definition: ToolDefinition) -> Seq<char> {
    "\n\n- `tools."@ + definition.named() + "`: "@ + text::trimmed(definition.described())
}

/// How the model is told of the tools of the host.
pub open spec fn host_description(definitions: Seq<ToolDefinition>) -> Seq<char>
    decreases definitions.len(),
{
    if definitions.len() == 0 {
        EXEC_DESCRIPTION@
    } else {
        host_description(definitions.drop_last()) + tool_line(definitions.last())
    }
}

/// Makes the one tool that the model is told of: running code that calls the
/// host's tools.
pub fn model_specs(definitions: &Vec<ToolDefinition>) -> (r: Vec<ToolDefinition>)
    ensures
        r@.len() == 1,
        r@[0] matches ToolDefinition::Custom { name, description, format } && name@ == EXEC_NAME@
            && description@ == host_description(definitions@) && format@ == EXEC_GRAMMAR@,
{
    let mut description = EXEC_DESCRIPTION.to_owned();
    let mut i: usize = 0;
    while i < definitions.len()
        invariant
            i <= definitions@.len(),
            description@ == host_description(definitions@.take(i as int)),
        decreases definitions@.len() - i,
    {
        proof {
            assert(definitions@.take(i as int + 1).drop_last() =~= definitions@.take(i as int));
        }
        let ghost before = description@;
        description.append("\n\n- `tools.");
        description.append(definitions[i].name());
        description.append("`: ");
        let about = trim(definitions[i].description());
        description.append(about.as_str());
        proof {
            assert(description@ =~= before + tool_line(definitions@[i as int]));
        }
        i = i + 1;
    }
    proof {
        assert(definitions@.take(definitions@.len() as int) =~= definitions@);
    }
    let mut specs: Vec<ToolDefinition> = Vec::new();
    specs.push(
        ToolDefinition::Custom {
            name: EXEC_NAME.to_owned(),
            description,
            format: EXEC_GRAMMAR.to_owned(),
        },
    );
    specs
}

/// Whether a cell failed with a message.
pub open spec fn failed_with(execution: CodeModeExecution, message: Seq<char>) -> bool {
    &&& execution.output matches ToolOutputBody::Text(text) && text@ == "Script failed\nOutput:\n"@
        + message
    &&& !execution.success
    &&& execution.nested_calls@.len() == 0
    &&& execution.notifications@.len() == 0
    &&& execution.terminal_selection is Unselected
}

/// What a cell left that failed with a message.
pub fn failed(message: &str) -> (r: CodeModeExecution)
    ensures
        failed_with(r, message@),
{
    CodeModeExecution::new(
        ToolOutputBody::Text(join("Script failed\nOutput:\n", message)),
        false,
        Vec::new(),
        Vec::new(),
    )
}

/// What came of a cell that the host was asked to run.
pub enum HostOutcome {
    /// The host refused it or failed.
    Rejected(String),
    /// The host returned no text.
    NotText,
    /// The host returned text that states no result.
    Unreadable(String),
    /// The host returned a result.
    Done(CodeModeExecution),
}

/// Turns what came of a cell into what it left.
pub fn execute_code(outcome: HostOutcome) -> (r: CodeModeExecution)
    ensures
        match outcome {
            HostOutcome::Rejected(error) => failed_with(r, error@),
            HostOutcome::NotText => failed_with(
                r,
                "JavaScript code-mode host returned a non-string result"@,
            ),
            HostOutcome::Unreadable(error) => failed_with(
                r,
                "JavaScript code-mode host returned invalid JSON: "@ + error@,
            ),
            HostOutcome::Done(execution) => r == execution,
        },
{
    match outcome {
        HostOutcome::Rejected(error) => failed(error.as_str()),
        HostOutcome::NotText => failed("JavaScript code-mode host returned a non-string result"),
        HostOutcome::Unreadable(error) => {
            let message = join(
                "JavaScript code-mode host returned invalid JSON: ",
                error.as_str(),
            );
            failed(message.as_str())
        },
        HostOutcome::Done(execution) => execution,
    }
}

/// What a wait for a cell leaves: the host keeps no cells that go on.
pub fn wait_for_code() -> (r: CodeModeExecution)
    ensures
        failed_with(r, "background code-mode cells are unavailable in the WASM runtime"@),
{
    failed("background code-mode cells are unavailable in the WASM runtime")
}

/// Something that happened to a tool call of a cell.
#[derive(Clone, Copy, Debug, PartialEq, Eq, Structural)]
pub enum CodeModeUpdate {
    /// It was made.
    NestedCallStarted {
        /// Its place among the calls of the cell.
        at: usize,
    },
    /// It ended.
    NestedCallCompleted {
        /// Its place among the calls of the cell.
        at: usize,
    },
}

/// What happened to the tool calls of a cell that has ended: each one was made
/// and ended before the next one.
pub open spec fn replayed(count: nat) -> Seq<CodeModeUpdate>
    decreases count,
{
    if count == 0 {
        Seq::empty()
    } else {
        let at = (count - 1) as usize;
        replayed((count - 1) as nat).push(CodeModeUpdate::NestedCallStarted { at }).push(
            CodeModeUpdate::NestedCallCompleted { at },
        )
    }
}

/// Returns what happened to the tool calls of a cell that has ended.
pub fn replay_nested_updates(execution: &CodeModeExecution) -> (r: Vec<CodeModeUpdate>)
    ensures
        r@ == replayed(execution.nested_calls@.len()),
{
    let mut updates: Vec<CodeModeUpdate> = Vec::new();
    let mut i: usize = 0;
    while i < execution.nested_calls.len()
        invariant
            i <= execution.nested_calls@.len(),
            updates@ == replayed(i as nat),
        decreases execution.nested_calls@.len() - i,
    {
        updates.push(CodeModeUpdate::NestedCallStarted { at: i });
        updates.push(CodeModeUpdate::NestedCallCompleted { at: i });
        i = i + 1;
    }
    updates
}

/// Whether a part of a message is what the model is shown of an input. What
/// lies in files is not there for the host.
pub open spec fn shows(part: ContentItem, input: UserInput) -> bool {
    match input {
        UserInput::Text { text } => part matches ContentItem::InputText { text: own } && own
            == text,
        UserInput::Image { image_url, detail } => part == (ContentItem::InputImage {
            image_url,
            detail,
        }),
        UserInput::Audio { audio_url } => part == (ContentItem::InputAudio { audio_url }),
        UserInput::LocalImage { path, .. } => part matches ContentItem::InputText { text } && text@
            == "Local image paths are unavailable in browser WASM: "@ + path@,
        UserInput::LocalAudio { path } => part matches ContentItem::InputText { text } && text@
            == "Local audio paths are unavailable in browser WASM: "@ + path@,
    }
}

/// Shows the model one input.
fn prepare_item(input: &UserInput) -> (r: ContentItem)
    ensures
        shows(r, *input),
{
    match input {
        UserInput::Text { text } => ContentItem::InputText { text: text.clone() },
        UserInput::Image { image_url, detail } => ContentItem::InputImage {
            image_url: image_url.clone(),
            detail: *detail,
        },
        UserInput::Audio { audio_url } => ContentItem::InputAudio { audio_url: audio_url.clone() },
        UserInput::LocalImage { path, .. } => ContentItem::InputText {
            text: join(
                "Local image paths are unavailable in browser WASM: ",
                path.as_str(),
            ),
        },
        UserInput::LocalAudio { path } => ContentItem::InputText {
            text: join(
                "Local audio paths are unavailable in browser WASM: ",
                path.as_str(),
            ),
        },
    }
}

/// Turns a prompt into the content of a message.
pub fn prepare_user_input(input: &PromptInput) -> (r: Vec<ContentItem>)
    ensures
        match *input {
            PromptInput::Text(text) => r@.len() == 1 && r@[0] == (ContentItem::InputText { text }),
            PromptInput::Content(items) => r@.len() == items@.len() && forall|i: int|
                0 <= i < items@.len() ==> shows(#[trigger] r@[i], items@[i]),
        },
{
    let mut parts: Vec<ContentItem> = Vec::new();
    match input {
        PromptInput::Text(text) => {
            parts.push(ContentItem::InputText { text: text.clone() });
        },
        PromptInput::Content(items) => {
            let mut i: usize = 0;
            while i < items.len()
                invariant
                    i <= items@.len(),
                    parts@.len() == i,
                    forall|j: int| 0 <= j < i ==> shows(#[trigger] parts@[j], items@[j]),
                decreases items@.len() - i,
            {
                parts.push(prepare_item(&items[i]));
                i = i + 1;
            }
        },
    }
    parts
}

/// The model is told of every tool of the host, in order, behind what it is told
/// anyway: one more tool adds a line of its own with its name and what it does.
pub proof fn law_every_host_tool_is_described(
    definitions: Seq<ToolDefinition>,
    definition: ToolDefinition,
)
    ensures
        host_description(Seq::<ToolDefinition>::empty()) == EXEC_DESCRIPTION@,
        host_description(definitions.push(definition)) == host_description(definitions)
            + "\n\n- `tools."@ + definition.named() + "`: "@ + text::trimmed(
            definition.described(),
        ),
{
    assert(definitions.push(definition).drop_last() =~= definitions);
    assert(host_description(definitions.push(definition)) =~= host_description(definitions)
        + "\n\n- `tools."@ + definition.named() + "`: "@ + text::trimmed(definition.described()));
}

/// A failed cell shows its message, does not succeed and leaves nothing else.
pub proof fn law_failed_cells_leave_their_message(execution: CodeModeExecution, message: Seq<char>)
    requires
        failed_with(execution, message),
    ensures
        !execution.success,
        execution.output matches ToolOutputBody::Text(text) && text@ == "Script failed\nOutput:\n"@
            + message,
        execution.nested_calls@.len() == 0,
        execution.notifications@.len() == 0,
        execution.terminal_selection is Unselected,
{
}

/// The calls of an ended cell are told in their order, each one's start right
/// before its end.
pub proof fn law_calls_are_told_in_order(count: nat, at: int)
    requires
        0 <= at < count,
        count <= usize::MAX,
    ensures
        replayed(count).len() == 2 * count,
        replayed(count)[2 * at] == (CodeModeUpdate::NestedCallStarted { at: at as usize }),
        replayed(count)[2 * at + 1] == (CodeModeUpdate::NestedCallCompleted { at: at as usize }),
    decreases count,
{
    if at < count - 1 {
        law_calls_are_told_in_order((count - 1) as nat, at);
    } else if count > 1 {
        law_calls_are_told_in_order((count - 1) as nat, 0);
    } else {
        assert(replayed(0) =~= Seq::<CodeModeUpdate>::empty());
    }
}

/// What lies at an address is shown as it is; what lies in a file is not there
/// for the host, which says so and names the file.
pub proof fn law_host_inputs_are_shown_or_named(part: ContentItem, input: UserInput)
    requires
        shows(part, input),
    ensures
        input matches UserInput::Text { text } ==> part == (ContentItem::InputText { text }),
        input matches UserInput::Image { image_url, detail } ==> part
            == (ContentItem::InputImage { image_url, detail }),
        input matches UserInput::Audio { audio_url } ==> part == (ContentItem::InputAudio {
            audio_url,
        }),
        input matches UserInput::LocalImage { path, .. } ==> (part matches ContentItem::InputText {
            text,
        } && text@ == "Local image paths are unavailable in browser WASM: "@ + path@),
        input matches UserInput::LocalAudio { path } ==> (part matches ContentItem::InputText {
            text,
        } && text@ == "Local audio paths are unavailable in browser WASM: "@ + path@),
{
}

} // verus!
