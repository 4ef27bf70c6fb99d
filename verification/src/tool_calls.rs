//! Tool calls of the model: what each one asks for and what it is answered.
use crate::code_mode;
use crate::code_mode::{
    CodeModeNotification, ReceiptLimits, TerminalToolReceipt, TerminalToolSelection,
    ToolTurnBehavior,
};
use crate::emitted_output;
use crate::emitted_output::append_bounded_output;
use crate::error::NanocodexError;
use crate::items::{clone_text, ResponseItem, ToolOutputBody, ToolOutputContent, TOOL_SEARCH_NAME};
use crate::json;
use crate::json::raw_json;
use crate::text::{chars_of, join, join3, same_text};
use std::sync::Arc;
use vstd::prelude::*;
use vstd::string::*;

verus! {

/// How the model called a tool.
#[derive(Clone, Copy, Debug, PartialEq, Eq, Structural)]
pub enum CodeCallKind {
    /// With free text.
    Custom,
    /// With a JSON object.
    Function,
    /// As a search for tools.
    ToolSearch,
}

/// One tool call of the model.
#[derive(Debug)]
pub struct CodeCall {
    /// Identity of the call.
    pub call_id: String,
    /// Tool.
    pub name: String,
    /// Namespace of the tool.
    pub namespace: Option<String>,
    /// Input text.
    pub input: String,
    /// How the tool was called.
    pub kind: CodeCallKind,
}

impl Clone for CodeCall {
    fn clone(&self) -> (r: Self)
        ensures
            r == *self,
    {
        CodeCall {
            call_id: self.call_id.clone(),
            name: self.name.clone(),
            namespace: match &self.namespace {
                Some(namespace) => Some(namespace.clone()),
                None => None,
            },
            input: self.input.clone(),
            kind: self.kind,
        }
    }
}

/// How a runtime knows the tool that a call names.
#[derive(Clone, Copy, Debug, PartialEq, Eq, Structural)]
pub struct ToolStanding {
    /// Whether a tool of the qualified name is registered.
    pub registered: bool,
    /// Whether the tool is offered for direct calls outside running code.
    pub offered_directly: bool,
}

impl CodeCall {
    /// The tool's name behind its namespace.
    pub open spec fn qualified(self) -> Seq<char> {
        match self.namespace {
            Some(namespace) => namespace@ + self.name@,
            None => self.name@,
        }
    }

    /// Whether the call runs code, or waits for running code.
    pub open spec fn runs_code(self) -> bool {
        self.namespace is None && (self.name@ == "exec"@ || self.name@ == "wait"@)
    }

    /// Whether a runtime serves the call itself: tools of a namespace when they
    /// are registered, and others when they are offered for direct calls.
    pub open spec fn served(self, tool: ToolStanding) -> bool {
        self.kind == CodeCallKind::Function && if self.namespace is Some {
            tool.registered
        } else {
            tool.offered_directly
        }
    }

    /// Why a call cannot be served, by how the tool of the qualified name
    /// stands.
    pub open spec fn unsupported(self, tool: ToolStanding) -> Option<Seq<char>> {
        if self.runs_code() || self.served(tool) {
            None
        } else {
            match self.kind {
                CodeCallKind::Custom => Some(
                    "unsupported custom tool call: "@ + self.qualified(),
                ),
                CodeCallKind::Function => Some("unsupported call: "@ + self.qualified()),
                CodeCallKind::ToolSearch => None,
            }
        }
    }

    /// Whether an interrupted call is answered in the way of shell tools.
    pub open spec fn aborts_like_shell(self) -> bool {
        self.namespace is None && (self.name@ == "shell_command"@ || self.name@ == "unified_exec"@)
    }
}

/// Returns the tool's name behind its namespace.
pub fn qualified_tool_name(call: &CodeCall) -> (r: String)
    ensures
        r@ == call.qualified(),
{
    match &call.namespace {
        Some(namespace) => join(namespace.as_str(), call.name.as_str()),
        None => call.name.clone(),
    }
}

/// Returns whether a call runs code, or waits for running code.
fn runs_code(call: &CodeCall) -> (r: bool)
    ensures
        r == call.runs_code(),
{
    call.namespace.is_none() && (same_text(call.name.as_str(), "exec") || same_text(
        call.name.as_str(),
        "wait",
    ))
}

/// Returns why a call cannot be served.
pub fn unsupported_tool_message(call: &CodeCall, tool: ToolStanding) -> (r: Option<String>)
    ensures
        match r {
            Some(message) => call.unsupported(tool) == Some(message@),
            None => call.unsupported(tool) is None,
        },
{
    if runs_code(call) {
        return None;
    }
    let offered = if call.namespace.is_some() {
        tool.registered
    } else {
        tool.offered_directly
    };
    if call.kind == CodeCallKind::Function && offered {
        return None;
    }
    let qualified_name = qualified_tool_name(call);
    match call.kind {
        CodeCallKind::Custom => Some(
            join("unsupported custom tool call: ", qualified_name.as_str()),
        ),
        CodeCallKind::Function => Some(join("unsupported call: ", qualified_name.as_str())),
        CodeCallKind::ToolSearch => None,
    }
}

/// Whether an interrupted call is answered in the way of shell tools.
pub fn shell_abort_format(call: &CodeCall) -> (r: bool)
    ensures
        r == call.aborts_like_shell(),
{
    call.namespace.is_none() && (same_text(call.name.as_str(), "shell_command") || same_text(
        call.name.as_str(),
        "unified_exec",
    ))
}

/// Arguments of a call as an event shows them.
#[derive(Debug)]
pub enum ToolCallArguments {
    /// As text.
    Text(String),
    /// As the JSON value they are.
    Raw(String),
}

/// How an event shows the arguments of a call: code as text, other input as
/// the JSON value that was read from it, or as text where none could be.
pub open spec fn shows_read(
    call: CodeCall,
    read: Result<Seq<char>, Seq<char>>,
    shown: ToolCallArguments,
) -> bool {
    match shown {
        ToolCallArguments::Text(text) => text == call.input && (call.name@ == "exec"@ || read
            is Err),
        ToolCallArguments::Raw(raw) => call.name@ != "exec"@ && read == Ok::<
            Seq<char>,
            Seq<char>,
        >(raw@),
    }
}

/// How an event shows the arguments of a call.
pub open spec fn shows_arguments(call: CodeCall, shown: ToolCallArguments) -> bool {
    shows_read(call, json::raw_json_of(call.input@), shown)
}

/// Returns the arguments of a call as an event shows them, once it was tried to
/// read them as a JSON value.
pub fn read_arguments(call: &CodeCall, read: Result<String, String>) -> (r: ToolCallArguments)
    ensures
        shows_read(*call, json::read_of(read), r),
{
    if same_text(call.name.as_str(), "exec") {
        return ToolCallArguments::Text(call.input.clone());
    }
    match read {
        Ok(raw) => ToolCallArguments::Raw(raw),
        Err(_) => ToolCallArguments::Text(call.input.clone()),
    }
}

/// Returns the arguments of a call as an event shows them.
pub fn event_arguments(call: &CodeCall) -> (r: ToolCallArguments)
    ensures
        shows_arguments(*call, r),
{
    read_arguments(call, raw_json(call.input.as_str()))
}

/// How a tool call ended.
#[derive(Clone, Copy, Debug, PartialEq, Eq, Structural)]
pub enum ToolStatus {
    /// The tool succeeded.
    Completed,
    /// The tool failed.
    Failed,
    /// The call was interrupted.
    Cancelled,
}

impl ToolStatus {
    /// How a finished call ended.
    pub open spec fn of(success: bool) -> ToolStatus {
        if success {
            ToolStatus::Completed
        } else {
            ToolStatus::Failed
        }
    }

    /// Returns how a finished call ended.
    pub fn of_success(success: bool) -> (r: ToolStatus)
        ensures
            r == ToolStatus::of(success),
    {
        if success {
            ToolStatus::Completed
        } else {
            ToolStatus::Failed
        }
    }

    /// Returns the name that events carry.
    pub fn status(self) -> (r: &'static str)
        ensures
            r@ == match self {
                ToolStatus::Completed => "completed"@,
                ToolStatus::Failed => "failed"@,
                ToolStatus::Cancelled => "cancelled"@,
            },
    {
        match self {
            ToolStatus::Completed => "completed",
            ToolStatus::Failed => "failed",
            ToolStatus::Cancelled => "cancelled",
        }
    }

    /// Returns the name that traces carry.
    pub fn otel_status(self) -> (r: &'static str)
        ensures
            r@ == match self {
                ToolStatus::Completed => "OK"@,
                _ => "ERROR"@,
            },
    {
        match self {
            ToolStatus::Completed => "OK",
            _ => "ERROR",
        }
    }
}

/// Whether an item answers a call with an output, or a search with what it
/// found.
pub open spec fn answers(
    item: ResponseItem,
    kind: CodeCallKind,
    call_id: String,
    output: ToolOutputBody,
    found: Seq<String>,
) -> bool {
    match item {
        ResponseItem::CustomToolCallOutput { id, call_id: own, name, output: body } => id is None
            && name is None && own == call_id && body == output && kind == CodeCallKind::Custom,
        ResponseItem::FunctionCallOutput { id, call_id: own, output: body } => id is None && own
            == call_id && body == output && kind == CodeCallKind::Function,
        ResponseItem::ToolSearchOutput { id, call_id: own, tools } => id is None && own == call_id
            && tools@ == found && kind == CodeCallKind::ToolSearch,
        _ => false,
    }
}

/// Makes the item that answers a call with an output. A search is answered
/// with the tools that it found.
pub fn answer(
    kind: CodeCallKind,
    call_id: String,
    output: ToolOutputBody,
    found: Vec<String>,
) -> (r: Arc<ResponseItem>)
    ensures
        answers(*r, kind, call_id, output, found@),
{
    match kind {
        CodeCallKind::Custom => Arc::new(
            ResponseItem::CustomToolCallOutput { id: None, call_id, name: None, output },
        ),
        CodeCallKind::Function => Arc::new(
            ResponseItem::FunctionCallOutput { id: None, call_id, output },
        ),
        CodeCallKind::ToolSearch => Arc::new(
            ResponseItem::ToolSearchOutput { id: None, call_id, tools: Arc::new(found) },
        ),
    }
}

/// A finished tool call.
pub struct CompletedToolCall {
    /// Identity of the call.
    pub call_id: String,
    /// Qualified name of the tool.
    pub tool: String,
    /// Whether the tool succeeded.
    pub success: bool,
    /// Time since the call was prepared.
    pub duration_ns: u64,
    /// Time since the tool was started.
    pub work_duration_ns: u64,
    /// The tool's output.
    pub output: ToolOutputBody,
    /// JSON metadata for the host.
    pub metadata: Option<String>,
    /// Items that answer the call.
    pub response_items: Vec<Arc<ResponseItem>>,
    /// Whether the call ends the turn.
    pub terminal: TerminalToolSelection,
}

/// Outcome of a tool that was called directly.
pub struct ToolExecution {
    /// Whether the tool succeeded.
    pub success: bool,
    /// The tool's output.
    pub output: ToolOutputBody,
    /// JSON metadata for the host.
    pub metadata: Option<String>,
}

impl ToolExecution {
    /// A failure with a message for the model.
    pub fn error(message: String) -> (r: Self)
        ensures
            !r.success,
            r.output == ToolOutputBody::Text(message),
            r.metadata is None,
    {
        ToolExecution { success: false, output: ToolOutputBody::Text(message), metadata: None }
    }
}

/// What to do about a tool call.
pub enum ToolPlan {
    /// Answer at once: the call cannot be served.
    Answer(CompletedToolCall),
    /// Run a registered tool on a JSON value.
    Direct {
        /// The tool.
        tool: String,
        /// The JSON value.
        input: String,
        /// The conversation that the tool may read: a search is shown the copy
        /// of the history, other tools nothing.
        history: Option<Arc<Vec<Arc<ResponseItem>>>>,
    },
    /// Answer a direct call with a failure: its input is no JSON value.
    Unreadable(ToolExecution),
    /// Run code that owns a copy of the history.
    Code(Arc<Vec<Arc<ResponseItem>>>),
    /// Wait for code that runs.
    Wait,
    /// Give up the turn.
    Fail(NanocodexError),
}

/// The name under which a directly called tool is looked up.
pub open spec fn direct_tool(call: CodeCall) -> Seq<char> {
    if call.kind == CodeCallKind::ToolSearch {
        TOOL_SEARCH_NAME@
    } else {
        call.qualified()
    }
}

/// Whether a call goes to a registered tool itself, and not to running code.
pub open spec fn goes_direct(call: CodeCall) -> bool {
    call.kind == CodeCallKind::ToolSearch || (call.kind == CodeCallKind::Function
        && !call.runs_code())
}

/// Whether a plan is the one for a call that goes to a registered tool, once it
/// was tried to read its input as a JSON value.
pub open spec fn planned_direct(
    plan: ToolPlan,
    call: CodeCall,
    read: Result<Seq<char>, Seq<char>>,
    history: Option<Arc<Vec<Arc<ResponseItem>>>>,
) -> bool {
    match read {
        Ok(raw) => plan matches ToolPlan::Direct { tool, input, history: shown } && tool@
            == direct_tool(call) && input@ == raw && shown == if call.kind
            == CodeCallKind::ToolSearch {
            history
        } else {
            None
        },
        Err(error) => plan matches ToolPlan::Unreadable(execution) && !execution.success
            && execution.metadata is None && (execution.output matches ToolOutputBody::Text(text)
            && text@ == "failed to encode "@ + direct_tool(call) + " arguments: "@ + error),
    }
}

/// Whether a plan is the one for a call.
pub open spec fn planned(
    plan: ToolPlan,
    call: CodeCall,
    tool: ToolStanding,
    history: Option<Arc<Vec<Arc<ResponseItem>>>>,
) -> bool {
    match call.unsupported(tool) {
        Some(message) => plan matches ToolPlan::Answer(completed) && rejects(
            completed,
            call,
            message,
        ),
        None => if goes_direct(call) {
            planned_direct(plan, call, json::raw_json_of(call.input@), history)
        } else if call.name@ == "exec"@ {
            match history {
                Some(history) => plan == ToolPlan::Code(history),
                None => plan matches ToolPlan::Fail(
                    NanocodexError::MalformedResponse { detail },
                ) && detail@ == "exec call did not have an owned history snapshot"@,
            }
        } else {
            plan == ToolPlan::Wait
        },
    }
}

/// Whether a finished call is the refusal of a call.
pub open spec fn rejects(completed: CompletedToolCall, call: CodeCall, message: Seq<char>) -> bool {
    &&& completed.call_id == call.call_id
    &&& completed.tool@ == call.qualified()
    &&& !completed.success
    &&& completed.duration_ns == 0
    &&& completed.work_duration_ns == 0
    &&& (completed.output matches ToolOutputBody::Text(text) && text@ == message)
    &&& completed.metadata is None
    &&& completed.terminal is Unselected
    &&& completed.response_items@.len() == 1
    &&& answers(*completed.response_items@[0], call.kind, call.call_id, completed.output, Seq::empty())
}

/// Decides what to do about a call that goes to a registered tool, once it was
/// tried to read its input as a JSON value.
pub fn plan_direct_call(
    call: &CodeCall,
    read: Result<String, String>,
    history: Option<Arc<Vec<Arc<ResponseItem>>>>,
) -> (r: ToolPlan)
    ensures
        planned_direct(r, *call, json::read_of(read), history),
{
    let shown = if call.kind == CodeCallKind::ToolSearch {
        history
    } else {
        None
    };
    let tool = if call.kind == CodeCallKind::ToolSearch {
        TOOL_SEARCH_NAME.to_owned()
    } else {
        qualified_tool_name(call)
    };
    match read {
        Ok(input) => ToolPlan::Direct { tool, input, history: shown },
        Err(error) => {
            let start = join("failed to encode ", tool.as_str());
            ToolPlan::Unreadable(
                ToolExecution::error(join3(start.as_str(), " arguments: ", error.as_str())),
            )
        },
    }
}

/// Decides what to do about a tool call. `tool` says how the runtime knows the
/// tool of the qualified name; `history` is the copy of the history that code
/// may own.
pub fn plan_tool_call(
    call: &CodeCall,
    tool: ToolStanding,
    history: Option<Arc<Vec<Arc<ResponseItem>>>>,
) -> (r: ToolPlan)
    ensures
        planned(r, *call, tool, history),
{
    if let Some(message) = unsupported_tool_message(call, tool) {
        let output = ToolOutputBody::Text(message);
        let mut response_items: Vec<Arc<ResponseItem>> = Vec::new();
        response_items.push(answer(call.kind, call.call_id.clone(), output.clone(), Vec::new()));
        return ToolPlan::Answer(
            CompletedToolCall {
                call_id: call.call_id.clone(),
                tool: qualified_tool_name(call),
                success: false,
                duration_ns: 0,
                work_duration_ns: 0,
                output,
                metadata: None,
                response_items,
                terminal: TerminalToolSelection::Unselected,
            },
        );
    }
    if call.kind == CodeCallKind::ToolSearch || (call.kind == CodeCallKind::Function
        && !runs_code(call)) {
        return plan_direct_call(call, raw_json(call.input.as_str()), history);
    }
    if !same_text(call.name.as_str(), "exec") {
        return ToolPlan::Wait;
    }
    match history {
        Some(history) => ToolPlan::Code(history),
        None => ToolPlan::Fail(
            NanocodexError::MalformedResponse {
                detail: "exec call did not have an owned history snapshot",
            },
        ),
    }
}

/// Whether a selection is that of one call by what its tool's success means for
/// the turn.
pub open spec fn selects_direct(
    selection: TerminalToolSelection,
    call: CodeCall,
    execution: ToolExecution,
    turn_behavior: ToolTurnBehavior,
    limits: ReceiptLimits,
) -> bool {
    if execution.success && turn_behavior == ToolTurnBehavior::FinishTurnOnSuccess {
        match code_mode::receipt_fault(execution.output, execution.metadata, limits) {
            Some(error) => selection == TerminalToolSelection::Invalid(error),
            None => selection matches TerminalToolSelection::Selected(receipt) && receipt@.call_id
                == call.call_id && receipt@.tool@ == call.qualified() && receipt@.output
                == execution.output && receipt@.metadata == execution.metadata,
        }
    } else {
        selection is Unselected
    }
}

/// Finishes a call that went to a registered tool. `found` holds what the
/// tool's value lists, if the value is a list; a successful search is answered
/// with it, and a failed one with nothing. The success of a terminal tool ends
/// the turn.
pub fn complete_direct_call(
    call: &CodeCall,
    execution: ToolExecution,
    found: Option<Vec<String>>,
    duration_ns: u64,
    turn_behavior: ToolTurnBehavior,
    limits: ReceiptLimits,
) -> (r: CompletedToolCall)
    requires
        goes_direct(*call),
    ensures
        r.call_id == call.call_id,
        r.tool@ == call.qualified(),
        r.success == execution.success,
        r.duration_ns == duration_ns,
        r.work_duration_ns == 0,
        r.output == execution.output,
        r.metadata == execution.metadata,
        r.response_items@.len() == 1,
        answers(
            *r.response_items@[0],
            call.kind,
            call.call_id,
            execution.output,
            match found {
                Some(found) if execution.success => found@,
                _ => Seq::empty(),
            },
        ),
        selects_direct(r.terminal, *call, execution, turn_behavior, limits),
{
    let terminal = if execution.success && turn_behavior == ToolTurnBehavior::FinishTurnOnSuccess {
        match TerminalToolReceipt::new(
            call.call_id.clone(),
            qualified_tool_name(call),
            execution.output.clone(),
            clone_text(&execution.metadata),
            limits,
        ) {
            Ok(receipt) => TerminalToolSelection::Selected(receipt),
            Err(error) => TerminalToolSelection::Invalid(error),
        }
    } else {
        TerminalToolSelection::Unselected
    };
    let listed = match found {
        Some(found) => {
            if execution.success {
                found
            } else {
                Vec::new()
            }
        },
        None => Vec::new(),
    };
    let mut response_items: Vec<Arc<ResponseItem>> = Vec::new();
    response_items.push(
        answer(call.kind, call.call_id.clone(), execution.output.clone(), listed),
    );
    CompletedToolCall {
        call_id: call.call_id.clone(),
        tool: qualified_tool_name(call),
        success: execution.success,
        duration_ns,
        work_duration_ns: 0,
        output: execution.output,
        metadata: execution.metadata,
        response_items,
        terminal,
    }
}

/// Whether an item hands a notification to the model, in the name of the tool
/// that runs code.
pub open spec fn notifies(item: ResponseItem, notification: CodeModeNotification) -> bool {
    item matches ResponseItem::CustomToolCallOutput { id, call_id, name, output } && id is None
        && call_id == notification.call_id && (name matches Some(tool) && tool@ == "exec"@) && output
        == ToolOutputBody::Text(notification.text)
}

/// What a cell that ended the turn shows of the tool call that did: the call,
/// and what it gave.
pub open spec fn receipt_text(receipt: code_mode::ReceiptView) -> Seq<char> {
    "["@ + receipt.call_id@ + "] "@ + emitted_output::bounded(
        emitted_output::body_text(receipt.output),
    )
}

/// Writes down what a cell shows of the tool call that ended the turn.
fn write_receipt(receipt: &TerminalToolReceipt) -> (r: String)
    ensures
        r@ == receipt_text(receipt@),
{
    let given = emitted_output::bounded_text(receipt.output());
    let start = join3("[", receipt.call_id(), "] ");
    join(start.as_str(), given.as_str())
}

/// The output that answers a call that ran code: where a tool call in it ended
/// the turn, it is shown behind what the cell put out.
pub open spec fn shows_receipt(
    answered: ToolOutputBody,
    output: ToolOutputBody,
    terminal: TerminalToolSelection,
) -> bool {
    match terminal {
        TerminalToolSelection::Selected(receipt) => answered matches ToolOutputBody::Content(parts)
            && parts@.len() == emitted_output::as_parts(output).len() + 1 && parts@.drop_last()
            == emitted_output::as_parts(output) && (parts@.last() matches
            ToolOutputContent::InputText { text } && text@ == receipt_text(receipt@)),
        _ => answered == output,
    }
}

/// Finishes a call that ran code, or waited for it. The notifications follow
/// the answer in the order in which they were sent.
pub fn complete_code_call(
    call: &CodeCall,
    success: bool,
    output: ToolOutputBody,
    notifications: Vec<CodeModeNotification>,
    duration_ns: u64,
    terminal: TerminalToolSelection,
) -> (r: CompletedToolCall)
    requires
        call.kind != CodeCallKind::ToolSearch,
        notifications@.len() < usize::MAX,
        emitted_output::as_parts(output).len() < usize::MAX,
    ensures
        r.call_id == call.call_id,
        r.tool@ == call.qualified(),
        r.success == success,
        r.duration_ns == duration_ns,
        r.work_duration_ns == 0,
        shows_receipt(r.output, output, terminal),
        r.metadata is None,
        r.terminal == terminal,
        r.response_items@.len() == notifications@.len() + 1,
        answers(*r.response_items@[0], call.kind, call.call_id, r.output, Seq::empty()),
        forall|i: int|
            0 <= i < notifications@.len() ==> notifies(
                *(#[trigger] r.response_items@[i + 1]),
                notifications@[i],
            ),
{
    let mut shown = output;
    if let TerminalToolSelection::Selected(receipt) = &terminal {
        append_bounded_output(&mut shown, ToolOutputBody::Text(write_receipt(receipt)));
        proof {
            let parts = shown->Content_0@;
            assert(parts.drop_last() =~= emitted_output::as_parts(output));
        }
    }
    let mut response_items: Vec<Arc<ResponseItem>> = Vec::new();
    response_items.push(answer(call.kind, call.call_id.clone(), shown.clone(), Vec::new()));
    let mut i: usize = 0;
    while i < notifications.len()
        invariant
            i <= notifications@.len(),
            response_items@.len() == i + 1,
            answers(*response_items@[0], call.kind, call.call_id, shown, Seq::empty()),
            forall|j: int|
                1 <= j <= i ==> notifies(
                    *(#[trigger] response_items@[j]),
                    notifications@[j - 1],
                ),
        decreases notifications@.len() - i,
    {
        response_items.push(
            Arc::new(
                ResponseItem::CustomToolCallOutput {
                    id: None,
                    call_id: notifications[i].call_id.clone(),
                    name: Some("exec".to_owned()),
                    output: ToolOutputBody::Text(notifications[i].text.clone()),
                },
            ),
        );
        i = i + 1;
    }
    CompletedToolCall {
        call_id: call.call_id.clone(),
        tool: qualified_tool_name(call),
        success,
        duration_ns,
        work_duration_ns: 0,
        output: shown,
        metadata: None,
        response_items,
        terminal,
    }
}

/// Which other calls a call may run beside.
#[derive(Clone, Copy, Debug, PartialEq, Eq, Structural)]
pub enum ToolGate {
    /// Beside others that may run in parallel.
    Shared,
    /// Alone.
    Exclusive,
}

impl ToolGate {
    /// Returns how a call is admitted.
    pub fn for_call(supports_parallel: bool) -> (r: ToolGate)
        ensures
            r == if supports_parallel {
                ToolGate::Shared
            } else {
                ToolGate::Exclusive
            },
    {
        if supports_parallel {
            ToolGate::Shared
        } else {
            ToolGate::Exclusive
        }
    }
}

/// Whether "/code-" stands at a place of a text.
pub open spec fn code_mark_at(text: Seq<char>, at: int) -> bool {
    0 <= at && at + 6 <= text.len() && text.subrange(at, at + 6) == "/code-"@
}

/// The last place before `end` at which "/code-" stands.
pub open spec fn last_code_mark(text: Seq<char>, end: nat) -> Option<nat>
    decreases end,
{
    if end == 0 {
        None
    } else if code_mark_at(text, end - 1) {
        Some((end - 1) as nat)
    } else {
        last_code_mark(text, (end - 1) as nat)
    }
}

/// The call that a nested call's identity names as its parent: what stands
/// before the last "/code-".
pub open spec fn embedded_parent(nested: Seq<char>) -> Option<Seq<char>> {
    match last_code_mark(nested, nested.len()) {
        Some(at) => Some(nested.take(at as int)),
        None => None,
    }
}

/// Returns the call that a nested call's identity names as its parent.
pub fn parent_in_call_id(nested: &str) -> (r: Option<String>)
    ensures
        match r {
            Some(parent) => embedded_parent(nested@) == Some(parent@),
            None => embedded_parent(nested@) is None,
        },
{
    let chars = chars_of(nested);
    let mut end: usize = chars.len();
    while end > 0
        invariant
            chars@ == nested@,
            end <= chars@.len(),
            last_code_mark(nested@, nested@.len()) == last_code_mark(nested@, end as nat),
        decreases end,
    {
        let at: usize = end - 1;
        if chars.len() - at >= 6 {
            let marked = chars[at] == '/' && chars[at + 1] == 'c' && chars[at + 2] == 'o'
                && chars[at + 3] == 'd' && chars[at + 4] == 'e' && chars[at + 5] == '-';
            proof {
                reveal_strlit("/code-");
                if marked {
                    assert(nested@.subrange(at as int, at + 6) =~= "/code-"@);
                } else {
                    assert(nested@.subrange(at as int, at + 6) != "/code-"@) by {
                        let part = nested@.subrange(at as int, at + 6);
                        assert(part[0] == nested@[at as int]);
                        assert(part[1] == nested@[at + 1]);
                        assert(part[2] == nested@[at + 2]);
                        assert(part[3] == nested@[at + 3]);
                        assert(part[4] == nested@[at + 4]);
                        assert(part[5] == nested@[at + 5]);
                    }
                }
            }
            if marked {
                return Some(nested.substring_char(0, at).to_owned());
            }
        }
        end = at;
    }
    None
}

/// The model call that a tool call belongs to.
pub struct CallIndex {
    /// Identity of the tool call.
    pub call_id: String,
    /// Number of the model call.
    pub index: u32,
}

/// The model call of a tool call, as it was last recorded.
pub open spec fn recorded_index(indices: Seq<CallIndex>, call_id: Seq<char>) -> Option<u32>
    decreases indices.len(),
{
    if indices.len() == 0 {
        None
    } else if indices.last().call_id@ == call_id {
        Some(indices.last().index)
    } else {
        recorded_index(indices.drop_last(), call_id)
    }
}

/// Returns the model call of a tool call, as it was last recorded.
pub fn find_index(indices: &Vec<CallIndex>, call_id: &str) -> (r: Option<u32>)
    ensures
        r == recorded_index(indices@, call_id@),
{
    let mut end: usize = indices.len();
    proof {
        assert(indices@.take(end as int) =~= indices@);
    }
    while end > 0
        invariant
            end <= indices@.len(),
            recorded_index(indices@, call_id@) == recorded_index(
                indices@.take(end as int),
                call_id@,
            ),
        decreases end,
    {
        proof {
            assert(indices@.take(end as int).drop_last() =~= indices@.take(end as int - 1));
        }
        if same_text(indices[end - 1].call_id.as_str(), call_id) {
            return Some(indices[end - 1].index);
        }
        end = end - 1;
    }
    None
}

/// How an event names a nested call.
pub struct NestedContext {
    /// Identity of the nested call.
    pub call_id: String,
    /// Number of the model call.
    pub call_index: u32,
}

/// The identity under which events report a nested call: one that names its
/// parent stands as it is, another one stands behind the running call's.
pub open spec fn nested_call_id(nested: Seq<char>, running: Seq<char>) -> Seq<char> {
    if embedded_parent(nested) is Some {
        nested
    } else {
        running + "/"@ + nested
    }
}

/// The model call that events report a nested call for: that of the parent it
/// names, or of the running call.
pub open spec fn nested_call_index(
    nested: Seq<char>,
    running: Seq<char>,
    indices: Seq<CallIndex>,
    fallback: u32,
) -> u32 {
    let parent = match embedded_parent(nested) {
        Some(parent) => parent,
        None => running,
    };
    match recorded_index(indices, parent) {
        Some(index) => index,
        None => fallback,
    }
}

/// Returns how events name a nested call.
pub fn event_context(
    nested: &str,
    running: &str,
    indices: &Vec<CallIndex>,
    fallback: u32,
) -> (r: NestedContext)
    ensures
        r.call_id@ == nested_call_id(nested@, running@),
        r.call_index == nested_call_index(nested@, running@, indices@, fallback),
{
    match parent_in_call_id(nested) {
        Some(parent) => {
            let call_index: u32 = match find_index(indices, parent.as_str()) {
                Some(index) => index,
                None => fallback,
            };
            NestedContext { call_id: nested.to_owned(), call_index }
        },
        None => {
            let call_index: u32 = match find_index(indices, running) {
                Some(index) => index,
                None => fallback,
            };
            NestedContext { call_id: join3(running, "/", nested), call_index }
        },
    }
}

/// The text of an interrupted call's answer. `seconds` is the time since the
/// call was prepared, with one decimal; `at_least` is the same, but no less
/// than a tenth.
pub open spec fn abort_text(shell: bool, seconds: Seq<char>, at_least: Seq<char>) -> Seq<char> {
    if shell {
        "Wall time: "@ + seconds + " seconds\naborted by user"@
    } else {
        "aborted by user after "@ + at_least + "s"@
    }
}

/// Returns the text of an interrupted call's answer.
pub fn aborted_text(shell: bool, seconds: &str, at_least: &str) -> (r: String)
    ensures
        r@ == abort_text(shell, seconds@, at_least@),
{
    if shell {
        join3("Wall time: ", seconds, " seconds\naborted by user")
    } else {
        join3("aborted by user after ", at_least, "s")
    }
}

/// A nested call that already names its parent keeps its identity, whatever
/// call is running, and belongs to the parent's model call.
pub proof fn law_nested_calls_keep_their_parent(
    parent: Seq<char>,
    suffix: Seq<char>,
    running: Seq<char>,
    indices: Seq<CallIndex>,
    fallback: u32,
)
    requires
        last_code_mark("/code-"@ + suffix, ("/code-"@ + suffix).len()) == Some(0nat),
    ensures
        ({
            let nested = parent + "/code-"@ + suffix;
            &&& nested_call_id(nested, running) == nested
            &&& recorded_index(indices, parent) is Some ==> nested_call_index(
                nested,
                running,
                indices,
                fallback,
            ) == recorded_index(indices, parent)->0
        }),
{
    let nested = parent + "/code-"@ + suffix;
    let tail = "/code-"@ + suffix;
    reveal_strlit("/code-");
    assert(nested =~= parent + tail);
    lemma_last_mark_behind_prefix(parent, tail, tail.len());
    assert(nested.take(parent.len() as int) =~= parent);
}

/// Marks of a text stand at the same places behind a prefix.
proof fn lemma_last_mark_behind_prefix(prefix: Seq<char>, text: Seq<char>, end: nat)
    requires
        end <= text.len(),
        last_code_mark(text, end) is Some,
    ensures
        last_code_mark(prefix + text, prefix.len() + end) == Some(
            prefix.len() + last_code_mark(text, end)->0,
        ),
    decreases end,
{
    let whole = prefix + text;
    let at = end - 1;
    if at + 6 <= text.len() {
        assert(whole.subrange(prefix.len() + at, prefix.len() + at + 6) =~= text.subrange(
            at,
            at + 6,
        ));
    }
    assert(code_mark_at(whole, prefix.len() + at) == code_mark_at(text, at));
    if !code_mark_at(text, at) {
        lemma_last_mark_behind_prefix(prefix, text, at as nat);
    }
}

/// A function call is refused exactly where its tool is not there for it: one
/// of a namespace where none of its qualified name is registered, another where
/// it is not offered for direct calls. Running code and searching are never
/// refused, and any other free-text call always is.
pub proof fn law_calls_are_refused_for_want_of_a_tool(call: CodeCall, tool: ToolStanding)
    ensures
        call.kind == CodeCallKind::Function && call.namespace is Some ==> (call.unsupported(
            tool,
        ) is Some <==> !tool.registered),
        call.kind == CodeCallKind::Function && call.namespace is None && call.name@ != "exec"@
            && call.name@ != "wait"@ ==> (call.unsupported(tool) is Some
            <==> !tool.offered_directly),
        call.kind == CodeCallKind::ToolSearch ==> call.unsupported(tool) is None,
        call.namespace is None && (call.name@ == "exec"@ || call.name@ == "wait"@)
            ==> call.unsupported(tool) is None,
        call.kind == CodeCallKind::Custom && (call.namespace is Some || (call.name@ != "exec"@
            && call.name@ != "wait"@)) ==> call.unsupported(tool) is Some,
        call.unsupported(tool) matches Some(message) ==> message == (if call.kind
            == CodeCallKind::Custom {
            "unsupported custom tool call: "@
        } else {
            "unsupported call: "@
        }) + match call.namespace {
            Some(namespace) => namespace@ + call.name@,
            None => call.name@,
        },
{
}

/// A call whose tool is there is carried out: a function call by the registered
/// tool of its qualified name, on the JSON value that its input is; code with
/// its copy of the history; a search by the search tool, which is shown the
/// history. A refused call is answered at once, as failed, with the reason.
pub proof fn law_calls_reach_their_tool(
    plan: ToolPlan,
    call: CodeCall,
    tool: ToolStanding,
    history: Option<Arc<Vec<Arc<ResponseItem>>>>,
)
    requires
        planned(plan, call, tool, history),
    ensures
        plan is Answer <==> call.unsupported(tool) is Some,
        call.kind == CodeCallKind::Function && (if call.namespace is Some {
            tool.registered
        } else {
            tool.offered_directly && call.name@ != "exec"@ && call.name@ != "wait"@
        }) ==> match json::raw_json_of(call.input@) {
            Ok(raw) => plan matches ToolPlan::Direct { tool: name, input, history: shown } && name@
                == (match call.namespace {
                Some(namespace) => namespace@ + call.name@,
                None => call.name@,
            }) && input@ == raw && shown is None,
            Err(_) => plan matches ToolPlan::Unreadable(execution) && !execution.success,
        },
        call.kind == CodeCallKind::ToolSearch && json::raw_json_of(call.input@) is Ok ==> (plan
            matches ToolPlan::Direct { tool: name, history: shown, .. } && name@
            == TOOL_SEARCH_NAME@ && shown == history),
        call.kind != CodeCallKind::ToolSearch && call.namespace is None && call.name@ == "exec"@
            && history is Some ==> plan == ToolPlan::Code(history->0),
        call.kind != CodeCallKind::ToolSearch && call.namespace is None && call.name@ == "exec"@
            && history is None ==> plan is Fail,
        call.kind != CodeCallKind::ToolSearch && call.namespace is None && call.name@ == "wait"@
            ==> plan is Wait,
        plan matches ToolPlan::Answer(completed) ==> {
            &&& completed.call_id == call.call_id
            &&& !completed.success
            &&& completed.terminal is Unselected
            &&& (completed.output matches ToolOutputBody::Text(text) && Some(text@)
                == call.unsupported(tool))
            &&& completed.response_items@.len() == 1
            &&& call.kind == CodeCallKind::Function ==> (*completed.response_items@[0]
                matches ResponseItem::FunctionCallOutput { call_id, output, .. } && call_id
                == call.call_id && output == completed.output)
            &&& call.kind == CodeCallKind::Custom ==> (*completed.response_items@[0]
                matches ResponseItem::CustomToolCallOutput { call_id, output, name, .. } && call_id
                == call.call_id && output == completed.output && name is None)
        },
{
    reveal_strlit("exec");
    reveal_strlit("wait");
    assert("exec"@[0] != "wait"@[0]);
}

/// A call is answered by one item of its own kind, under its own identity, with
/// the output, or with what a search found.
pub proof fn law_answers_name_their_call(
    item: ResponseItem,
    kind: CodeCallKind,
    own: String,
    body: ToolOutputBody,
    found: Seq<String>,
)
    requires
        answers(item, kind, own, body, found),
    ensures
        kind == CodeCallKind::Custom <==> item is CustomToolCallOutput,
        kind == CodeCallKind::Function <==> item is FunctionCallOutput,
        kind == CodeCallKind::ToolSearch <==> item is ToolSearchOutput,
        item matches ResponseItem::CustomToolCallOutput { call_id, output, name, .. } ==> call_id
            == own && output == body && name is None,
        item matches ResponseItem::FunctionCallOutput { call_id, output, .. } ==> call_id == own
            && output == body,
        item matches ResponseItem::ToolSearchOutput { call_id, tools, .. } ==> call_id == own
            && tools@ == found,
        item.identity() is None,
{
}

/// A direct call ends the turn only by the success of a tool that is to end it;
/// the receipt names the call and holds what the tool gave.
pub proof fn law_direct_calls_end_the_turn_by_success(
    selection: TerminalToolSelection,
    call: CodeCall,
    execution: ToolExecution,
    turn_behavior: ToolTurnBehavior,
    limits: ReceiptLimits,
)
    requires
        selects_direct(selection, call, execution, turn_behavior, limits),
    ensures
        selection is Unselected <==> !(execution.success && turn_behavior
            == ToolTurnBehavior::FinishTurnOnSuccess),
        !(selection is Ambiguous),
        selection matches TerminalToolSelection::Selected(receipt) ==> receipt@.call_id
            == call.call_id && receipt@.output == execution.output && receipt@.metadata
            == execution.metadata && receipt@.tool@ == (match call.namespace {
            Some(namespace) => namespace@ + call.name@,
            None => call.name@,
        }),
{
}

/// Code is shown as the text that it is; other input as the JSON value that was
/// read from it, and as it is where none could be.
pub proof fn law_events_show_what_was_called(
    call: CodeCall,
    read: Result<Seq<char>, Seq<char>>,
    shown: ToolCallArguments,
)
    requires
        shows_read(call, read, shown),
    ensures
        shown is Raw <==> call.name@ != "exec"@ && read is Ok,
        shown matches ToolCallArguments::Raw(raw) ==> raw@ == read->Ok_0,
        shown matches ToolCallArguments::Text(text) ==> text == call.input,
{
}

/// The answer to a call that ran code holds everything that the code put out;
/// where a tool call in it ended the turn, that call is named behind it.
pub proof fn law_code_answers_keep_the_output(
    answered: ToolOutputBody,
    output: ToolOutputBody,
    terminal: TerminalToolSelection,
)
    requires
        shows_receipt(answered, output, terminal),
    ensures
        !(terminal is Selected) ==> answered == output,
        terminal is Selected ==> (answered matches ToolOutputBody::Content(parts) && parts@.len()
            == emitted_output::as_parts(output).len() + 1 && parts@.take(
            emitted_output::as_parts(output).len() as int,
        ) == emitted_output::as_parts(output)),
        terminal matches TerminalToolSelection::Selected(receipt) ==> (
        answered->Content_0@.last() matches ToolOutputContent::InputText { text } && ("["@
            + receipt@.call_id@ + "] "@).is_prefix_of(text@) && text@.skip(
            ("["@ + receipt@.call_id@ + "] "@).len() as int,
        ) == emitted_output::bounded(emitted_output::body_text(receipt@.output))),
{
    if let TerminalToolSelection::Selected(receipt) = terminal {
        let parts = answered->Content_0@;
        assert(parts.take(emitted_output::as_parts(output).len() as int) =~= parts.drop_last());
        let start = "["@ + receipt@.call_id@ + "] "@;
        let rest = emitted_output::bounded(emitted_output::body_text(receipt@.output));
        assert(receipt_text(receipt@) =~= start + rest);
        assert(start.is_prefix_of(start + rest));
        assert((start + rest).skip(start.len() as int) =~= rest);
    }
}

/// A nested call without a parent of its own is reported behind the running
/// call, and belongs to the running call's model call; where that is not known,
/// to the one that is given.
pub proof fn law_nested_calls_belong_to_the_running_call(
    nested: Seq<char>,
    running: Seq<char>,
    indices: Seq<CallIndex>,
    fallback: u32,
    call: CallIndex,
)
    requires
        embedded_parent(nested) is None,
        call.call_id@ == running,
    ensures
        nested_call_id(nested, running) == running + "/"@ + nested,
        nested_call_index(nested, running, indices.push(call), fallback) == call.index,
        nested_call_index(nested, running, Seq::empty(), fallback) == fallback,
{
}

/// The parent that an identity names stands before the last mark in it; an
/// identity without a mark names none.
pub proof fn law_parents_stand_before_the_last_mark(nested: Seq<char>, at: int)
    ensures
        embedded_parent(nested) is None ==> !code_mark_at(nested, at),
        embedded_parent(nested) matches Some(parent) ==> {
            &&& (parent + "/code-"@).is_prefix_of(nested)
            &&& at > parent.len() ==> !code_mark_at(nested, at)
        },
{
    lemma_last_mark(nested, nested.len(), at);
    reveal_strlit("/code-");
    if let Some(found) = last_code_mark(nested, nested.len()) {
        let parent = nested.take(found as int);
        let end: int = found as int + 6;
        assert(nested.take(end) =~= parent + nested.subrange(found as int, end));
    }
}

/// The last mark is a mark, and no later place is one.
proof fn lemma_last_mark(text: Seq<char>, end: nat, at: int)
    ensures
        match last_code_mark(text, end) {
            Some(found) => found < end && code_mark_at(text, found as int) && (found < at < end
                ==> !code_mark_at(text, at)),
            None => 0 <= at < end ==> !code_mark_at(text, at),
        },
    decreases end,
{
    if end > 0 && !code_mark_at(text, end - 1) {
        lemma_last_mark(text, (end - 1) as nat, at);
    }
}

/// The model call of a tool call is the one that was recorded for it last.
pub proof fn law_latest_record_counts(indices: Seq<CallIndex>, record: CallIndex, call_id: Seq<char>)
    ensures
        recorded_index(Seq::empty(), call_id) is None,
        recorded_index(indices.push(record), record.call_id@) == Some(record.index),
        call_id != record.call_id@ ==> recorded_index(indices.push(record), call_id)
            == recorded_index(indices, call_id),
{
    assert(indices.push(record).drop_last() =~= indices);
}

/// An interrupted call is told to have been aborted by the user, with its time:
/// shell tools by their wall time, others by no less than a tenth of a second.
pub proof fn law_aborted_calls_state_their_time(seconds: Seq<char>, at_least: Seq<char>)
    ensures
        abort_text(true, seconds, at_least) == "Wall time: "@ + seconds
            + " seconds\naborted by user"@,
        abort_text(false, seconds, at_least) == "aborted by user after "@ + at_least + "s"@,
{
}

/// A refused call is answered under its own identity and qualified name, as
/// failed, at no cost of time, and without ending the turn.
pub proof fn law_refusals_cost_nothing(
    completed: CompletedToolCall,
    call: CodeCall,
    message: Seq<char>,
)
    requires
        rejects(completed, call, message),
    ensures
        completed.call_id == call.call_id,
        completed.tool@ == (match call.namespace {
            Some(namespace) => namespace@ + call.name@,
            None => call.name@,
        }),
        !completed.success,
        completed.duration_ns == 0,
        completed.work_duration_ns == 0,
        completed.metadata is None,
        completed.terminal is Unselected,
        completed.output matches ToolOutputBody::Text(text) && text@ == message,
        completed.response_items@.len() == 1,
        answers(
            *completed.response_items@[0],
            call.kind,
            call.call_id,
            completed.output,
            Seq::empty(),
        ),
{
}

/// A notification of running code reaches the model in its own words, under the
/// call that it belongs to, in the name of the tool that runs code.
pub proof fn law_notifications_speak_for_running_code(
    item: ResponseItem,
    notification: CodeModeNotification,
)
    requires
        notifies(item, notification),
    ensures
        item matches ResponseItem::CustomToolCallOutput { call_id, name, output, .. } && call_id
            == notification.call_id && name is Some && name->0@ == "exec"@ && output
            == ToolOutputBody::Text(notification.text),
        item.identity() is None,
{
}

/// A finished call is either completed or failed, by its success.
pub proof fn law_status_tells_success(success: bool)
    ensures
        ToolStatus::of(success) == ToolStatus::Completed <==> success,
        ToolStatus::of(success) == ToolStatus::Failed <==> !success,
{
}

} // verus!
