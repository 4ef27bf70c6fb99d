//! Cells of code that call tools: what they leave, and whether a tool that they
//! called ends the turn.
use crate::emitted_output;
use crate::emitted_output::{append_bounded_output, bounded_emitted_output};
use crate::items::{clone_history, clone_text, ResponseItem, ToolOutputBody, ToolOutputContent};
use crate::text;
use crate::text::byte_len;
use std::sync::Arc;
use vstd::prelude::*;
use vstd::string::*;

verus! {

/// What a tool's success means for the turn.
#[derive(Clone, Copy, Debug, PartialEq, Eq, Structural)]
pub enum ToolTurnBehavior {
    /// The turn goes on.
    Continue,
    /// The turn ends.
    FinishTurnOnSuccess,
}

/// Context of a tool call.
#[derive(Clone, Copy)]
pub struct ToolContext<'a> {
    /// Model.
    pub model: &'a str,
    /// Session.
    pub session_id: &'a str,
    /// The call.
    pub call_id: &'a str,
    /// The conversation when the call was made.
    pub history: &'a Vec<Arc<ResponseItem>>,
    /// Tokens that an output may take.
    pub output_token_budget: usize,
}

/// Owned context of a cell that may outlive the call that started it.
pub struct OwnedToolContext {
    /// Model.
    pub model: String,
    /// Session.
    pub session_id: String,
    /// The call that started the cell.
    pub call_id: String,
    /// The conversation when the cell was started.
    pub history: Arc<Vec<Arc<ResponseItem>>>,
    /// Tokens that an output may take.
    pub output_token_budget: usize,
}

impl OwnedToolContext {
    /// Creates a context.
    pub fn new(
        model: &str,
        session_id: &str,
        call_id: &str,
        history: Arc<Vec<Arc<ResponseItem>>>,
        output_token_budget: usize,
    ) -> (r: Self)
        ensures
            r.model@ == model@,
            r.session_id@ == session_id@,
            r.call_id@ == call_id@,
            r.history == history,
            r.output_token_budget == output_token_budget,
    {
        OwnedToolContext {
            model: model.to_owned(),
            session_id: session_id.to_owned(),
            call_id: call_id.to_owned(),
            history,
            output_token_budget,
        }
    }

    /// Copies a borrowed context.
    pub fn from_context(context: ToolContext<'_>) -> (r: Self)
        ensures
            r.model@ == context.model@,
            r.session_id@ == context.session_id@,
            r.call_id@ == context.call_id@,
            r.history@ == context.history@,
            r.output_token_budget == context.output_token_budget,
    {
        OwnedToolContext::new(
            context.model,
            context.session_id,
            context.call_id,
            Arc::new(clone_history(context.history)),
            context.output_token_budget,
        )
    }

    /// Lends the context.
    pub fn as_context(&self) -> (r: ToolContext<'_>)
        ensures
            r.model@ == self.model@,
            r.session_id@ == self.session_id@,
            r.call_id@ == self.call_id@,
            r.history@ == self.history@,
            r.output_token_budget == self.output_token_budget,
    {
        ToolContext {
            model: self.model.as_str(),
            session_id: self.session_id.as_str(),
            call_id: self.call_id.as_str(),
            history: &self.history,
            output_token_budget: self.output_token_budget,
        }
    }

    /// Changes the tokens that an output may take.
    pub fn with_output_token_budget(self, output_token_budget: usize) -> (r: Self)
        ensures
            r == (OwnedToolContext { output_token_budget, ..self }),
    {
        OwnedToolContext { output_token_budget, ..self }
    }
}

/// A message that a cell sent.
#[derive(Debug)]
pub struct CodeModeNotification {
    /// The call whose cell sent it.
    pub call_id: String,
    /// The message.
    pub text: String,
}

impl CodeModeNotification {
    /// Creates a message.
    pub fn new(call_id: &str, text: String) -> (r: Self)
        ensures
            r.call_id@ == call_id@,
            r.text == text,
    {
        CodeModeNotification { call_id: call_id.to_owned(), text }
    }
}

/// A tool call that a cell made.
#[derive(Debug)]
pub struct NestedToolCall {
    /// Identity of the call.
    pub call_id: String,
    /// Registered name of the tool.
    pub name: String,
    /// JSON input.
    pub input: String,
    /// The tool's output.
    pub output: ToolOutputBody,
    /// Whether the tool succeeded.
    pub success: bool,
    /// What the tool's success means for the turn.
    pub turn_behavior: ToolTurnBehavior,
    /// Time from the cell's start to the call.
    pub started_after_ns: u64,
    /// Time that the call took.
    pub duration_ns: u64,
    /// JSON metadata for the host.
    pub metadata: Option<String>,
}

/// A tool call that ended a turn.
#[derive(Debug)]
pub struct TerminalToolReceipt {
    call_id: String,
    tool: String,
    output: ToolOutputBody,
    metadata: Option<String>,
}

/// What a receipt holds.
pub struct ReceiptView {
    /// Identity of the call.
    pub call_id: String,
    /// Registered name of the tool.
    pub tool: String,
    /// The tool's output.
    pub output: ToolOutputBody,
    /// JSON metadata for the host.
    pub metadata: Option<String>,
}

impl View for TerminalToolReceipt {
    type V = ReceiptView;

    closed spec fn view(&self) -> ReceiptView {
        ReceiptView {
            call_id: self.call_id,
            tool: self.tool,
            output: self.output,
            metadata: self.metadata,
        }
    }
}

/// Why a tool call cannot end a turn.
#[derive(Clone, Copy, Debug, PartialEq, Eq, Structural)]
pub enum TerminalToolReceiptError {
    /// Its output is too large.
    OutputTooLarge,
    /// Its metadata is too large.
    MetadataTooLarge,
}

/// How large the receipt of a tool call may be.
#[derive(Clone, Copy, Debug, PartialEq, Eq, Structural)]
pub struct ReceiptLimits {
    /// Bytes of output.
    pub max_output_bytes: usize,
    /// Bytes of metadata.
    pub max_metadata_bytes: usize,
}

/// The bytes of one part of an output.
pub open spec fn part_bytes(part: ToolOutputContent) -> nat {
    match part {
        ToolOutputContent::InputText { text } => text::utf8_len(text@),
        ToolOutputContent::InputImage { image_url, .. } => text::utf8_len(image_url@),
        ToolOutputContent::InputAudio { audio_url } => text::utf8_len(audio_url@),
    }
}

/// The bytes of the parts of an output.
pub open spec fn parts_bytes(parts: Seq<ToolOutputContent>) -> nat
    decreases parts.len(),
{
    if parts.len() == 0 {
        0
    } else {
        parts_bytes(parts.drop_last()) + part_bytes(parts.last())
    }
}

/// The bytes of an output.
pub open spec fn output_bytes(output: ToolOutputBody) -> nat {
    match output {
        ToolOutputBody::Text(text) => text::utf8_len(text@),
        ToolOutputBody::Content(parts) => parts_bytes(parts@),
    }
}

/// Why a tool call cannot end a turn, if it cannot.
pub open spec fn receipt_fault(
    output: ToolOutputBody,
    metadata: Option<String>,
    limits: ReceiptLimits,
) -> Option<TerminalToolReceiptError> {
    if output_bytes(output) > limits.max_output_bytes {
        Some(TerminalToolReceiptError::OutputTooLarge)
    } else if metadata is Some && text::utf8_len(metadata->0@) > limits.max_metadata_bytes {
        Some(TerminalToolReceiptError::MetadataTooLarge)
    } else {
        None
    }
}

/// Parts of a list take no more bytes than the list.
proof fn lemma_parts_bytes_prefix(parts: Seq<ToolOutputContent>, upto: int)
    requires
        0 <= upto <= parts.len(),
    ensures
        parts_bytes(parts.take(upto)) <= parts_bytes(parts),
    decreases parts.len(),
{
    if upto == parts.len() {
        assert(parts.take(upto) =~= parts);
    } else {
        lemma_parts_bytes_prefix(parts.drop_last(), upto);
        assert(parts.drop_last().take(upto) =~= parts.take(upto));
    }
}

/// Tests whether an output takes more than a number of bytes.
fn exceeds(output: &ToolOutputBody, limit: usize) -> (r: bool)
    ensures
        r == (output_bytes(*output) > limit),
{
    match output {
        ToolOutputBody::Text(text) => byte_len(text.as_str()) > limit,
        ToolOutputBody::Content(parts) => {
            let mut total: usize = 0;
            let mut i: usize = 0;
            while i < parts.len()
                invariant
                    i <= parts@.len(),
                    total == parts_bytes(parts@.take(i as int)),
                    total <= limit,
                    output_bytes(*output) == parts_bytes(parts@),
                decreases parts@.len() - i,
            {
                let added: usize = match &parts[i] {
                    ToolOutputContent::InputText { text } => byte_len(text.as_str()),
                    ToolOutputContent::InputImage { image_url, .. } => byte_len(
                        image_url.as_str(),
                    ),
                    ToolOutputContent::InputAudio { audio_url } => byte_len(audio_url.as_str()),
                };
                proof {
                    assert(parts@.take(i as int + 1).drop_last() =~= parts@.take(i as int));
                    lemma_parts_bytes_prefix(parts@, i as int + 1);
                }
                if added > limit - total {
                    return true;
                }
                total = total + added;
                i = i + 1;
            }
            proof {
                assert(parts@.take(parts@.len() as int) =~= parts@);
            }
            false
        },
    }
}

impl TerminalToolReceipt {
    /// Makes the receipt of a tool call.
    pub fn new(
        call_id: String,
        tool: String,
        output: ToolOutputBody,
        metadata: Option<String>,
        limits: ReceiptLimits,
    ) -> (r: Result<Self, TerminalToolReceiptError>)
        ensures
            match r {
                Ok(receipt) => receipt_fault(output, metadata, limits) is None && receipt@ == (
                ReceiptView { call_id, tool, output, metadata }),
                Err(error) => receipt_fault(output, metadata, limits) == Some(error),
            },
    {
        if exceeds(&output, limits.max_output_bytes) {
            return Err(TerminalToolReceiptError::OutputTooLarge);
        }
        if let Some(text) = &metadata {
            if byte_len(text.as_str()) > limits.max_metadata_bytes {
                return Err(TerminalToolReceiptError::MetadataTooLarge);
            }
        }
        Ok(TerminalToolReceipt { call_id, tool, output, metadata })
    }

    /// Returns the identity of the call.
    pub fn call_id(&self) -> (r: &str)
        ensures
            r@ == self@.call_id@,
    {
        self.call_id.as_str()
    }

    /// Returns the registered name of the tool.
    pub fn tool_name(&self) -> (r: &str)
        ensures
            r@ == self@.tool@,
    {
        self.tool.as_str()
    }

    /// Copies the identity of the call.
    pub(crate) fn owned_call_id(&self) -> (r: String)
        ensures
            r == self@.call_id,
    {
        self.call_id.clone()
    }

    /// Copies the registered name of the tool.
    pub(crate) fn owned_tool_name(&self) -> (r: String)
        ensures
            r == self@.tool,
    {
        self.tool.clone()
    }

    /// Returns the tool's output.
    pub fn output(&self) -> (r: &ToolOutputBody)
        ensures
            *r == self@.output,
    {
        &self.output
    }

    /// Returns JSON metadata for the host.
    pub fn metadata(&self) -> (r: Option<&str>)
        ensures
            match r {
                Some(metadata) => self@.metadata is Some && metadata@ == self@.metadata->0@,
                None => self@.metadata is None,
            },
    {
        match &self.metadata {
            Some(metadata) => Some(metadata.as_str()),
            None => None,
        }
    }
}

impl TerminalToolReceiptError {
    /// The message of an error.
    pub open spec fn text(self) -> Seq<char> {
        match self {
            TerminalToolReceiptError::OutputTooLarge => "terminal tool output is too large"@,
            TerminalToolReceiptError::MetadataTooLarge => "terminal tool metadata is too large"@,
        }
    }

    /// Describes the error.
    pub fn message(self) -> (r: &'static str)
        ensures
            r@ == self.text(),
    {
        match self {
            TerminalToolReceiptError::OutputTooLarge => "terminal tool output is too large",
            TerminalToolReceiptError::MetadataTooLarge => "terminal tool metadata is too large",
        }
    }
}

/// Which tool call of a cell ended the turn.
#[derive(Debug)]
pub enum TerminalToolSelection {
    /// No call did.
    Unselected,
    /// One call did.
    Selected(TerminalToolReceipt),
    /// More than one call would have.
    Ambiguous,
    /// A call would have, but for its size.
    Invalid(TerminalToolReceiptError),
}

impl TerminalToolSelection {
    /// What two selections come to. One that was spoiled stays spoiled, and two
    /// calls that would both end the turn leave it open which one does.
    pub open spec fn joined(self, other: TerminalToolSelection) -> TerminalToolSelection {
        match self {
            TerminalToolSelection::Invalid(_) => self,
            TerminalToolSelection::Unselected => other,
            _ => match other {
                TerminalToolSelection::Invalid(_) => other,
                TerminalToolSelection::Unselected => self,
                _ => TerminalToolSelection::Ambiguous,
            },
        }
    }

    /// Puts two selections together.
    pub fn join(self, other: TerminalToolSelection) -> (r: Self)
        ensures
            r == self.joined(other),
    {
        match self {
            TerminalToolSelection::Invalid(error) => TerminalToolSelection::Invalid(error),
            TerminalToolSelection::Unselected => other,
            _ => match other {
                TerminalToolSelection::Invalid(error) => TerminalToolSelection::Invalid(error),
                TerminalToolSelection::Unselected => self,
                _ => TerminalToolSelection::Ambiguous,
            },
        }
    }
}

/// What a cell left.
#[derive(Debug)]
pub struct CodeModeExecution {
    /// Output for the model.
    pub output: ToolOutputBody,
    /// Whether the cell succeeded.
    pub success: bool,
    /// Tool calls in the order in which they were made.
    pub nested_calls: Vec<NestedToolCall>,
    /// Messages in the order in which they were sent.
    pub notifications: Vec<CodeModeNotification>,
    /// Which tool call ended the turn.
    pub terminal_selection: TerminalToolSelection,
}

/// What is known of a tool that a cell called.
#[derive(Clone, Copy, Debug, PartialEq, Eq, Structural)]
pub struct HostToolTraits {
    /// What the tool's success means for the turn.
    pub turn_behavior: ToolTurnBehavior,
    /// Whether a success puts the tool's output behind the cell's.
    pub emits_output_on_success: bool,
}

/// The error of the first candidate that has one.
pub open spec fn first_fault(
    candidates: Seq<Result<TerminalToolReceipt, TerminalToolReceiptError>>,
) -> Option<TerminalToolReceiptError>
    decreases candidates.len(),
{
    if candidates.len() == 0 {
        None
    } else {
        match candidates[0] {
            Err(error) => Some(error),
            Ok(_) => first_fault(candidates.skip(1)),
        }
    }
}

/// The outputs that go behind a cell's own: those of successful calls of tools
/// that emit them.
pub open spec fn emitted(calls: Seq<NestedToolCall>, traits: Seq<HostToolTraits>) -> Seq<
    ToolOutputBody,
>
    decreases calls.len(),
{
    if calls.len() == 0 {
        Seq::empty()
    } else {
        let before = emitted(calls.drop_last(), traits.drop_last());
        if calls.last().success && traits.last().emits_output_on_success {
            before.push(calls.last().output)
        } else {
            before
        }
    }
}

/// Whether a call would end the turn.
pub open spec fn would_finish(call: NestedToolCall, known: HostToolTraits) -> bool {
    call.success && known.turn_behavior == ToolTurnBehavior::FinishTurnOnSuccess
}

/// The calls that would end the turn.
pub open spec fn finishing(calls: Seq<NestedToolCall>, traits: Seq<HostToolTraits>) -> Seq<
    NestedToolCall,
>
    decreases calls.len(),
{
    if calls.len() == 0 {
        Seq::empty()
    } else {
        let before = finishing(calls.drop_last(), traits.drop_last());
        if would_finish(calls.last(), traits.last()) {
            before.push(calls.last())
        } else {
            before
        }
    }
}

/// Why the first of several calls that cannot end a turn cannot.
pub open spec fn first_call_fault(calls: Seq<NestedToolCall>, limits: ReceiptLimits) -> Option<
    TerminalToolReceiptError,
>
    decreases calls.len(),
{
    if calls.len() == 0 {
        None
    } else {
        match receipt_fault(calls[0].output, calls[0].metadata, limits) {
            Some(error) => Some(error),
            None => first_call_fault(calls.skip(1), limits),
        }
    }
}

/// Whether a selection is the one for calls that would end the turn: one that
/// is too large spoils it, and more than one leaves it open.
pub open spec fn selects(
    selection: TerminalToolSelection,
    calls: Seq<NestedToolCall>,
    limits: ReceiptLimits,
) -> bool {
    match first_call_fault(calls, limits) {
        Some(error) => selection == TerminalToolSelection::Invalid(error),
        None => if calls.len() == 0 {
            selection is Unselected
        } else if calls.len() == 1 {
            selection matches TerminalToolSelection::Selected(receipt) && receipt@ == (ReceiptView {
                call_id: calls[0].call_id,
                tool: calls[0].name,
                output: calls[0].output,
                metadata: calls[0].metadata,
            })
        } else {
            selection is Ambiguous
        },
    }
}

impl CodeModeExecution {
    /// What a cell left, with no tool call that ended the turn.
    pub fn new(
        output: ToolOutputBody,
        success: bool,
        nested_calls: Vec<NestedToolCall>,
        notifications: Vec<CodeModeNotification>,
    ) -> (r: Self)
        ensures
            r.output == output,
            r.success == success,
            r.nested_calls == nested_calls,
            r.notifications == notifications,
            r.terminal_selection is Unselected,
    {
        CodeModeExecution {
            output,
            success,
            nested_calls,
            notifications,
            terminal_selection: TerminalToolSelection::Unselected,
        }
    }

    /// Returns the one tool call that ended the turn.
    pub fn terminal_tool(&self) -> (r: Option<&TerminalToolReceipt>)
        ensures
            match r {
                Some(receipt) => self.terminal_selection == TerminalToolSelection::Selected(*receipt),
                None => !(self.terminal_selection is Selected),
            },
    {
        match &self.terminal_selection {
            TerminalToolSelection::Selected(receipt) => Some(receipt),
            _ => None,
        }
    }

    /// Returns whether more than one tool call would have ended the turn.
    pub fn has_ambiguous_terminal_tool(&self) -> (r: bool)
        ensures
            r == (self.terminal_selection is Ambiguous),
    {
        match &self.terminal_selection {
            TerminalToolSelection::Ambiguous => true,
            _ => false,
        }
    }

    /// Returns why a tool call that would have ended the turn could not.
    pub fn terminal_receipt_error(&self) -> (r: Option<TerminalToolReceiptError>)
        ensures
            match r {
                Some(error) => self.terminal_selection == TerminalToolSelection::Invalid(error),
                None => !(self.terminal_selection is Invalid),
            },
    {
        match &self.terminal_selection {
            TerminalToolSelection::Invalid(error) => Some(*error),
            _ => None,
        }
    }

    /// Selects the tool call that ended the turn among candidates. One that is
    /// too large spoils the selection, and more than one leaves it open.
    pub fn select_terminal_tools(
        &mut self,
        candidates: Vec<Result<TerminalToolReceipt, TerminalToolReceiptError>>,
    )
        ensures
            final(self).output == old(self).output,
            final(self).success == old(self).success,
            final(self).nested_calls == old(self).nested_calls,
            final(self).notifications == old(self).notifications,
            match first_fault(candidates@) {
                Some(error) => final(self).terminal_selection == TerminalToolSelection::Invalid(error),
                None => if candidates@.len() == 0 {
                    final(self).terminal_selection is Unselected
                } else if candidates@.len() == 1 {
                    final(self).terminal_selection == TerminalToolSelection::Selected(
                        candidates@[0]->Ok_0,
                    )
                } else {
                    final(self).terminal_selection is Ambiguous
                },
            },
    {
        let mut i: usize = 0;
        proof {
            assert(candidates@.skip(0) =~= candidates@);
        }
        while i < candidates.len()
            invariant
                i <= candidates@.len(),
                first_fault(candidates@) == first_fault(candidates@.skip(i as int)),
                self.output == old(self).output,
                self.success == old(self).success,
                self.nested_calls == old(self).nested_calls,
                self.notifications == old(self).notifications,
                forall|j: int| 0 <= j < i ==> #[trigger] candidates@[j] is Ok,
            decreases candidates@.len() - i,
        {
            proof {
                assert(candidates@.skip(i as int).skip(1) =~= candidates@.skip(i as int + 1));
            }
            if let Err(error) = &candidates[i] {
                self.terminal_selection = TerminalToolSelection::Invalid(*error);
                return;
            }
            i = i + 1;
        }
        if candidates.len() > 1 {
            self.terminal_selection = TerminalToolSelection::Ambiguous;
            return;
        }
        let mut rest = candidates;
        self.terminal_selection = match rest.pop() {
            Some(Ok(receipt)) => TerminalToolSelection::Selected(receipt),
            _ => TerminalToolSelection::Unselected,
        };
    }

    /// Applies what the host knows of the called tools: their behaviors are
    /// recorded, emitted outputs go behind the cell's own, and a successful
    /// cell may have ended the turn. `traits` holds what is known of each call's
    /// tool.
    pub fn apply_host_turn_behaviors(
        &mut self,
        traits: &Vec<HostToolTraits>,
        limits: ReceiptLimits,
    )
        requires
            traits@.len() == old(self).nested_calls@.len(),
            emitted_output::as_parts(old(self).output).len() < usize::MAX,
        ensures
            final(self).success == old(self).success,
            final(self).notifications == old(self).notifications,
            final(self).nested_calls@.len() == old(self).nested_calls@.len(),
            forall|i: int|
                0 <= i < traits@.len() ==> #[trigger] final(self).nested_calls@[i] == (
                NestedToolCall {
                    turn_behavior: traits@[i].turn_behavior,
                    ..old(self).nested_calls@[i]
                }),
            ({
                let text = emitted_output::outputs_text(
                    emitted(old(self).nested_calls@, traits@),
                );
                if text.len() == 0 {
                    final(self).output == old(self).output
                } else {
                    final(self).output matches ToolOutputBody::Content(parts) && parts@.len()
                        == emitted_output::as_parts(old(self).output).len() + 1
                        && parts@.drop_last() == emitted_output::as_parts(old(self).output) && (
                    parts@.last() matches ToolOutputContent::InputText { text: added } && added@
                        == emitted_output::bounded(text))
                }
            }),
            selects(
                final(self).terminal_selection,
                if old(self).success {
                    finishing(old(self).nested_calls@, traits@)
                } else {
                    Seq::empty()
                },
                limits,
            ),
    {
        let ghost given = self.nested_calls@;
        let mut outputs: Vec<ToolOutputBody> = Vec::new();
        let mut candidates: Vec<Result<TerminalToolReceipt, TerminalToolReceiptError>> = Vec::new();
        let mut i: usize = 0;
        while i < self.nested_calls.len()
            invariant
                i <= self.nested_calls@.len(),
                self.nested_calls@.len() == given.len(),
                traits@.len() == given.len(),
                given == old(self).nested_calls@,
                self.output == old(self).output,
                self.success == old(self).success,
                self.notifications == old(self).notifications,
                forall|j: int| i <= j < given.len() ==> self.nested_calls@[j] == given[j],
                forall|j: int|
                    0 <= j < i ==> #[trigger] self.nested_calls@[j] == (NestedToolCall {
                        turn_behavior: traits@[j].turn_behavior,
                        ..given[j]
                    }),
                outputs@ == emitted(given.take(i as int), traits@.take(i as int)),
                receipts_of(
                    candidates@,
                    finishing(given.take(i as int), traits@.take(i as int)),
                    limits,
                ),
            decreases given.len() - i,
        {
            proof {
                assert(given.take(i as int + 1).drop_last() =~= given.take(i as int));
                assert(traits@.take(i as int + 1).drop_last() =~= traits@.take(i as int));
            }
            let known = traits[i];
            self.nested_calls[i].turn_behavior = known.turn_behavior;
            if self.nested_calls[i].success && known.emits_output_on_success {
                outputs.push(self.nested_calls[i].output.clone());
            }
            if self.nested_calls[i].success && known.turn_behavior
                == ToolTurnBehavior::FinishTurnOnSuccess {
                let candidate = TerminalToolReceipt::new(
                    self.nested_calls[i].call_id.clone(),
                    self.nested_calls[i].name.clone(),
                    self.nested_calls[i].output.clone(),
                    clone_text(&self.nested_calls[i].metadata),
                    limits,
                );
                candidates.push(candidate);
            }
            i = i + 1;
        }
        proof {
            assert(given.take(given.len() as int) =~= given);
            assert(traits@.take(given.len() as int) =~= traits@);
        }
        if let Some(output) = bounded_emitted_output(&outputs) {
            append_bounded_output(&mut self.output, output);
            proof {
                assert(self.output->Content_0@.drop_last() =~= emitted_output::as_parts(
                    old(self).output,
                ));
            }
        }
        let chosen = if self.success {
            candidates
        } else {
            Vec::new()
        };
        proof {
            let calls = if old(self).success {
                finishing(given, traits@)
            } else {
                Seq::empty()
            };
            lemma_faults_agree(chosen@, calls, limits);
        }
        self.select_terminal_tools(chosen);
    }
}

/// Whether candidates are the receipts of calls.
pub open spec fn receipts_of(
    candidates: Seq<Result<TerminalToolReceipt, TerminalToolReceiptError>>,
    calls: Seq<NestedToolCall>,
    limits: ReceiptLimits,
) -> bool {
    &&& candidates.len() == calls.len()
    &&& forall|i: int|
        0 <= i < calls.len() ==> match #[trigger] candidates[i] {
            Ok(receipt) => receipt_fault(calls[i].output, calls[i].metadata, limits) is None
                && receipt@ == (ReceiptView {
                call_id: calls[i].call_id,
                tool: calls[i].name,
                output: calls[i].output,
                metadata: calls[i].metadata,
            }),
            Err(error) => receipt_fault(calls[i].output, calls[i].metadata, limits) == Some(error),
        }
}

/// The first candidate with an error is the first call that cannot end a turn.
proof fn lemma_faults_agree(
    candidates: Seq<Result<TerminalToolReceipt, TerminalToolReceiptError>>,
    calls: Seq<NestedToolCall>,
    limits: ReceiptLimits,
)
    requires
        receipts_of(candidates, calls, limits),
    ensures
        first_fault(candidates) == first_call_fault(calls, limits),
        first_fault(candidates) is None ==> forall|i: int|
            0 <= i < candidates.len() ==> #[trigger] candidates[i] is Ok,
    decreases calls.len(),
{
    if calls.len() > 0 {
        let c = candidates[0];
        assert(candidates.skip(1).len() == calls.skip(1).len());
        assert forall|i: int| 0 <= i < calls.skip(1).len() implies match #[trigger] candidates.skip(
            1,
        )[i] {
            Ok(receipt) => receipt_fault(
                calls.skip(1)[i].output,
                calls.skip(1)[i].metadata,
                limits,
            ) is None && receipt@ == (ReceiptView {
                call_id: calls.skip(1)[i].call_id,
                tool: calls.skip(1)[i].name,
                output: calls.skip(1)[i].output,
                metadata: calls.skip(1)[i].metadata,
            }),
            Err(error) => receipt_fault(
                calls.skip(1)[i].output,
                calls.skip(1)[i].metadata,
                limits,
            ) == Some(error),
        } by {
            let shifted = candidates[i + 1];
        }
        lemma_faults_agree(candidates.skip(1), calls.skip(1), limits);
        if first_fault(candidates) is None {
            assert forall|i: int| 0 <= i < candidates.len() implies #[trigger] candidates[i]
                is Ok by {
                if i > 0 {
                    assert(candidates.skip(1)[i - 1] is Ok);
                }
            }
        }
    }
}

/// A cell ends the turn by at most one tool call: a failed cell by none, and a
/// selected receipt is that of the only successful call that would.
pub proof fn law_at_most_one_tool_ends_the_turn(
    selection: TerminalToolSelection,
    calls: Seq<NestedToolCall>,
    limits: ReceiptLimits,
)
    requires
        selects(selection, calls, limits),
    ensures
        selection is Selected ==> calls.len() == 1,
        calls.len() == 0 ==> selection is Unselected,
        calls.len() > 1 ==> selection is Ambiguous || selection is Invalid,
{
}

/// Selections can be put together in any grouping, a call that would not end the
/// turn adds nothing, and a spoiled selection is not mended by another call.
pub proof fn law_selections_join_in_any_grouping(
    first: TerminalToolSelection,
    second: TerminalToolSelection,
    third: TerminalToolSelection,
)
    ensures
        first.joined(second).joined(third) == first.joined(second.joined(third)),
        first.joined(TerminalToolSelection::Unselected) == first,
        TerminalToolSelection::Unselected.joined(first) == first,
        first is Selected && second is Selected ==> first.joined(second) is Ambiguous,
        first is Invalid || second is Invalid ==> first.joined(second) is Invalid,
{
}

/// A tool call can end a turn exactly where neither its output nor its metadata
/// is larger than allowed; an output that is too large is named first.
pub proof fn law_receipts_keep_within_their_limits(
    output: ToolOutputBody,
    metadata: Option<String>,
    limits: ReceiptLimits,
)
    ensures
        receipt_fault(output, metadata, limits) is None <==> output_bytes(output)
            <= limits.max_output_bytes && (metadata is Some ==> text::utf8_len(metadata->0@)
            <= limits.max_metadata_bytes),
        receipt_fault(output, metadata, limits) == Some(TerminalToolReceiptError::OutputTooLarge)
            <==> output_bytes(output) > limits.max_output_bytes,
{
}

/// The size of an output is that of all its parts: one more part makes it larger
/// by the bytes of that part.
pub proof fn law_every_part_counts(parts: Seq<ToolOutputContent>, part: ToolOutputContent)
    ensures
        parts_bytes(Seq::empty()) == 0,
        parts_bytes(parts.push(part)) == parts_bytes(parts) + text::utf8_len(
            match part {
                ToolOutputContent::InputText { text } => text@,
                ToolOutputContent::InputImage { image_url, .. } => image_url@,
                ToolOutputContent::InputAudio { audio_url } => audio_url@,
            },
        ),
{
    assert(parts.push(part).drop_last() =~= parts);
}

/// A successful call of a tool that emits puts its output behind the others, and
/// a successful call of a tool that is to end the turn is one that would; a
/// failed call does neither.
pub proof fn law_success_alone_counts(
    calls: Seq<NestedToolCall>,
    traits: Seq<HostToolTraits>,
    call: NestedToolCall,
    known: HostToolTraits,
)
    ensures
        emitted(Seq::empty(), Seq::empty()) == Seq::<ToolOutputBody>::empty(),
        emitted(calls.push(call), traits.push(known)) == if call.success
            && known.emits_output_on_success {
            emitted(calls, traits).push(call.output)
        } else {
            emitted(calls, traits)
        },
        finishing(Seq::empty(), Seq::empty()) == Seq::<NestedToolCall>::empty(),
        finishing(calls.push(call), traits.push(known)) == if call.success && known.turn_behavior
            == ToolTurnBehavior::FinishTurnOnSuccess {
            finishing(calls, traits).push(call)
        } else {
            finishing(calls, traits)
        },
{
    assert(calls.push(call).drop_last() =~= calls);
    assert(traits.push(known).drop_last() =~= traits);
}

/// The one call that would end the turn does so where it is not too large, and
/// its receipt holds the call's own identity, tool, output, and metadata.
pub proof fn law_the_only_call_is_selected(
    selection: TerminalToolSelection,
    call: NestedToolCall,
    limits: ReceiptLimits,
)
    requires
        selects(selection, seq![call], limits),
    ensures
        match receipt_fault(call.output, call.metadata, limits) {
            None => selection matches TerminalToolSelection::Selected(receipt) && receipt@.call_id
                == call.call_id && receipt@.tool == call.name && receipt@.output == call.output
                && receipt@.metadata == call.metadata,
            Some(error) => selection == TerminalToolSelection::Invalid(error),
        },
{
    reveal_with_fuel(first_call_fault, 3);
    assert(seq![call].skip(1) =~= Seq::empty());
}

/// One call that is too large spoils the selection, whichever it is; without
/// one, two calls leave it open.
pub proof fn law_faults_spoil_the_selection(
    selection: TerminalToolSelection,
    calls: Seq<NestedToolCall>,
    limits: ReceiptLimits,
    at: int,
)
    requires
        selects(selection, calls, limits),
        0 <= at < calls.len(),
    ensures
        receipt_fault(calls[at].output, calls[at].metadata, limits) is Some ==> selection
            is Invalid,
        selection is Invalid ==> exists|i: int|
            0 <= i < calls.len() && receipt_fault(
                (#[trigger] calls[i]).output,
                calls[i].metadata,
                limits,
            ) == Some(selection->Invalid_0),
        !(selection is Invalid) && calls.len() > 1 ==> selection is Ambiguous,
{
    lemma_first_call_fault(calls, limits, at);
}

/// A first fault is the fault of a call, and there is one where any call has
/// one.
proof fn lemma_first_call_fault(calls: Seq<NestedToolCall>, limits: ReceiptLimits, at: int)
    requires
        0 <= at < calls.len(),
    ensures
        receipt_fault(calls[at].output, calls[at].metadata, limits) is Some ==> first_call_fault(
            calls,
            limits,
        ) is Some,
        first_call_fault(calls, limits) matches Some(error) ==> exists|i: int|
            0 <= i < calls.len() && receipt_fault(
                (#[trigger] calls[i]).output,
                calls[i].metadata,
                limits,
            ) == Some(error),
    decreases calls.len(),
{
    let rest = calls.skip(1);
    if let Some(error) = receipt_fault(calls[0].output, calls[0].metadata, limits) {
        assert(receipt_fault(calls[0].output, calls[0].metadata, limits) == Some(error));
    } else if rest.len() > 0 {
        if at > 0 {
            lemma_first_call_fault(rest, limits, at - 1);
        } else {
            lemma_first_call_fault(rest, limits, 0);
        }
        if let Some(error) = first_call_fault(rest, limits) {
            let i = choose|i: int|
                0 <= i < rest.len() && receipt_fault(
                    (#[trigger] rest[i]).output,
                    rest[i].metadata,
                    limits,
                ) == Some(error);
            assert(calls[i + 1] == rest[i]);
        }
    }
}

/// Of two selections, one that is spoiled or that selects a call is kept beside
/// one that does not select.
pub proof fn law_a_selection_is_not_lost(
    first: TerminalToolSelection,
    second: TerminalToolSelection,
)
    ensures
        first.joined(second) is Unselected <==> first is Unselected && second is Unselected,
        first.joined(second) is Selected ==> first.joined(second) == first || first.joined(second)
            == second,
        first is Invalid ==> first.joined(second) == first,
        second is Invalid && !(first is Invalid) ==> first.joined(second) == second,
        first is Ambiguous && !(second is Invalid) ==> first.joined(second) is Ambiguous,
{
}

} // verus!
