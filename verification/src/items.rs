//! Items that a conversation with the provider consists of.
use crate::prompt::ImageDetail;
use crate::text;
use crate::text::{decimal_text, join3};
use std::sync::Arc;
use vstd::prelude::*;
use vstd::string::*;

verus! {

/// Author of a message.
#[derive(Clone, Copy, Debug, PartialEq, Eq, Structural)]
pub enum MessageRole {
    /// The user.
    User,
    /// The model.
    Assistant,
    /// The application's developer.
    Developer,
    /// The platform.
    System,
}

/// One part of a message.
#[derive(Debug)]
pub enum ContentItem {
    /// Text for the model.
    InputText {
        /// The text.
        text: String,
    },
    /// An image for the model.
    InputImage {
        /// Where the image is.
        image_url: String,
        /// Requested resolution.
        detail: Option<ImageDetail>,
    },
    /// Audio for the model.
    InputAudio {
        /// Where the audio is.
        audio_url: String,
    },
    /// Text of the model.
    OutputText {
        /// The text.
        text: String,
    },
}

/// One part of a tool's output.
#[derive(Debug)]
pub enum ToolOutputContent {
    /// Text.
    InputText {
        /// The text.
        text: String,
    },
    /// An image.
    InputImage {
        /// Where the image is.
        image_url: String,
        /// Requested resolution.
        detail: Option<ImageDetail>,
    },
    /// Audio.
    InputAudio {
        /// Where the audio is.
        audio_url: String,
    },
}

impl Clone for ToolOutputContent {
    fn clone(&self) -> (r: Self)
        ensures
            r == *self,
    {
        match self {
            ToolOutputContent::InputText { text } => ToolOutputContent::InputText {
                text: text.clone(),
            },
            ToolOutputContent::InputImage { image_url, detail } => ToolOutputContent::InputImage {
                image_url: image_url.clone(),
                detail: *detail,
            },
            ToolOutputContent::InputAudio { audio_url } => ToolOutputContent::InputAudio {
                audio_url: audio_url.clone(),
            },
        }
    }
}

/// Model-visible output of a tool.
#[derive(Debug)]
pub enum ToolOutputBody {
    /// One text.
    Text(String),
    /// Ordered parts.
    Content(Arc<Vec<ToolOutputContent>>),
}

impl Clone for ToolOutputBody {
    fn clone(&self) -> (r: Self)
        ensures
            r == *self,
    {
        match self {
            ToolOutputBody::Text(text) => ToolOutputBody::Text(text.clone()),
            ToolOutputBody::Content(items) => ToolOutputBody::Content(items.clone()),
        }
    }
}

/// A tool that the model may call.
#[derive(Debug)]
pub enum ToolDefinition {
    /// A tool that takes a JSON object.
    Function {
        /// Registry name.
        name: String,
        /// What the tool does.
        description: String,
        /// JSON Schema of the object.
        parameters: String,
    },
    /// A tool that takes free text.
    Custom {
        /// Registry name.
        name: String,
        /// What the tool does.
        description: String,
        /// Grammar of the text.
        format: String,
    },
    /// The provider's own tool search.
    ToolSearch {
        /// What the search covers.
        description: String,
    },
}

/// Name under which the provider's tool search is known.
pub const TOOL_SEARCH_NAME: &'static str = "tool_search";

impl Clone for ToolDefinition {
    fn clone(&self) -> (r: Self)
        ensures
            r == *self,
    {
        match self {
            ToolDefinition::Function { name, description, parameters } => {
                ToolDefinition::Function {
                    name: name.clone(),
                    description: description.clone(),
                    parameters: parameters.clone(),
                }
            },
            ToolDefinition::Custom { name, description, format } => ToolDefinition::Custom {
                name: name.clone(),
                description: description.clone(),
                format: format.clone(),
            },
            ToolDefinition::ToolSearch { description } => ToolDefinition::ToolSearch {
                description: description.clone(),
            },
        }
    }
}

impl ToolDefinition {
    /// The registry name of a tool.
    pub open spec fn named(self) -> Seq<char> {
        match self {
            ToolDefinition::Function { name, .. } => name@,
            ToolDefinition::Custom { name, .. } => name@,
            ToolDefinition::ToolSearch { .. } => TOOL_SEARCH_NAME@,
        }
    }

    /// What a tool says about itself.
    pub open spec fn described(self) -> Seq<char> {
        match self {
            ToolDefinition::Function { description, .. } => description@,
            ToolDefinition::Custom { description, .. } => description@,
            ToolDefinition::ToolSearch { description } => description@,
        }
    }

    /// Returns the registry name.
    pub fn name(&self) -> (r: &str)
        ensures
            r@ == self.named(),
    {
        match self {
            ToolDefinition::Function { name, .. } => name.as_str(),
            ToolDefinition::Custom { name, .. } => name.as_str(),
            ToolDefinition::ToolSearch { .. } => TOOL_SEARCH_NAME,
        }
    }

    /// Returns what the tool says about itself.
    pub fn description(&self) -> (r: &str)
        ensures
            r@ == self.described(),
    {
        match self {
            ToolDefinition::Function { description, .. } => description.as_str(),
            ToolDefinition::Custom { description, .. } => description.as_str(),
            ToolDefinition::ToolSearch { description } => description.as_str(),
        }
    }
}

/// Kind of an item, as its identity names it.
#[derive(Clone, Copy, Debug, PartialEq, Eq, Structural)]
pub enum ItemKind {
    /// A message.
    Message,
    /// The model's reasoning.
    Reasoning,
    /// A call of a function tool.
    FunctionCall,
    /// The output of a function tool.
    FunctionCallOutput,
    /// A call of a free-text tool.
    CustomToolCall,
    /// The output of a free-text tool.
    CustomToolCallOutput,
    /// A call of the provider's shell tool.
    LocalShellCall,
    /// A call of the provider's tool search.
    ToolSearchCall,
    /// The tools that a search found.
    ToolSearchOutput,
    /// Tools that the model may call.
    AdditionalTools,
    /// What stands for a compacted part.
    Compaction,
}

impl ItemKind {
    /// What identities of the kind start with.
    pub open spec fn prefix(self) -> Seq<char> {
        match self {
            ItemKind::Message => "msg"@,
            ItemKind::Reasoning => "rs"@,
            ItemKind::FunctionCall => "fc"@,
            ItemKind::FunctionCallOutput => "fco"@,
            ItemKind::CustomToolCall => "ctc"@,
            ItemKind::CustomToolCallOutput => "ctco"@,
            ItemKind::LocalShellCall => "lsh"@,
            ItemKind::ToolSearchCall => "tsc"@,
            ItemKind::ToolSearchOutput => "tso"@,
            ItemKind::AdditionalTools => "at"@,
            ItemKind::Compaction => "cmp"@,
        }
    }

    /// Returns what identities of the kind start with.
    pub fn as_str(self) -> (r: &'static str)
        ensures
            r@ == self.prefix(),
    {
        match self {
            ItemKind::Message => "msg",
            ItemKind::Reasoning => "rs",
            ItemKind::FunctionCall => "fc",
            ItemKind::FunctionCallOutput => "fco",
            ItemKind::CustomToolCall => "ctc",
            ItemKind::CustomToolCallOutput => "ctco",
            ItemKind::LocalShellCall => "lsh",
            ItemKind::ToolSearchCall => "tsc",
            ItemKind::ToolSearchOutput => "tso",
            ItemKind::AdditionalTools => "at",
            ItemKind::Compaction => "cmp",
        }
    }
}

/// Identity of an item.
#[derive(Debug)]
pub enum ResponseItemId {
    /// An identity that was given.
    Given(String),
    /// An identity made of a kind and a suffix.
    Made {
        /// Kind of the item.
        prefix: &'static str,
        /// What follows the kind.
        suffix: String,
    },
    /// An identity that a conversation gave.
    Numbered {
        /// Kind of the item.
        kind: ItemKind,
        /// What no other conversation gives.
        seed: String,
        /// What the conversation gives no other item.
        number: u64,
    },
}

impl Clone for ResponseItemId {
    fn clone(&self) -> (r: Self)
        ensures
            r == *self,
    {
        match self {
            ResponseItemId::Given(text) => ResponseItemId::Given(text.clone()),
            ResponseItemId::Made { prefix, suffix } => ResponseItemId::Made {
                prefix: *prefix,
                suffix: suffix.clone(),
            },
            ResponseItemId::Numbered { kind, seed, number } => ResponseItemId::Numbered {
                kind: *kind,
                seed: seed.clone(),
                number: *number,
            },
        }
    }
}

impl ResponseItemId {
    /// Whether nothing identifies the item.
    pub open spec fn blank_id(self) -> bool {
        self matches ResponseItemId::Given(text) && text@.len() == 0
    }

    /// Makes an identity from a kind and a suffix.
    pub fn with_suffix(prefix: &'static str, suffix: &str) -> (r: Self)
        ensures
            r matches ResponseItemId::Made { prefix: kind, suffix: rest } && kind@ == prefix@
                && rest@ == suffix@,
    {
        ResponseItemId::Made { prefix, suffix: suffix.to_owned() }
    }

    /// Returns whether nothing identifies the item.
    pub fn is_empty(&self) -> (r: bool)
        ensures
            r == self.blank_id(),
    {
        match self {
            ResponseItemId::Given(text) => text.as_str().is_empty(),
            ResponseItemId::Made { .. } => false,
            ResponseItemId::Numbered { .. } => false,
        }
    }

    /// How the identity is written.
    pub open spec fn written(self) -> Seq<char> {
        match self {
            ResponseItemId::Given(text) => text@,
            ResponseItemId::Made { prefix, suffix } => prefix@ + "_"@ + suffix@,
            ResponseItemId::Numbered { kind, seed, number } => kind.prefix() + "_"@ + (seed@ + "-"@
                + text::decimal_digits(number as nat)),
        }
    }

    /// Writes the identity.
    pub fn text(&self) -> (r: String)
        ensures
            r@ == self.written(),
    {
        match self {
            ResponseItemId::Given(text) => text.clone(),
            ResponseItemId::Made { prefix, suffix } => join3(*prefix, "_", suffix.as_str()),
            ResponseItemId::Numbered { kind, seed, number } => {
                let digits = decimal_text(*number);
                let rest = join3(seed.as_str(), "-", digits.as_str());
                join3(kind.as_str(), "_", rest.as_str())
            },
        }
    }
}

/// One item of a conversation.
#[derive(Debug)]
#[allow(inconsistent_fields)]
pub enum ResponseItem {
    /// A message.
    Message {
        /// Identity.
        id: Option<ResponseItemId>,
        /// Author.
        role: MessageRole,
        /// Parts.
        content: Arc<Vec<ContentItem>>,
    },
    /// The model's reasoning.
    Reasoning {
        /// Identity.
        id: Option<ResponseItemId>,
        /// Summaries.
        summary: Arc<Vec<String>>,
        /// The reasoning itself, encrypted.
        encrypted_content: Option<String>,
    },
    /// A call of a function tool.
    FunctionCall {
        /// Identity.
        id: Option<ResponseItemId>,
        /// Identity of the call.
        call_id: String,
        /// Tool.
        name: String,
        /// Namespace of the tool.
        namespace: Option<String>,
        /// JSON arguments.
        arguments: String,
    },
    /// The output of a function tool.
    FunctionCallOutput {
        /// Identity.
        id: Option<ResponseItemId>,
        /// Identity of the call.
        call_id: String,
        /// The output.
        output: ToolOutputBody,
    },
    /// A call of a free-text tool.
    CustomToolCall {
        /// Identity.
        id: Option<ResponseItemId>,
        /// Identity of the call.
        call_id: String,
        /// Tool.
        name: String,
        /// Input text.
        input: String,
    },
    /// The output of a free-text tool.
    CustomToolCallOutput {
        /// Identity.
        id: Option<ResponseItemId>,
        /// Identity of the call.
        call_id: String,
        /// Tool that gave an output of its own accord; none for an answer.
        name: Option<String>,
        /// The output.
        output: ToolOutputBody,
    },
    /// A call of the provider's shell tool.
    LocalShellCall {
        /// Identity.
        id: Option<ResponseItemId>,
        /// The call as JSON.
        call: String,
    },
    /// A call of the provider's tool search.
    ToolSearchCall {
        /// Identity.
        id: Option<ResponseItemId>,
        /// The call as JSON.
        call: String,
    },
    /// The tools that a search found.
    ToolSearchOutput {
        /// Identity.
        id: Option<ResponseItemId>,
        /// Identity of the call.
        call_id: String,
        /// Found tools as JSON.
        tools: Arc<Vec<String>>,
    },
    /// Tools that the model may call.
    AdditionalTools {
        /// Identity.
        id: Option<ResponseItemId>,
        /// The tools.
        tools: Arc<Vec<ToolDefinition>>,
    },
    /// What stands for a compacted part of the conversation.
    Compaction {
        /// Identity.
        id: Option<ResponseItemId>,
        /// The compacted part, encrypted.
        encrypted_content: String,
    },
}

/// Copies an optional string.
pub fn clone_text(value: &Option<String>) -> (r: Option<String>)
    ensures
        r == *value,
{
    match value {
        Some(text) => Some(text.clone()),
        None => None,
    }
}

impl ResponseItem {
    /// The identity of an item.
    pub open spec fn identity(self) -> Option<ResponseItemId> {
        match self {
            ResponseItem::Message { id, .. } => id,
            ResponseItem::Reasoning { id, .. } => id,
            ResponseItem::FunctionCall { id, .. } => id,
            ResponseItem::FunctionCallOutput { id, .. } => id,
            ResponseItem::CustomToolCall { id, .. } => id,
            ResponseItem::CustomToolCallOutput { id, .. } => id,
            ResponseItem::LocalShellCall { id, .. } => id,
            ResponseItem::ToolSearchCall { id, .. } => id,
            ResponseItem::ToolSearchOutput { id, .. } => id,
            ResponseItem::AdditionalTools { id, .. } => id,
            ResponseItem::Compaction { id, .. } => id,
        }
    }

    /// The kind of an item.
    pub open spec fn kind(&self) -> ItemKind {
        match self {
            ResponseItem::Message { .. } => ItemKind::Message,
            ResponseItem::Reasoning { .. } => ItemKind::Reasoning,
            ResponseItem::FunctionCall { .. } => ItemKind::FunctionCall,
            ResponseItem::FunctionCallOutput { .. } => ItemKind::FunctionCallOutput,
            ResponseItem::CustomToolCall { .. } => ItemKind::CustomToolCall,
            ResponseItem::CustomToolCallOutput { .. } => ItemKind::CustomToolCallOutput,
            ResponseItem::LocalShellCall { .. } => ItemKind::LocalShellCall,
            ResponseItem::ToolSearchCall { .. } => ItemKind::ToolSearchCall,
            ResponseItem::ToolSearchOutput { .. } => ItemKind::ToolSearchOutput,
            ResponseItem::AdditionalTools { .. } => ItemKind::AdditionalTools,
            ResponseItem::Compaction { .. } => ItemKind::Compaction,
        }
    }

    /// Whether something identifies the item.
    pub open spec fn has_identity(self) -> bool {
        self.identity() is Some && !self.identity()->0.blank_id()
    }

    /// The same item under another identity.
    pub open spec fn identified(self, new: Option<ResponseItemId>) -> ResponseItem {
        match self {
            ResponseItem::Message { role, content, .. } => ResponseItem::Message {
                id: new,
                role,
                content,
            },
            ResponseItem::Reasoning { summary, encrypted_content, .. } => {
                ResponseItem::Reasoning { id: new, summary, encrypted_content }
            },
            ResponseItem::FunctionCall { call_id, name, namespace, arguments, .. } => {
                ResponseItem::FunctionCall { id: new, call_id, name, namespace, arguments }
            },
            ResponseItem::FunctionCallOutput { call_id, output, .. } => {
                ResponseItem::FunctionCallOutput { id: new, call_id, output }
            },
            ResponseItem::CustomToolCall { call_id, name, input, .. } => {
                ResponseItem::CustomToolCall { id: new, call_id, name, input }
            },
            ResponseItem::CustomToolCallOutput { call_id, name, output, .. } => {
                ResponseItem::CustomToolCallOutput { id: new, call_id, name, output }
            },
            ResponseItem::LocalShellCall { call, .. } => ResponseItem::LocalShellCall {
                id: new,
                call,
            },
            ResponseItem::ToolSearchCall { call, .. } => ResponseItem::ToolSearchCall {
                id: new,
                call,
            },
            ResponseItem::ToolSearchOutput { call_id, tools, .. } => {
                ResponseItem::ToolSearchOutput { id: new, call_id, tools }
            },
            ResponseItem::AdditionalTools { tools, .. } => ResponseItem::AdditionalTools {
                id: new,
                tools,
            },
            ResponseItem::Compaction { encrypted_content, .. } => ResponseItem::Compaction {
                id: new,
                encrypted_content,
            },
        }
    }

    /// Whether an item is a message of the user.
    pub open spec fn from_user(self) -> bool {
        self matches ResponseItem::Message { role, .. } && role == MessageRole::User
    }

    /// Whether an item is a message of the developer.
    pub open spec fn from_developer(self) -> bool {
        self matches ResponseItem::Message { role, .. } && role == MessageRole::Developer
    }

    /// Whether an item asks for a tool.
    pub open spec fn calls_tool(self) -> bool {
        ||| self is FunctionCall
        ||| self is CustomToolCall
        ||| self is LocalShellCall
        ||| self is ToolSearchCall
    }

    /// Creates a message without an identity.
    pub fn message(role: MessageRole, content: Vec<ContentItem>) -> (r: Self)
        ensures
            r matches ResponseItem::Message { id, role: author, content: parts } && id is None
                && author == role && parts@ == content@,
    {
        ResponseItem::Message { id: None, role, content: Arc::new(content) }
    }

    /// Lists tools without an identity.
    pub fn additional_tools(tools: Vec<ToolDefinition>) -> (r: Self)
        ensures
            r matches ResponseItem::AdditionalTools { id, tools: listed } && id is None && listed@
                == tools@,
    {
        ResponseItem::AdditionalTools { id: None, tools: Arc::new(tools) }
    }

    /// Returns whether the item is a message of the user.
    pub fn is_user_message(&self) -> (r: bool)
        ensures
            r == self.from_user(),
    {
        match self {
            ResponseItem::Message { role, .. } => *role == MessageRole::User,
            _ => false,
        }
    }

    /// Returns whether the item is a message of the developer.
    pub fn is_developer_message(&self) -> (r: bool)
        ensures
            r == self.from_developer(),
    {
        match self {
            ResponseItem::Message { role, .. } => *role == MessageRole::Developer,
            _ => false,
        }
    }

    /// Returns whether the item asks for a tool.
    pub fn is_tool_call(&self) -> (r: bool)
        ensures
            r == self.calls_tool(),
    {
        match self {
            ResponseItem::FunctionCall { .. }
            | ResponseItem::CustomToolCall { .. }
            | ResponseItem::LocalShellCall { .. }
            | ResponseItem::ToolSearchCall { .. } => true,
            _ => false,
        }
    }

    /// Returns the kind.
    pub fn item_kind(&self) -> (r: ItemKind)
        ensures
            r == self.kind(),
    {
        match self {
            ResponseItem::Message { .. } => ItemKind::Message,
            ResponseItem::Reasoning { .. } => ItemKind::Reasoning,
            ResponseItem::FunctionCall { .. } => ItemKind::FunctionCall,
            ResponseItem::FunctionCallOutput { .. } => ItemKind::FunctionCallOutput,
            ResponseItem::CustomToolCall { .. } => ItemKind::CustomToolCall,
            ResponseItem::CustomToolCallOutput { .. } => ItemKind::CustomToolCallOutput,
            ResponseItem::LocalShellCall { .. } => ItemKind::LocalShellCall,
            ResponseItem::ToolSearchCall { .. } => ItemKind::ToolSearchCall,
            ResponseItem::ToolSearchOutput { .. } => ItemKind::ToolSearchOutput,
            ResponseItem::AdditionalTools { .. } => ItemKind::AdditionalTools,
            ResponseItem::Compaction { .. } => ItemKind::Compaction,
        }
    }

    /// Returns the identity.
    pub fn id(&self) -> (r: Option<&ResponseItemId>)
        ensures
            match r {
                Some(id) => self.identity() == Some(*id),
                None => self.identity() is None,
            },
    {
        match self {
            ResponseItem::Message { id, .. } => id.as_ref(),
            ResponseItem::Reasoning { id, .. } => id.as_ref(),
            ResponseItem::FunctionCall { id, .. } => id.as_ref(),
            ResponseItem::FunctionCallOutput { id, .. } => id.as_ref(),
            ResponseItem::CustomToolCall { id, .. } => id.as_ref(),
            ResponseItem::CustomToolCallOutput { id, .. } => id.as_ref(),
            ResponseItem::LocalShellCall { id, .. } => id.as_ref(),
            ResponseItem::ToolSearchCall { id, .. } => id.as_ref(),
            ResponseItem::ToolSearchOutput { id, .. } => id.as_ref(),
            ResponseItem::AdditionalTools { id, .. } => id.as_ref(),
            ResponseItem::Compaction { id, .. } => id.as_ref(),
        }
    }

    /// Copies the item under another identity.
    pub fn with_id(&self, new: Option<ResponseItemId>) -> (r: Self)
        ensures
            r == self.identified(new),
    {
        match self {
            ResponseItem::Message { role, content, .. } => ResponseItem::Message {
                id: new,
                role: *role,
                content: content.clone(),
            },
            ResponseItem::Reasoning { summary, encrypted_content, .. } => {
                ResponseItem::Reasoning {
                    id: new,
                    summary: summary.clone(),
                    encrypted_content: clone_text(encrypted_content),
                }
            },
            ResponseItem::FunctionCall { call_id, name, namespace, arguments, .. } => {
                ResponseItem::FunctionCall {
                    id: new,
                    call_id: call_id.clone(),
                    name: name.clone(),
                    namespace: clone_text(namespace),
                    arguments: arguments.clone(),
                }
            },
            ResponseItem::FunctionCallOutput { call_id, output, .. } => {
                ResponseItem::FunctionCallOutput {
                    id: new,
                    call_id: call_id.clone(),
                    output: output.clone(),
                }
            },
            ResponseItem::CustomToolCall { call_id, name, input, .. } => {
                ResponseItem::CustomToolCall {
                    id: new,
                    call_id: call_id.clone(),
                    name: name.clone(),
                    input: input.clone(),
                }
            },
            ResponseItem::CustomToolCallOutput { call_id, name, output, .. } => {
                ResponseItem::CustomToolCallOutput {
                    id: new,
                    call_id: call_id.clone(),
                    name: clone_text(name),
                    output: output.clone(),
                }
            },
            ResponseItem::LocalShellCall { call, .. } => ResponseItem::LocalShellCall {
                id: new,
                call: call.clone(),
            },
            ResponseItem::ToolSearchCall { call, .. } => ResponseItem::ToolSearchCall {
                id: new,
                call: call.clone(),
            },
            ResponseItem::ToolSearchOutput { call_id, tools, .. } => {
                ResponseItem::ToolSearchOutput {
                    id: new,
                    call_id: call_id.clone(),
                    tools: tools.clone(),
                }
            },
            ResponseItem::AdditionalTools { tools, .. } => ResponseItem::AdditionalTools {
                id: new,
                tools: tools.clone(),
            },
            ResponseItem::Compaction { encrypted_content, .. } => ResponseItem::Compaction {
                id: new,
                encrypted_content: encrypted_content.clone(),
            },
        }
    }
}

/// A conversation.
pub type History = Vec<Arc<ResponseItem>>;

/// Copies a conversation. The items are shared.
pub fn clone_history(history: &Vec<Arc<ResponseItem>>) -> (r: Vec<Arc<ResponseItem>>)
    ensures
        r@ == history@,
{
    let mut out: Vec<Arc<ResponseItem>> = Vec::new();
    append_items(&mut out, history);
    proof {
        assert(out@ =~= history@);
    }
    out
}

/// Appends shared items to a conversation.
pub fn append_items(target: &mut Vec<Arc<ResponseItem>>, items: &Vec<Arc<ResponseItem>>)
    ensures
        final(target)@ == old(target)@ + items@,
{
    let mut i: usize = 0;
    while i < items.len()
        invariant
            i <= items@.len(),
            target@ == old(target)@ + items@.take(i as int),
        decreases items@.len() - i,
    {
        target.push(items[i].clone());
        proof {
            assert(target@ =~= old(target)@ + items@.take(i as int + 1));
        }
        i = i + 1;
    }
    proof {
        assert(items@.take(items@.len() as int) =~= items@);
    }
}

/// The model's text in the parts of a message.
pub open spec fn parts_text(parts: Seq<ContentItem>) -> Seq<char>
    decreases parts.len(),
{
    if parts.len() == 0 {
        Seq::empty()
    } else {
        parts_text(parts.drop_last()) + match parts.last() {
            ContentItem::OutputText { text } => text@,
            _ => Seq::empty(),
        }
    }
}

/// The model's text in the messages among items.
pub open spec fn items_text(items: Seq<Arc<ResponseItem>>) -> Seq<char>
    decreases items.len(),
{
    if items.len() == 0 {
        Seq::empty()
    } else {
        items_text(items.drop_last()) + match *items.last() {
            ResponseItem::Message { content, .. } => parts_text(content@),
            _ => Seq::empty(),
        }
    }
}

/// Concatenates the model's text in the messages among items.
pub fn output_text(items: &Vec<Arc<ResponseItem>>) -> (r: String)
    ensures
        r@ == items_text(items@),
{
    let mut out = String::new();
    let mut i: usize = 0;
    while i < items.len()
        invariant
            i <= items@.len(),
            out@ == items_text(items@.take(i as int)),
        decreases items@.len() - i,
    {
        proof {
            assert(items@.take(i as int + 1).drop_last() =~= items@.take(i as int));
            assert(items@.take(i as int + 1).last() == items@[i as int]);
        }
        let ghost before = out@;
        match &*items[i] {
            ResponseItem::Message { id: _, role: _, content } => {
                let mut j: usize = 0;
                proof {
                    assert(before + parts_text(content@.take(0)) =~= before);
                }
                while j < content.len()
                    invariant
                        j <= content@.len(),
                        out@ == before + parts_text(content@.take(j as int)),
                    decreases content@.len() - j,
                {
                    proof {
                        assert(content@.take(j as int + 1).drop_last() =~= content@.take(j as int));
                        assert(content@.take(j as int + 1).last() == content@[j as int]);
                    }
                    match &content[j] {
                        ContentItem::OutputText { text } => {
                            out.append(text.as_str());
                            proof {
                                assert(out@ =~= before + parts_text(content@.take(j as int + 1)));
                            }
                        },
                        _ => {
                            proof {
                                assert(parts_text(content@.take(j as int + 1)) =~= parts_text(
                                    content@.take(j as int),
                                ));
                            }
                        },
                    }
                    j = j + 1;
                }
                proof {
                    assert(content@.take(content@.len() as int) =~= content@);
                }
            },
            _ => {
                proof {
                    assert(items_text(items@.take(i as int + 1)) =~= before);
                }
            },
        }
        i = i + 1;
    }
    proof {
        assert(items@.take(items@.len() as int) =~= items@);
    }
    out
}

/// The items among others that ask for a tool, in order.
pub open spec fn tool_calls_of(items: Seq<Arc<ResponseItem>>) -> Seq<Arc<ResponseItem>> {
    items.filter(|item: Arc<ResponseItem>| item.calls_tool())
}

/// Selects the items that ask for a tool.
pub fn tool_calls(items: &Vec<Arc<ResponseItem>>) -> (r: Vec<Arc<ResponseItem>>)
    ensures
        r@ == tool_calls_of(items@),
{
    let mut out: Vec<Arc<ResponseItem>> = Vec::new();
    let mut i: usize = 0;
    proof {
        reveal(Seq::filter);
        assert(items@.take(0) =~= Seq::empty());
        assert(out@ =~= tool_calls_of(items@.take(0)));
    }
    while i < items.len()
        invariant
            i <= items@.len(),
            out@ == tool_calls_of(items@.take(i as int)),
        decreases items@.len() - i,
    {
        proof {
            reveal(Seq::filter);
            assert(items@.take(i as int + 1).drop_last() =~= items@.take(i as int));
            assert(items@.take(i as int + 1).last() == items@[i as int]);
        }
        if items[i].is_tool_call() {
            out.push(items[i].clone());
        }
        i = i + 1;
    }
    proof {
        assert(items@.take(items@.len() as int) =~= items@);
    }
    out
}

/// Whether two items say the same, whatever identifies them.
pub open spec fn says_the_same(one: ResponseItem, other: ResponseItem) -> bool {
    match one {
        ResponseItem::Message { role, content, .. } => other matches ResponseItem::Message {
            role: author,
            content: parts,
            ..
        } && role == author && content == parts,
        ResponseItem::Reasoning { summary, encrypted_content, .. } => other
            matches ResponseItem::Reasoning { summary: told, encrypted_content: hidden, .. }
            && summary == told && encrypted_content == hidden,
        ResponseItem::FunctionCall { call_id, name, namespace, arguments, .. } => other
            matches ResponseItem::FunctionCall {
            call_id: call,
            name: tool,
            namespace: space,
            arguments: given,
            ..
        } && call_id == call && name == tool && namespace == space && arguments == given,
        ResponseItem::FunctionCallOutput { call_id, output, .. } => other
            matches ResponseItem::FunctionCallOutput { call_id: call, output: body, .. } && call_id
            == call && output == body,
        ResponseItem::CustomToolCall { call_id, name, input, .. } => other
            matches ResponseItem::CustomToolCall { call_id: call, name: tool, input: given, .. }
            && call_id == call && name == tool && input == given,
        ResponseItem::CustomToolCallOutput { call_id, name, output, .. } => other
            matches ResponseItem::CustomToolCallOutput {
            call_id: call,
            name: tool,
            output: body,
            ..
        } && call_id == call && name == tool && output == body,
        ResponseItem::LocalShellCall { call, .. } => other matches ResponseItem::LocalShellCall {
            call: told,
            ..
        } && call == told,
        ResponseItem::ToolSearchCall { call, .. } => other matches ResponseItem::ToolSearchCall {
            call: told,
            ..
        } && call == told,
        ResponseItem::ToolSearchOutput { call_id, tools, .. } => other
            matches ResponseItem::ToolSearchOutput { call_id: call, tools: found, .. } && call_id
            == call && tools == found,
        ResponseItem::AdditionalTools { tools, .. } => other
            matches ResponseItem::AdditionalTools { tools: listed, .. } && tools == listed,
        ResponseItem::Compaction { encrypted_content, .. } => other
            matches ResponseItem::Compaction { encrypted_content: hidden, .. } && encrypted_content
            == hidden,
    }
}

/// Giving an item an identity changes nothing that it says: the identity is the
/// given one, and everything else is as it was.
pub proof fn law_an_identity_changes_no_content(
    item: ResponseItem,
    first: Option<ResponseItemId>,
    second: Option<ResponseItemId>,
)
    ensures
        says_the_same(item.identified(first), item),
        item.identified(first).identity() == first,
        item.identified(first).identified(second) == item.identified(second),
        item.identified(item.identity()) == item,
        item.identified(first).kind() == item.kind(),
        item.has_identity() <==> item.identity() is Some && item.identity()->0.written().len() > 0,
{
    reveal_strlit("_");
    reveal_strlit("-");
}

/// The text of messages is that of their output parts alone, in order: adding a
/// part or an item adds its own text at the end.
pub proof fn law_text_is_read_in_order(
    parts: Seq<ContentItem>,
    part: ContentItem,
    items: Seq<Arc<ResponseItem>>,
    item: Arc<ResponseItem>,
)
    ensures
        parts_text(seq![]) == Seq::<char>::empty(),
        parts_text(parts.push(part)) == match part {
            ContentItem::OutputText { text } => parts_text(parts) + text@,
            _ => parts_text(parts),
        },
        items_text(seq![]) == Seq::<char>::empty(),
        items_text(items.push(item)) == match *item {
            ResponseItem::Message { content, .. } => items_text(items) + parts_text(content@),
            _ => items_text(items),
        },
{
    assert(parts.push(part).drop_last() =~= parts);
    assert(items.push(item).drop_last() =~= items);
    assert(parts_text(parts) + Seq::<char>::empty() =~= parts_text(parts));
    assert(items_text(items) + Seq::<char>::empty() =~= items_text(items));
}

/// The items that ask for a tool are the four kinds of calls, each kept in its
/// place: one more call is one more at the end, and anything else changes
/// nothing.
pub proof fn law_calls_are_selected_in_order(items: Seq<Arc<ResponseItem>>, item: Arc<ResponseItem>)
    ensures
        tool_calls_of(seq![]) == Seq::<Arc<ResponseItem>>::empty(),
        tool_calls_of(items.push(item)) == match *item {
            ResponseItem::FunctionCall { .. } | ResponseItem::CustomToolCall { .. }
            | ResponseItem::LocalShellCall { .. } | ResponseItem::ToolSearchCall { .. } => {
                tool_calls_of(items).push(item)
            },
            _ => tool_calls_of(items),
        },
{
    reveal(Seq::filter);
    items.lemma_filter_push(item, |item: Arc<ResponseItem>| item.calls_tool());
}

/// A tool of the agent goes by the name it was given, the provider's own search
/// by its fixed one; each says about itself what it was described with.
pub proof fn law_tools_go_by_their_names(definition: ToolDefinition)
    ensures
        definition matches ToolDefinition::Function { name, description, .. }
            ==> definition.named() == name@ && definition.described() == description@,
        definition matches ToolDefinition::Custom { name, description, .. }
            ==> definition.named() == name@ && definition.described() == description@,
        definition matches ToolDefinition::ToolSearch { description } ==> definition.named()
            == TOOL_SEARCH_NAME@ && definition.described() == description@,
{
}

} // verus!
