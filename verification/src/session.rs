//! A managed conversation with the provider.
//!
//! The session owns the history and decides what each request carries and what
//! each reply changes. Requests are sent, and replies received, outside.
use crate::config::Thinking;
use crate::conversation;
use crate::conversation::retain;
use crate::items::{
    append_items, clone_history, clone_text, ContentItem, MessageRole, ResponseItem,
    ResponseItemId, ToolDefinition,
};
use crate::pricing;
use crate::response::{CompletedCompaction, CompletedResponse, ResponseCheckpoint, ResponseError};
use crate::service::{ResponsesOutput, ResponsesServiceResponse};
use crate::session_id;
use crate::session_id::SessionId;
use crate::text;
use crate::text::is_blank;
use std::sync::Arc;
use vstd::prelude::*;
use vstd::string::*;

verus! {

/// Invalid managed-session construction.
#[derive(Clone, Copy, Debug, PartialEq, Eq, Structural)]
pub enum SessionBuildError {
    /// Stable developer instructions were empty.
    EmptyInstructions,
    /// The explicit prompt-cache identity was empty.
    EmptyPromptCacheKey,
}

impl SessionBuildError {
    /// Describes the error.
    pub fn message(self) -> (r: &'static str)
        ensures
            r@ == match self {
                SessionBuildError::EmptyInstructions =>
                    "OpenAI session instructions must not be empty"@,
                SessionBuildError::EmptyPromptCacheKey =>
                    "OpenAI prompt cache key must not be empty"@,
            },
    {
        match self {
            SessionBuildError::EmptyInstructions => "OpenAI session instructions must not be empty",
            SessionBuildError::EmptyPromptCacheKey => "OpenAI prompt cache key must not be empty",
        }
    }
}

/// Whether an identity is the fixed one of the developer's instructions.
pub open spec fn instruction_id(id: ResponseItemId) -> bool {
    id matches ResponseItemId::Made { prefix, suffix } && prefix@ == "msg"@ && suffix@
        == "nanocodex-instructions"@
}

/// The request prefix of a session: the tools without an identity, and the
/// instructions as the developer's message under a fixed identity.
pub open spec fn session_prefix(
    prefix: Seq<Arc<ResponseItem>>,
    tools: Seq<ToolDefinition>,
    instructions: Seq<char>,
) -> bool {
    &&& prefix.len() == 2
    &&& *prefix[0] matches ResponseItem::AdditionalTools { id, tools: listed } && id is None
        && listed@ == tools
    &&& *prefix[1] matches ResponseItem::Message { id, role, content } && id is Some
        && instruction_id(id->0) && role == MessageRole::Developer && text_only(
        content@,
        instructions,
    )
}

/// Whether content is one piece of text.
pub open spec fn text_only(content: Seq<ContentItem>, expected: Seq<char>) -> bool {
    &&& content.len() == 1
    &&& content[0] matches ContentItem::InputText { text } && text@ == expected
}

/// Estimated tokens of the provider's context. The estimate depends on whether
/// the provider's own count of a response takes in its reasoning.
#[derive(Clone, Copy, Debug, PartialEq, Eq, Structural)]
pub struct ContextEstimate {
    /// Where it does.
    pub with_server_reasoning: u64,
    /// Where it does not.
    pub without_server_reasoning: u64,
}

/// Builder for one instruction-bound managed session.
pub struct SessionBuilder {
    instructions: String,
    session_id: Option<SessionId>,
    prompt_cache_key: Option<String>,
    tools: Vec<ToolDefinition>,
    thinking: Thinking,
    fast_mode: bool,
}

/// What a session builder was given.
#[verifier::ext_equal]
pub struct SessionBuilderView {
    /// Developer instructions.
    pub instructions: Seq<char>,
    /// Explicit identity.
    pub session_id: Option<SessionId>,
    /// Explicit cache key.
    pub prompt_cache_key: Option<Seq<char>>,
    /// Tools.
    pub tools: Seq<ToolDefinition>,
    /// Effort.
    pub thinking: Thinking,
    /// Processing mode.
    pub fast_mode: bool,
}

impl SessionBuilderView {
    /// A builder with instructions and nothing else chosen.
    pub open spec fn initial(instructions: Seq<char>, thinking: Thinking, fast_mode: bool) -> Self {
        SessionBuilderView {
            instructions,
            session_id: None,
            prompt_cache_key: None,
            tools: Seq::empty(),
            thinking,
            fast_mode,
        }
    }
}

impl View for SessionBuilder {
    type V = SessionBuilderView;

    closed spec fn view(&self) -> SessionBuilderView {
        SessionBuilderView {
            instructions: self.instructions@,
            session_id: self.session_id,
            prompt_cache_key: match self.prompt_cache_key {
                Some(key) => Some(key@),
                None => None,
            },
            tools: self.tools@,
            thinking: self.thinking,
            fast_mode: self.fast_mode,
        }
    }
}

impl Clone for SessionBuilder {
    fn clone(&self) -> (r: Self)
        ensures
            r@ == self@,
    {
        let mut tools: Vec<ToolDefinition> = Vec::new();
        let mut i: usize = 0;
        while i < self.tools.len()
            invariant
                i <= self.tools@.len(),
                tools@ == self.tools@.take(i as int),
            decreases self.tools@.len() - i,
        {
            tools.push(self.tools[i].clone());
            proof {
                assert(tools@ =~= self.tools@.take(i as int + 1));
            }
            i = i + 1;
        }
        proof {
            assert(self.tools@.take(self.tools@.len() as int) =~= self.tools@);
        }
        SessionBuilder {
            instructions: self.instructions.clone(),
            session_id: self.session_id,
            prompt_cache_key: clone_text(&self.prompt_cache_key),
            tools,
            thinking: self.thinking,
            fast_mode: self.fast_mode,
        }
    }
}

impl SessionBuilder {
    /// Starts with instructions and nothing else chosen.
    pub fn new(instructions: &str, thinking: Thinking, fast_mode: bool) -> (r: Self)
        ensures
            r@ == SessionBuilderView::initial(instructions@, thinking, fast_mode),
    {
        SessionBuilder {
            instructions: instructions.to_owned(),
            session_id: None,
            prompt_cache_key: None,
            tools: Vec::new(),
            thinking,
            fast_mode,
        }
    }

    /// Sets the client-side session identity used for tracing and cache
    /// lineage.
    pub fn session_id(self, session_id: SessionId) -> (r: Self)
        ensures
            r@ == (SessionBuilderView { session_id: Some(session_id), ..self@ }),
    {
        SessionBuilder { session_id: Some(session_id), ..self }
    }

    /// Sets the stable cache key for the immutable instructions and tools.
    pub fn prompt_cache_key(self, prompt_cache_key: String) -> (r: Self)
        ensures
            r@ == (SessionBuilderView { prompt_cache_key: Some(prompt_cache_key@), ..self@ }),
    {
        SessionBuilder { prompt_cache_key: Some(prompt_cache_key), ..self }
    }

    /// Installs complete typed tool definitions.
    pub fn tool_definitions(self, tools: Vec<ToolDefinition>) -> (r: Self)
        ensures
            r@ == (SessionBuilderView { tools: tools@, ..self@ }),
    {
        SessionBuilder { tools, ..self }
    }

    /// Creates fresh context and continuation state.
    ///
    /// Without an explicit identity a new one is made; without an explicit
    /// cache key the identity's text is the key.
    pub fn build(self) -> (r: Result<Session, SessionBuildError>)
        ensures
            match r {
                Ok(session) => {
                    &&& !text::blank(self@.instructions)
                    &&& self@.prompt_cache_key is Some ==> !text::blank(
                        self@.prompt_cache_key->0,
                    )
                    &&& self@.session_id is Some ==> session@.id == self@.session_id->0
                    &&& session@.session_key == session_id::hyphenated(session@.id@)
                    &&& session@.prompt_cache_key == match self@.prompt_cache_key {
                        Some(key) => key,
                        None => session@.session_key,
                    }
                    &&& session_prefix(
                        session@.prefix,
                        self@.tools,
                        self@.instructions,
                    )
                    &&& session@ == SessionView::initial(
                        session@.id,
                        session@.session_key,
                        session@.prompt_cache_key,
                        session@.prefix,
                        self@.thinking,
                        self@.fast_mode,
                        session@.item_seed,
                    )
                    &&& session_id::names_session(session@.item_seed@)
                },
                Err(SessionBuildError::EmptyInstructions) => text::blank(self@.instructions),
                Err(SessionBuildError::EmptyPromptCacheKey) => {
                    &&& !text::blank(self@.instructions)
                    &&& self@.prompt_cache_key is Some
                    &&& text::blank(self@.prompt_cache_key->0)
                },
            },
    {
        if is_blank(self.instructions.as_str()) {
            return Err(SessionBuildError::EmptyInstructions);
        }
        let id = match self.session_id {
            Some(id) => id,
            None => SessionId::new(),
        };
        let session_key = id.text();
        let prompt_cache_key = match self.prompt_cache_key {
            Some(key) => key,
            None => session_key.clone(),
        };
        if is_blank(prompt_cache_key.as_str()) {
            proof {
                lemma_hyphenated_not_blank(id@);
            }
            return Err(SessionBuildError::EmptyPromptCacheKey);
        }
        let mut content: Vec<ContentItem> = Vec::new();
        content.push(ContentItem::InputText { text: self.instructions });
        let tools = ResponseItem::additional_tools(self.tools);
        let message = ResponseItem::message(MessageRole::Developer, content);
        let mut prefix: Vec<Arc<ResponseItem>> = Vec::new();
        prefix.push(Arc::new(tools));
        prefix.push(Arc::new(message));
        assign_request_prefix_ids(&mut prefix);
        Ok(
            Session {
                id,
                session_key,
                prompt_cache_key,
                prefix,
                history: Vec::new(),
                previous_response_id: None,
                delta_start: 0,
                next_call_index: 1,
                next_logical_turn: 1,
                thinking: self.thinking,
                fast_mode: self.fast_mode,
                server_reasoning_included: false,
                context: ContextEstimate { with_server_reasoning: 0, without_server_reasoning: 0 },
                item_seed: SessionId::new().text(),
                item_count: 0,
            },
        )
    }
}

/// The text of a session identity is never blank.
proof fn lemma_hyphenated_not_blank(value: u128)
    ensures
        !text::blank(session_id::hyphenated(value)),
{
    let written = session_id::hyphenated(value);
    lemma_hex_digits_len(value as nat, 32);
    assert(written[8] == '-');
    assert(!text::white_space(written[8]));
}

/// A number has as many hexadecimal digits as asked for.
proof fn lemma_hex_digits_len(value: nat, count: nat)
    ensures
        session_id::hex_digits(value, count).len() == count,
    decreases count,
{
    if count > 0 {
        lemma_hex_digits_len(value / 16, (count - 1) as nat);
    }
}

/// Gives the items of a request prefix their identities: tools get none, and
/// the developer's message gets a fixed one.
fn assign_request_prefix_ids(prefix: &mut Vec<Arc<ResponseItem>>)
    requires
        forall|i: int|
            0 <= i < old(prefix)@.len() ==> (*(#[trigger] old(prefix)@[i]) is AdditionalTools
                || old(prefix)@[i].from_developer()),
    ensures
        final(prefix)@.len() == old(prefix)@.len(),
        forall|i: int|
            0 <= i < old(prefix)@.len() ==> {
                let given = *old(prefix)@[i];
                let item = *(#[trigger] final(prefix)@[i]);
                if given is AdditionalTools {
                    item == given.identified(None)
                } else {
                    item.identity() is Some && instruction_id(item.identity()->0) && item
                        == given.identified(item.identity())
                }
            },
{
    let mut i: usize = 0;
    while i < prefix.len()
        invariant
            i <= prefix@.len(),
            prefix@.len() == old(prefix)@.len(),
            forall|j: int|
                0 <= j < old(prefix)@.len() ==> (*(#[trigger] old(prefix)@[j]) is AdditionalTools
                    || old(prefix)@[j].from_developer()),
            forall|j: int| i <= j < prefix@.len() ==> prefix@[j] == old(prefix)@[j],
            forall|j: int|
                0 <= j < i ==> {
                    let given = *old(prefix)@[j];
                    let item = *(#[trigger] prefix@[j]);
                    if given is AdditionalTools {
                        item == given.identified(None)
                    } else {
                        item.identity() is Some && instruction_id(item.identity()->0) && item
                            == given.identified(item.identity())
                    }
                },
        decreases prefix@.len() - i,
    {
        let tools = match &*prefix[i] {
            ResponseItem::AdditionalTools { .. } => true,
            _ => false,
        };
        if tools {
            let item = prefix[i].with_id(None);
            prefix.set(i, Arc::new(item));
        } else {
            let id = ResponseItemId::with_suffix("msg", "nanocodex-instructions");
            let item = prefix[i].with_id(Some(id));
            prefix.set(i, Arc::new(item));
        }
        i = i + 1;
    }
}

/// One managed conversation.
///
/// The session owns its typed history, usage, and private continuation state.
pub struct Session {
    id: SessionId,
    session_key: String,
    prompt_cache_key: String,
    prefix: Vec<Arc<ResponseItem>>,
    history: Vec<Arc<ResponseItem>>,
    previous_response_id: Option<String>,
    delta_start: usize,
    next_call_index: u32,
    next_logical_turn: u64,
    thinking: Thinking,
    fast_mode: bool,
    server_reasoning_included: bool,
    context: ContextEstimate,
    item_seed: String,
    item_count: u64,
}

/// What the state of a session holds.
#[verifier::ext_equal]
pub struct SessionView {
    /// Identity.
    pub id: SessionId,
    /// The identity's text, which requests carry.
    pub session_key: Seq<char>,
    /// Cache key of the prefix.
    pub prompt_cache_key: Seq<char>,
    /// Immutable tools and instructions.
    pub prefix: Seq<Arc<ResponseItem>>,
    /// Committed conversation.
    pub history: Seq<Arc<ResponseItem>>,
    /// The response that the next request continues from.
    pub previous_response_id: Option<Seq<char>>,
    /// Where the part of the history starts that the provider does not know
    /// from the response that the next request continues from.
    pub delta_start: nat,
    /// Number of the next request.
    pub next_call_index: u32,
    /// Number of the next logical turn.
    pub next_logical_turn: u64,
    /// Effort.
    pub thinking: Thinking,
    /// Processing mode.
    pub fast_mode: bool,
    /// Whether the provider counts earlier reasoning as context.
    pub server_reasoning_included: bool,
    /// Estimated tokens of the provider's context.
    pub context: ContextEstimate,
    /// What identities that the session gives share.
    pub item_seed: String,
    /// Number that the next item's identity gets, where it has none.
    pub item_count: u64,
}

/// The next number, or the same one at the end of the range.
pub open spec fn next_u32(n: u32) -> u32 {
    if n == u32::MAX {
        n
    } else {
        (n + 1) as u32
    }
}

/// The next number, or the same one at the end of the range.
pub open spec fn next_u64(n: u64) -> u64 {
    if n == u64::MAX {
        n
    } else {
        (n + 1) as u64
    }
}

impl SessionView {
    /// A session before its first request.
    pub open spec fn initial(
        id: SessionId,
        session_key: Seq<char>,
        prompt_cache_key: Seq<char>,
        prefix: Seq<Arc<ResponseItem>>,
        thinking: Thinking,
        fast_mode: bool,
        item_seed: String,
    ) -> SessionView {
        SessionView {
            id,
            session_key,
            prompt_cache_key,
            prefix,
            history: Seq::empty(),
            previous_response_id: None,
            delta_start: 0,
            next_call_index: 1,
            next_logical_turn: 1,
            thinking,
            fast_mode,
            server_reasoning_included: false,
            context: ContextEstimate { with_server_reasoning: 0, without_server_reasoning: 0 },
            item_seed,
            item_count: 0,
        }
    }

    /// The history with further items, each with an identity.
    pub open spec fn recording(self, items: Seq<Arc<ResponseItem>>) -> Seq<Arc<ResponseItem>> {
        self.history + conversation::retained(items, self.item_seed, self.item_count)
    }

    /// The estimated tokens of the provider's context.
    pub open spec fn active_tokens(self) -> u64 {
        if self.server_reasoning_included {
            self.context.with_server_reasoning
        } else {
            self.context.without_server_reasoning
        }
    }

    /// A request cannot leave out more than the history holds, and leaves
    /// nothing out without a response to continue from. Every item has an
    /// identity.
    pub open spec fn well_formed(self) -> bool {
        &&& conversation::all_identified(self.history)
        &&& self.delta_start <= self.history.len()
        &&& self.previous_response_id is None ==> self.delta_start == 0
    }

    /// The items that a request about a conversation carries: everything,
    /// behind the prefix, when there is no response to continue from;
    /// otherwise what came since that response.
    pub open spec fn request_items(self, conversation: Seq<Arc<ResponseItem>>) -> Seq<
        Arc<ResponseItem>,
    > {
        if self.previous_response_id is None {
            self.prefix + conversation
        } else {
            conversation.skip(self.delta_start as int)
        }
    }

    /// The session after a request was numbered.
    pub open spec fn numbered(self) -> SessionView {
        SessionView { next_call_index: next_u32(self.next_call_index), ..self }
    }

    /// The session after a reply that could not be used.
    pub open spec fn heard(self, reasoning: bool) -> SessionView {
        SessionView {
            server_reasoning_included: self.server_reasoning_included || reasoning,
            ..self
        }
    }

    /// The session after a response to input was committed.
    pub open spec fn committed(
        self,
        input: Seq<Arc<ResponseItem>>,
        output: Seq<Arc<ResponseItem>>,
        response_id: Seq<char>,
        reasoning: bool,
        context: ContextEstimate,
    ) -> SessionView {
        SessionView {
            history: self.recording(input + output),
            previous_response_id: Some(response_id),
            delta_start: self.recording(input + output).len(),
            context,
            item_count: conversation::advanced(self.item_count, (input + output).len()),
            ..self.heard(reasoning)
        }
    }

    /// The session after its history was replaced by a compacted one.
    pub open spec fn compacted(
        self,
        installed: Seq<Arc<ResponseItem>>,
        reasoning: bool,
        context: ContextEstimate,
    ) -> SessionView {
        SessionView {
            history: conversation::retained(installed, self.item_seed, self.item_count),
            previous_response_id: None,
            delta_start: 0,
            context,
            item_count: conversation::advanced(self.item_count, installed.len()),
            ..self.heard(reasoning)
        }
    }
}

/// Typed input accepted by a generation request.
pub struct ResponseInput {
    items: Vec<Arc<ResponseItem>>,
}

impl View for ResponseInput {
    type V = Seq<Arc<ResponseItem>>;

    closed spec fn view(&self) -> Seq<Arc<ResponseItem>> {
        self.items@
    }
}

/// The sum of token estimates, or the largest number where it does not fit.
pub open spec fn capped_total(estimates: Seq<u64>) -> u64
    decreases estimates.len(),
{
    if estimates.len() == 0 {
        0
    } else {
        pricing::capped_sum(capped_total(estimates.drop_last()), estimates.last())
    }
}

impl ResponseInput {
    /// Creates one user message from ordered text, image, or audio content.
    pub fn content(content: Vec<ContentItem>) -> (r: Self)
        ensures
            r@.len() == 1,
            *r@[0] matches ResponseItem::Message { id, role, content: parts } && id is None && role
                == MessageRole::User && parts@ == content@,
    {
        let mut items: Vec<Arc<ResponseItem>> = Vec::new();
        items.push(Arc::new(ResponseItem::message(MessageRole::User, content)));
        ResponseInput { items }
    }

    /// Creates one user message from a text.
    pub fn text(text: &str) -> (r: Self)
        ensures
            r@.len() == 1,
            *r@[0] matches ResponseItem::Message { id, role, content: parts } && id is None && role
                == MessageRole::User && text_only(parts@, text@),
    {
        let mut content: Vec<ContentItem> = Vec::new();
        content.push(ContentItem::InputText { text: text.to_owned() });
        ResponseInput::content(content)
    }

    /// Creates low-level typed input items.
    pub fn items(items: Vec<Arc<ResponseItem>>) -> (r: Self)
        ensures
            r@ == items@,
    {
        ResponseInput { items }
    }

    /// Adds up the estimated tokens of the items. `estimates` holds one
    /// estimate for each item.
    pub fn estimated_tokens(&self, estimates: &Vec<u64>) -> (r: u64)
        requires
            estimates@.len() == self@.len(),
        ensures
            r == capped_total(estimates@),
    {
        let mut total: u64 = 0;
        let mut i: usize = 0;
        while i < estimates.len()
            invariant
                i <= estimates@.len(),
                total == capped_total(estimates@.take(i as int)),
            decreases estimates@.len() - i,
        {
            proof {
                assert(estimates@.take(i as int + 1).drop_last() =~= estimates@.take(i as int));
            }
            total = total.saturating_add(estimates[i]);
            i = i + 1;
        }
        proof {
            assert(estimates@.take(estimates@.len() as int) =~= estimates@);
        }
        total
    }
}

/// A request that a session wants sent.
pub struct SessionRequest {
    /// Number of the request within the session.
    pub call_index: u32,
    /// Logical turn of the request.
    pub logical_turn: u64,
    /// The session's identity.
    pub session_id: String,
    /// Cache key of the prefix.
    pub prompt_cache_key: String,
    /// Items that the request carries.
    pub input: Vec<Arc<ResponseItem>>,
    /// Whether the request carries the whole conversation.
    pub full_replay: bool,
    /// The response that the request continues from.
    pub previous_response_id: Option<String>,
    /// Effort.
    pub thinking: Thinking,
    /// Processing mode.
    pub fast_mode: bool,
}

/// Whether a request is the one that a session wants sent about a conversation.
pub open spec fn requests(
    request: SessionRequest,
    session: SessionView,
    logical_turn: u64,
    conversation: Seq<Arc<ResponseItem>>,
) -> bool {
    &&& request.call_index == session.next_call_index
    &&& request.logical_turn == logical_turn
    &&& request.session_id@ == session.session_key
    &&& request.prompt_cache_key@ == session.prompt_cache_key
    &&& request.input@ == session.request_items(conversation)
    &&& request.full_replay == (session.previous_response_id is None)
    &&& match request.previous_response_id {
        Some(id) => session.previous_response_id == Some(id@),
        None => session.previous_response_id is None,
    }
    &&& request.thinking == session.thinking
    &&& request.fast_mode == session.fast_mode
}

impl View for Session {
    type V = SessionView;

    closed spec fn view(&self) -> SessionView {
        SessionView {
            id: self.id,
            session_key: self.session_key@,
            prompt_cache_key: self.prompt_cache_key@,
            prefix: self.prefix@,
            history: self.history@,
            previous_response_id: match self.previous_response_id {
                Some(id) => Some(id@),
                None => None,
            },
            delta_start: self.delta_start as nat,
            next_call_index: self.next_call_index,
            next_logical_turn: self.next_logical_turn,
            thinking: self.thinking,
            fast_mode: self.fast_mode,
            server_reasoning_included: self.server_reasoning_included,
            context: self.context,
            item_seed: self.item_seed,
            item_count: self.item_count,
        }
    }
}

impl Session {
    /// Every session is well formed.
    #[verifier::type_invariant]
    spec fn held(self) -> bool {
        self@.well_formed()
    }

    /// Returns the client-side session identity.
    pub fn id(&self) -> (r: SessionId)
        ensures
            r == self@.id,
    {
        self.id
    }

    /// Starts one logical agent turn and returns its number.
    pub fn turn(&mut self) -> (r: u64)
        ensures
            r == old(self)@.next_logical_turn,
            final(self)@ == (SessionView {
                next_logical_turn: next_u64(old(self)@.next_logical_turn),
                ..old(self)@
            }),
    {
        proof {
            use_type_invariant(&*self);
        }
        let logical_turn: u64 = self.next_logical_turn;
        self.next_logical_turn = logical_turn.saturating_add(1);
        logical_turn
    }

    /// Returns the number of committed history items.
    pub fn history_len(&self) -> (r: usize)
        ensures
            r == self@.history.len(),
    {
        self.history.len()
    }

    /// Returns the committed history.
    pub fn history(&self) -> (r: &Vec<Arc<ResponseItem>>)
        ensures
            r@ == self@.history,
    {
        &self.history
    }

    /// Returns how many items of the history the provider knows by the last
    /// response.
    pub fn delta_start(&self) -> (r: usize)
        ensures
            r == self@.delta_start,
    {
        self.delta_start
    }

    /// Returns the estimated tokens in the provider's context.
    pub fn active_context_tokens(&self) -> (r: u64)
        ensures
            r == self@.active_tokens(),
    {
        if self.server_reasoning_included {
            self.context.with_server_reasoning
        } else {
            self.context.without_server_reasoning
        }
    }

    /// The items of a request about a conversation.
    fn request_items(&self, conversation: &Vec<Arc<ResponseItem>>) -> (r: Vec<Arc<ResponseItem>>)
        requires
            self@.delta_start <= conversation@.len(),
        ensures
            r@ == self@.request_items(conversation@),
    {
        if self.previous_response_id.is_none() {
            let mut all = clone_history(&self.prefix);
            append_items(&mut all, conversation);
            all
        } else {
            let mut delta: Vec<Arc<ResponseItem>> = Vec::new();
            let mut i: usize = self.delta_start;
            while i < conversation.len()
                invariant
                    self.delta_start <= i <= conversation@.len(),
                    delta@ == conversation@.subrange(self.delta_start as int, i as int),
                decreases conversation@.len() - i,
            {
                delta.push(conversation[i].clone());
                proof {
                    assert(delta@ =~= conversation@.subrange(
                        self.delta_start as int,
                        i as int + 1,
                    ));
                }
                i = i + 1;
            }
            proof {
                assert(delta@ =~= conversation@.skip(self.delta_start as int));
            }
            delta
        }
    }

    /// Numbers the next request and puts it together.
    fn next_request(&mut self, logical_turn: u64, conversation: &Vec<Arc<ResponseItem>>) -> (r:
        SessionRequest)
        requires
            old(self)@.delta_start <= conversation@.len(),
        ensures
            requests(r, old(self)@, logical_turn, conversation@),
            final(self)@ == old(self)@.numbered(),
    {
        let carried = self.request_items(conversation);
        let previous_response_id = clone_text(&self.previous_response_id);
        let call_index: u32 = self.next_call_index;
        proof {
            use_type_invariant(&*self);
        }
        self.next_call_index = call_index.saturating_add(1);
        SessionRequest {
            call_index,
            logical_turn,
            session_id: self.session_key.clone(),
            prompt_cache_key: self.prompt_cache_key.clone(),
            input: carried,
            full_replay: previous_response_id.is_none(),
            previous_response_id,
            thinking: self.thinking,
            fast_mode: self.fast_mode,
        }
    }

    /// Starts one generation. An empty input is refused and changes nothing.
    pub fn begin_create(&mut self, logical_turn: u64, input: &ResponseInput) -> (r: Result<
        SessionRequest,
        ResponseError,
    >)
        ensures
            match r {
                Ok(request) => {
                    &&& input@.len() > 0
                    &&& requests(
                        request,
                        old(self)@,
                        logical_turn,
                        old(self)@.recording(input@),
                    )
                    &&& final(self)@ == old(self)@.numbered()
                },
                Err(error) => {
                    &&& input@.len() == 0
                    &&& error.breach("response.create input must contain at least one item"@)
                    &&& final(self)@ == old(self)@
                },
            },
    {
        if input.items.len() == 0 {
            return Err(
                ResponseError::protocol("response.create input must contain at least one item"),
            );
        }
        proof {
            use_type_invariant(&*self);
        }
        let (recorded, _) = retain(&input.items, &self.item_seed, self.item_count);
        let mut candidate = clone_history(&self.history);
        append_items(&mut candidate, &recorded);
        Ok(self.next_request(logical_turn, &candidate))
    }

    /// Ends one generation. `context` estimates the provider's context
    /// after it.
    ///
    /// A failed exchange, or a reply to another kind of request, leaves the
    /// history and the continuation as they were. A generation commits the
    /// input together with the output.
    pub fn finish_create(
        &mut self,
        input: ResponseInput,
        reply: Result<ResponsesServiceResponse, ResponseError>,
        context: ContextEstimate,
    ) -> (r: Result<CompletedResponse, ResponseError>)
        requires
            reply is Ok && reply->Ok_0.output is Generation ==> old(self)@.history.len()
                + input@.len() + reply->Ok_0.output->Generation_0.output_items@.len()
                <= usize::MAX,
        ensures
            match reply {
                Err(error) => r == Err::<CompletedResponse, ResponseError>(error) && final(self)@
                    == old(self)@,
                Ok(reply) => match reply.output {
                    ResponsesOutput::Generation(output) => {
                        &&& final(self)@ == old(self)@.committed(
                            input@,
                            output.output_items@,
                            output.id@,
                            reply.server_reasoning_included,
                            context,
                        )
                        &&& r is Ok
                        &&& r->Ok_0@.output == output.output_items@
                        &&& r->Ok_0@.output_text == output.delivered()
                        &&& r->Ok_0@.usage == output.usage
                        &&& r->Ok_0@.end_turn == output.end_turn
                        &&& r->Ok_0@.session_id == old(self)@.id
                        &&& r->Ok_0@.history == final(self)@.history
                    },
                    _ => {
                        &&& final(self)@ == old(self)@.heard(reply.server_reasoning_included)
                        &&& r is Err
                        &&& r->Err_0.breach("response.create returned a non-generation output"@)
                    },
                },
            },
    {
        let reply = match reply {
            Ok(reply) => reply,
            Err(error) => return Err(error),
        };
        proof {
            use_type_invariant(&*self);
        }
        if reply.server_reasoning_included {
            self.server_reasoning_included = true;
        }
        let output = match reply.output {
            ResponsesOutput::Generation(output) => output,
            _ => return Err(
                ResponseError::protocol("response.create returned a non-generation output"),
            ),
        };
        let delivered = output.delivered_text();
        let mut exchanged = clone_history(&input.items);
        append_items(&mut exchanged, &output.output_items);
        let (recorded, item_count) = retain(&exchanged, &self.item_seed, self.item_count);
        proof {
            assert(exchanged@ == input@ + output.output_items@);
            conversation::lemma_retained_identified(
                exchanged@,
                self.item_seed,
                self.item_count,
            );
        }
        let mut candidate = clone_history(&self.history);
        append_items(&mut candidate, &recorded);
        let delta_start: usize = candidate.len();
        let history = clone_history(&candidate);
        self.delta_start = 0;
        self.history = candidate;
        self.previous_response_id = Some(output.id);
        self.delta_start = delta_start;
        self.context = context;
        self.item_count = item_count;
        Ok(
            CompletedResponse::assemble(
                output.output_items,
                delivered,
                output.usage,
                output.end_turn,
                ResponseCheckpoint { session_id: self.id, history },
            ),
        )
    }

    /// Starts one compaction. `trimmed` is the committed history with tool
    /// outputs cut as far as the context window asks for.
    pub fn begin_compact(&mut self, logical_turn: u64, trimmed: &Vec<Arc<ResponseItem>>) -> (r:
        SessionRequest)
        requires
            old(self)@.delta_start <= trimmed@.len(),
        ensures
            requests(r, old(self)@, logical_turn, trimmed@),
            final(self)@ == old(self)@.numbered(),
    {
        self.next_request(logical_turn, trimmed)
    }

    /// Ends one compaction. `installed` is the history that replaces the
    /// compacted one when the provider returned a compaction, and `context`
    /// estimates the provider's context then.
    ///
    /// A failed exchange, or a reply to another kind of request, leaves the
    /// prior history untouched.
    pub fn finish_compact(
        &mut self,
        installed: Vec<Arc<ResponseItem>>,
        reply: Result<ResponsesServiceResponse, ResponseError>,
        context: ContextEstimate,
    ) -> (r: Result<CompletedCompaction, ResponseError>)
        ensures
            match reply {
                Err(error) => r == Err::<CompletedCompaction, ResponseError>(error) && final(self)@
                    == old(self)@,
                Ok(reply) => match reply.output {
                    ResponsesOutput::Compaction(output) => {
                        &&& final(self)@ == old(self)@.compacted(
                            installed@,
                            reply.server_reasoning_included,
                            context,
                        )
                        &&& r is Ok
                        &&& r->Ok_0.reported() == output.usage
                        &&& r->Ok_0.boundary().session_id == old(self)@.id
                        &&& r->Ok_0.boundary().history@ == final(self)@.history
                    },
                    _ => {
                        &&& final(self)@ == old(self)@.heard(reply.server_reasoning_included)
                        &&& r is Err
                        &&& r->Err_0.breach("response.compact returned a non-compaction output"@)
                    },
                },
            },
    {
        let reply = match reply {
            Ok(reply) => reply,
            Err(error) => return Err(error),
        };
        proof {
            use_type_invariant(&*self);
        }
        if reply.server_reasoning_included {
            self.server_reasoning_included = true;
        }
        let usage = match reply.output {
            ResponsesOutput::Compaction(output) => output.usage,
            _ => return Err(
                ResponseError::protocol("response.compact returned a non-compaction output"),
            ),
        };
        let (recorded, item_count) = retain(&installed, &self.item_seed, self.item_count);
        proof {
            conversation::lemma_retained_identified(
                installed@,
                self.item_seed,
                self.item_count,
            );
        }
        let history = clone_history(&recorded);
        self.delta_start = 0;
        self.previous_response_id = None;
        self.history = recorded;
        self.context = context;
        self.item_count = item_count;
        Ok(
            CompletedCompaction::assemble(
                usage,
                ResponseCheckpoint { session_id: self.id, history },
            ),
        )
    }
}

/// The first request of a session, and the first one after a compaction,
/// carries the prefix and the whole conversation.
pub proof fn law_request_without_continuation_replays_everything(
    session: SessionView,
    installed: Seq<Arc<ResponseItem>>,
    reasoning: bool,
    tokens: ContextEstimate,
    input: Seq<Arc<ResponseItem>>,
)
    ensures
        session.previous_response_id is None ==> session.request_items(session.recording(input))
            == session.prefix + session.recording(input),
        ({
            let compacted = session.compacted(installed, reasoning, tokens);
            &&& compacted.previous_response_id is None
            &&& compacted.request_items(compacted.recording(input)) == session.prefix
                + compacted.recording(input)
        }),
{
}

/// After a committed response the next request carries the new input and
/// nothing else, and continues from that response. The input is kept under the
/// identities that its request carried.
pub proof fn law_sequential_requests_send_only_the_delta(
    session: SessionView,
    first: Seq<Arc<ResponseItem>>,
    output: Seq<Arc<ResponseItem>>,
    response_id: Seq<char>,
    reasoning: bool,
    tokens: ContextEstimate,
    second: Seq<Arc<ResponseItem>>,
)
    ensures
        ({
            let after = session.committed(first, output, response_id, reasoning, tokens);
            &&& after.previous_response_id == Some(response_id)
            &&& after.request_items(after.recording(second)) == conversation::retained(
                second,
                after.item_seed,
                after.item_count,
            )
            &&& after.history == session.recording(first + output)
            &&& forall|i: int|
                0 <= i < first.len() ==> #[trigger] session.recording(
                    first,
                )[session.history.len() + i] == after.history[session.history.len() + i]
        }),
{
    let after = session.committed(first, output, response_id, reasoning, tokens);
    let kept = conversation::retained(second, after.item_seed, after.item_count);
    assert(after.recording(second).skip(after.delta_start as int) =~= kept);
}

/// One full replay after a compaction is enough: once it is answered, the next
/// request sends only its own input.
pub proof fn law_compaction_forces_one_full_replay(
    session: SessionView,
    installed: Seq<Arc<ResponseItem>>,
    reasoning: bool,
    tokens: ContextEstimate,
    first: Seq<Arc<ResponseItem>>,
    output: Seq<Arc<ResponseItem>>,
    response_id: Seq<char>,
    second: Seq<Arc<ResponseItem>>,
)
    ensures
        ({
            let compacted = session.compacted(installed, reasoning, tokens);
            let after = compacted.committed(first, output, response_id, reasoning, tokens);
            &&& compacted.request_items(compacted.recording(first)) == session.prefix
                + compacted.recording(first)
            &&& after.request_items(after.recording(second)) == conversation::retained(
                second,
                after.item_seed,
                after.item_count,
            )
        }),
{
    let compacted = session.compacted(installed, reasoning, tokens);
    law_sequential_requests_send_only_the_delta(
        compacted,
        first,
        output,
        response_id,
        reasoning,
        tokens,
        second,
    );
}

/// A failed or unusable exchange commits nothing: the history, the
/// continuation, and what the next request about it carries stay.
pub proof fn law_failed_exchange_commits_nothing(
    session: SessionView,
    conversation: Seq<Arc<ResponseItem>>,
    reasoning: bool,
)
    ensures
        ({
            let after = session.numbered().heard(reasoning);
            &&& after.history == session.history
            &&& after.previous_response_id == session.previous_response_id
            &&& after.delta_start == session.delta_start
            &&& after.request_items(conversation) == session.request_items(conversation)
        }),
{
}

/// Every request of a session carries the effort and the processing mode that
/// the session was built with, under its identity and cache key, however many
/// exchanges, failures, and compactions came before.
pub proof fn law_requests_carry_the_sessions_settings(
    builder: SessionBuilderView,
    instructions: Seq<char>,
    id: SessionId,
    session_key: Seq<char>,
    prompt_cache_key: Seq<char>,
    prefix: Seq<Arc<ResponseItem>>,
    thinking: Thinking,
    fast_mode: bool,
    item_seed: String,
    input: Seq<Arc<ResponseItem>>,
    output: Seq<Arc<ResponseItem>>,
    response_id: Seq<char>,
    reasoning: bool,
    context: ContextEstimate,
    session: SessionView,
    request: SessionRequest,
    logical_turn: u64,
    about: Seq<Arc<ResponseItem>>,
)
    requires
        builder == SessionBuilderView::initial(instructions, thinking, fast_mode),
        ({
            let initial = SessionView::initial(
                id,
                session_key,
                prompt_cache_key,
                prefix,
                builder.thinking,
                builder.fast_mode,
                item_seed,
            );
            let committed = initial.numbered().committed(
                input,
                output,
                response_id,
                reasoning,
                context,
            );
            ||| session == initial
            ||| session == initial.numbered()
            ||| session == initial.heard(reasoning)
            ||| session == committed
            ||| session == committed.numbered().compacted(output, reasoning, context)
        }),
        requests(request, session, logical_turn, about),
    ensures
        request.thinking == thinking,
        request.fast_mode == fast_mode,
        request.session_id@ == session_key,
        request.prompt_cache_key@ == prompt_cache_key,
        request.logical_turn == logical_turn,
        request.call_index == session.next_call_index,
{
}

/// No exchange changes who a session is or how it asks.
pub proof fn law_sessions_keep_their_settings(
    session: SessionView,
    input: Seq<Arc<ResponseItem>>,
    output: Seq<Arc<ResponseItem>>,
    response_id: Seq<char>,
    reasoning: bool,
    context: ContextEstimate,
)
    ensures
        same_settings(session, session.numbered()),
        same_settings(session, session.heard(reasoning)),
        same_settings(session, session.committed(input, output, response_id, reasoning, context)),
        same_settings(session, session.compacted(output, reasoning, context)),
{
}

/// Whether two states are of one session under the same settings.
pub open spec fn same_settings(one: SessionView, other: SessionView) -> bool {
    &&& one.id == other.id
    &&& one.session_key == other.session_key
    &&& one.prompt_cache_key == other.prompt_cache_key
    &&& one.prefix == other.prefix
    &&& one.thinking == other.thinking
    &&& one.fast_mode == other.fast_mode
    &&& one.item_seed == other.item_seed
    &&& one.next_logical_turn == other.next_logical_turn
}

/// A new session holds nothing, continues from nothing, and numbers its
/// requests and turns from one.
pub proof fn law_sessions_start_empty(
    id: SessionId,
    session_key: Seq<char>,
    prompt_cache_key: Seq<char>,
    prefix: Seq<Arc<ResponseItem>>,
    thinking: Thinking,
    fast_mode: bool,
    item_seed: String,
)
    ensures
        ({
            let session = SessionView::initial(
                id,
                session_key,
                prompt_cache_key,
                prefix,
                thinking,
                fast_mode,
                item_seed,
            );
            &&& session.history.len() == 0
            &&& session.previous_response_id is None
            &&& session.delta_start == 0
            &&& session.next_call_index == 1
            &&& session.next_logical_turn == 1
            &&& session.active_tokens() == 0
            &&& session.id == id
            &&& session.session_key == session_key
            &&& session.prompt_cache_key == prompt_cache_key
            &&& session.prefix == prefix
            &&& session.thinking == thinking
            &&& session.fast_mode == fast_mode
            &&& !session.server_reasoning_included
            &&& session.context.with_server_reasoning == 0
            &&& session.context.without_server_reasoning == 0
            &&& session.item_seed == item_seed
            &&& session.item_count == 0
            &&& session.well_formed()
        }),
{
}

/// A committed exchange leaves the input and the output behind what the session
/// held, in that order, and nothing of it is sent again: the next request
/// continues from the response and carries its own input alone.
pub proof fn law_committed_exchanges_are_kept(
    session: SessionView,
    input: Seq<Arc<ResponseItem>>,
    output: Seq<Arc<ResponseItem>>,
    response_id: Seq<char>,
    reasoning: bool,
    context: ContextEstimate,
    next: Seq<Arc<ResponseItem>>,
)
    ensures
        ({
            let after = session.committed(input, output, response_id, reasoning, context);
            &&& conversation::grown(session.history, after.history, input + output)
            &&& after.previous_response_id == Some(response_id)
            &&& after.delta_start == after.history.len()
            &&& after.context == context
            &&& after.server_reasoning_included == (session.server_reasoning_included || reasoning)
            &&& conversation::grown(
                Seq::empty(),
                after.request_items(after.recording(next)),
                next,
            )
        }),
{
    let after = session.committed(input, output, response_id, reasoning, context);
    let kept = conversation::retained(input + output, session.item_seed, session.item_count);
    conversation::lemma_retained_stand(input + output, session.item_seed, session.item_count);
    assert forall|i: int| session.history.len() <= i < after.history.len() implies
        conversation::stands_for(
        #[trigger] after.history[i],
        (input + output)[i - session.history.len()],
    ) by {
        assert(after.history[i] == kept[i - session.history.len()]);
    }
    conversation::lemma_retained_stand(next, after.item_seed, after.item_count);
    assert(after.recording(next).skip(after.delta_start as int) =~= conversation::retained(
        next,
        after.item_seed,
        after.item_count,
    ));
}

/// Without a response to continue from, a request carries the prefix, then the
/// history, then the new input, each in order and nothing left out; and it says
/// that it carries everything exactly then.
pub proof fn law_full_requests_carry_everything(
    session: SessionView,
    input: Seq<Arc<ResponseItem>>,
    request: SessionRequest,
    logical_turn: u64,
)
    requires
        requests(request, session, logical_turn, session.recording(input)),
    ensures
        request.full_replay <==> session.previous_response_id is None,
        request.previous_response_id is None <==> session.previous_response_id is None,
        request.previous_response_id matches Some(id) ==> session.previous_response_id == Some(id@),
        session.previous_response_id is None ==> conversation::grown(
            session.prefix + session.history,
            request.input@,
            input,
        ),
        session.previous_response_id is Some && session.delta_start == session.history.len()
            ==> conversation::grown(Seq::empty(), request.input@, input),
{
    let kept = conversation::retained(input, session.item_seed, session.item_count);
    conversation::lemma_retained_stand(input, session.item_seed, session.item_count);
    if session.previous_response_id is None {
        let front = session.prefix + session.history;
        assert(request.input@ =~= front + kept);
        assert forall|i: int| front.len() <= i < request.input@.len() implies
            conversation::stands_for(#[trigger] request.input@[i], input[i - front.len()]) by {
            assert(request.input@[i] == kept[i - front.len()]);
        }
    } else if session.delta_start == session.history.len() {
        assert(request.input@ =~= kept);
    }
}

/// A compaction leaves the installed history alone, and no response to continue
/// from.
pub proof fn law_compactions_replace_the_history(
    session: SessionView,
    installed: Seq<Arc<ResponseItem>>,
    reasoning: bool,
    context: ContextEstimate,
)
    ensures
        ({
            let after = session.compacted(installed, reasoning, context);
            &&& conversation::grown(Seq::empty(), after.history, installed)
            &&& after.previous_response_id is None
            &&& after.delta_start == 0
            &&& after.context == context
            &&& after.server_reasoning_included == (session.server_reasoning_included || reasoning)
        }),
{
    conversation::lemma_retained_stand(installed, session.item_seed, session.item_count);
}

/// Requests are numbered one after the other, and numbering one changes nothing
/// else that a request carries.
pub proof fn law_requests_are_numbered_in_order(session: SessionView)
    requires
        session.next_call_index < u32::MAX,
    ensures
        session.numbered().next_call_index == session.next_call_index + 1,
        session.numbered().history == session.history,
        session.numbered().previous_response_id == session.previous_response_id,
        session.numbered().delta_start == session.delta_start,
        session.numbered().context == session.context,
        session.next_logical_turn < u64::MAX ==> next_u64(session.next_logical_turn)
            == session.next_logical_turn + 1,
{
}

/// The context counts earlier reasoning exactly when the provider does.
pub proof fn law_context_is_counted_like_the_provider(session: SessionView)
    ensures
        session.heard(true).active_tokens() == session.context.with_server_reasoning,
        !session.server_reasoning_included ==> session.heard(false).active_tokens()
            == session.context.without_server_reasoning,
        session.server_reasoning_included ==> session.active_tokens()
            == session.context.with_server_reasoning,
{
}

/// The estimate of an input is the sum of its items, up to the largest number.
pub proof fn law_estimates_add_up(estimates: Seq<u64>, last: u64)
    ensures
        capped_total(Seq::empty()) == 0,
        capped_total(estimates.push(last)) == if capped_total(estimates) + last <= u64::MAX {
            capped_total(estimates) + last
        } else {
            u64::MAX as int
        },
{
    assert(estimates.push(last).drop_last() =~= estimates);
}

/// What every request of a session starts with: its tools, and its instructions
/// as one message of the developer.
pub proof fn law_sessions_state_tools_and_instructions(
    prefix: Seq<Arc<ResponseItem>>,
    tools: Seq<ToolDefinition>,
    instructions: Seq<char>,
)
    requires
        session_prefix(prefix, tools, instructions),
    ensures
        prefix.len() == 2,
        *prefix[0] matches ResponseItem::AdditionalTools { id, tools: listed } && id is None
            && listed@ == tools,
        *prefix[1] matches ResponseItem::Message { role, content, .. } && role
            == MessageRole::Developer && content@.len() == 1 && (content@[0]
            matches ContentItem::InputText { text } && text@ == instructions),
        prefix[1].identity() matches Some(ResponseItemId::Made { prefix: kind, suffix }) && kind@
            == "msg"@ && suffix@ == "nanocodex-instructions"@,
{
}

/// Numbers follow one another up to the largest one, which is kept.
pub proof fn law_numbers_follow_one_another(n: u32)
    ensures
        n < u32::MAX ==> next_u32(n) == n + 1,
        n == u32::MAX ==> next_u32(n) == n,
{
}

/// An exchange numbers the items that it adds on from the last one, as far as
/// numbers reach, and changes nothing of a session but its history, its
/// continuation, and its estimates.
pub proof fn law_exchanges_change_nothing_else(
    session: SessionView,
    input: Seq<Arc<ResponseItem>>,
    output: Seq<Arc<ResponseItem>>,
    response_id: Seq<char>,
    installed: Seq<Arc<ResponseItem>>,
    reasoning: bool,
    context: ContextEstimate,
)
    ensures
        ({
            let after = session.committed(input, output, response_id, reasoning, context);
            let added = input.len() + output.len();
            &&& session.item_count + added <= u64::MAX ==> after.item_count == session.item_count
                + added
            &&& session.item_count + added > u64::MAX ==> after.item_count == u64::MAX
            &&& after == (SessionView {
                history: after.history,
                previous_response_id: after.previous_response_id,
                delta_start: after.delta_start,
                context,
                server_reasoning_included: after.server_reasoning_included,
                item_count: after.item_count,
                ..session
            })
        }),
        ({
            let after = session.compacted(installed, reasoning, context);
            &&& session.item_count + installed.len() <= u64::MAX ==> after.item_count
                == session.item_count + installed.len()
            &&& session.item_count + installed.len() > u64::MAX ==> after.item_count == u64::MAX
            &&& after.server_reasoning_included == (session.server_reasoning_included || reasoning)
            &&& after == (SessionView {
                history: after.history,
                previous_response_id: after.previous_response_id,
                delta_start: after.delta_start,
                context,
                server_reasoning_included: after.server_reasoning_included,
                item_count: after.item_count,
                ..session
            })
        }),
        session.numbered() == (SessionView {
            next_call_index: session.numbered().next_call_index,
            ..session
        }),
{
}

} // verus!
