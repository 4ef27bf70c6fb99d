//! The conversation that an agent continues, and the boundaries it is resumed
//! and branched from.
use crate::config::Thinking;
use crate::error::NanocodexError;
use crate::items;
use crate::items::{
    append_items, clone_history, clone_text, ContentItem, ItemKind, MessageRole, ResponseItem,
    ResponseItemId, ToolDefinition,
};
use crate::session_id;
use crate::session_id::SessionId;
use crate::text::join;
use std::sync::Arc;
use vstd::prelude::*;
use vstd::string::*;

verus! {

/// Settings that a continued request shares with the response it continues.
#[derive(Clone, Copy, Debug, PartialEq, Eq, Structural)]
pub struct ContinuationPolicy {
    /// Effort.
    pub thinking: Thinking,
    /// Processing mode.
    pub fast_mode: bool,
}

/// Client-owned history with its place in the provider's continuation.
pub struct ConversationState {
    canonical_context: Arc<ResponseItem>,
    history: Vec<Arc<ResponseItem>>,
    previous_response_id: Option<String>,
    delta_start: usize,
    server_reasoning_included: bool,
    continuation_policy: Option<ContinuationPolicy>,
    item_seed: String,
    item_count: u64,
}

/// What a conversation holds.
#[verifier::ext_equal]
pub struct ConversationView {
    /// The user message that states the environment in full.
    pub canonical_context: Arc<ResponseItem>,
    /// Items in order.
    pub history: Seq<Arc<ResponseItem>>,
    /// The response that the next request continues from.
    pub previous_response_id: Option<String>,
    /// Where the items start that the provider does not know from that
    /// response.
    pub delta_start: nat,
    /// Whether the provider counts earlier reasoning as context.
    pub server_reasoning_included: bool,
    /// Settings of the last request.
    pub continuation_policy: Option<ContinuationPolicy>,
    /// What identities that the conversation gives share.
    pub item_seed: String,
    /// Number that the next item's identity gets, where it has none.
    pub item_count: u64,
}

/// A count after further items, up to the largest one.
pub open spec fn advanced(count: u64, by: nat) -> u64 {
    if count + by <= u64::MAX {
        (count + by) as u64
    } else {
        u64::MAX
    }
}

/// The identity that a conversation gives an item without one.
pub open spec fn numbered(kind: ItemKind, seed: String, number: u64) -> ResponseItemId {
    ResponseItemId::Numbered { kind, seed, number }
}

/// Items as a conversation keeps them: each with an identity, its own where it
/// has one.
pub open spec fn retained(items: Seq<Arc<ResponseItem>>, seed: String, count: u64) -> Seq<
    Arc<ResponseItem>,
> {
    Seq::new(
        items.len(),
        |i: int|
            Arc::new(
                identified_if_missing(
                    *items[i],
                    numbered(items[i].kind(), seed, advanced(count, i as nat)),
                ),
            ),
    )
}

/// Whether every item of a history has an identity.
pub open spec fn all_identified(history: Seq<Arc<ResponseItem>>) -> bool {
    forall|i: int| 0 <= i < history.len() ==> (#[trigger] history[i]).has_identity()
}

/// The first user message of a history.
pub open spec fn first_user_message(history: Seq<Arc<ResponseItem>>) -> Option<Arc<ResponseItem>>
    decreases history.len(),
{
    if history.len() == 0 {
        None
    } else if history[0].from_user() {
        Some(history[0])
    } else {
        first_user_message(history.skip(1))
    }
}

impl ConversationView {
    /// A conversation that starts with a history.
    pub open spec fn started(
        canonical_context: Arc<ResponseItem>,
        history: Seq<Arc<ResponseItem>>,
        item_seed: String,
    ) -> ConversationView {
        ConversationView {
            canonical_context,
            history: retained(history, item_seed, 0),
            previous_response_id: None,
            delta_start: 0,
            server_reasoning_included: false,
            continuation_policy: None,
            item_seed,
            item_count: advanced(0, history.len()),
        }
    }

    /// No request leaves out more than the history holds, and every item has
    /// an identity.
    pub open spec fn well_formed(self) -> bool {
        &&& self.delta_start <= self.history.len()
        &&& all_identified(self.history)
    }

    /// The identity that the next item gets where it has none.
    pub open spec fn next_identity(self, kind: ItemKind) -> ResponseItemId {
        numbered(kind, self.item_seed, self.item_count)
    }

    /// After items were added, each with an identity.
    pub open spec fn with_items(self, items: Seq<Arc<ResponseItem>>) -> ConversationView {
        ConversationView {
            history: self.history + retained(items, self.item_seed, self.item_count),
            item_count: advanced(self.item_count, items.len()),
            ..self
        }
    }

    /// After the provider came to know everything.
    pub open spec fn without_delta(self) -> ConversationView {
        ConversationView { delta_start: self.history.len(), ..self }
    }

    /// After the continuation was given up: the next request carries
    /// everything.
    pub open spec fn replayed(self) -> ConversationView {
        ConversationView { previous_response_id: None, delta_start: 0, ..self }
    }

    /// After a request under given settings was prepared: settings that differ
    /// from those of the last request give up the continuation.
    pub open spec fn under_policy(self, policy: ContinuationPolicy) -> ConversationView {
        let kept = if self.continuation_policy is Some && self.continuation_policy->0 != policy {
            self.replayed()
        } else {
            self
        };
        ConversationView { continuation_policy: Some(policy), ..kept }
    }

    /// After the provider told whether it counts earlier reasoning.
    pub open spec fn hearing(self, reasoning: bool) -> ConversationView {
        ConversationView {
            server_reasoning_included: self.server_reasoning_included || reasoning,
            ..self
        }
    }

    /// After another history took the place of this one.
    pub open spec fn replaced(self, history: Seq<Arc<ResponseItem>>) -> ConversationView {
        ConversationView {
            history: retained(history, self.item_seed, self.item_count),
            item_count: advanced(self.item_count, history.len()),
            ..self.replayed()
        }
    }
}

impl View for ConversationState {
    type V = ConversationView;

    closed spec fn view(&self) -> ConversationView {
        ConversationView {
            canonical_context: self.canonical_context,
            history: self.history@,
            previous_response_id: self.previous_response_id,
            delta_start: self.delta_start as nat,
            server_reasoning_included: self.server_reasoning_included,
            continuation_policy: self.continuation_policy,
            item_seed: self.item_seed,
            item_count: self.item_count,
        }
    }
}

impl Clone for ConversationState {
    fn clone(&self) -> (r: Self)
        ensures
            r@ == self@,
    {
        proof {
            use_type_invariant(self);
        }
        ConversationState {
            canonical_context: self.canonical_context.clone(),
            history: clone_history(&self.history),
            previous_response_id: clone_text(&self.previous_response_id),
            delta_start: self.delta_start,
            server_reasoning_included: self.server_reasoning_included,
            continuation_policy: self.continuation_policy,
            item_seed: self.item_seed.clone(),
            item_count: self.item_count,
        }
    }
}

/// A count after one more item.
fn advance(count: u64) -> (r: u64)
    ensures
        r == advanced(count, 1),
{
    if count < u64::MAX {
        count + 1
    } else {
        u64::MAX
    }
}

/// Copies items, each with an identity, and returns the count after them.
pub(crate) fn retain(items: &Vec<Arc<ResponseItem>>, seed: &String, count: u64) -> (r: (
    Vec<Arc<ResponseItem>>,
    u64,
))
    ensures
        r.0@ == retained(items@, *seed, count),
        r.1 == advanced(count, items@.len()),
{
    let mut out: Vec<Arc<ResponseItem>> = Vec::new();
    let mut next: u64 = count;
    let mut i: usize = 0;
    while i < items.len()
        invariant
            i <= items@.len(),
            out@.len() == i,
            next == advanced(count, i as nat),
            forall|j: int|
                0 <= j < i ==> #[trigger] out@[j] == retained(items@, *seed, count)[j],
        decreases items@.len() - i,
    {
        let fresh = ResponseItemId::Numbered {
            kind: items[i].item_kind(),
            seed: seed.clone(),
            number: next,
        };
        out.push(Arc::new(assign_missing_id(&*items[i], fresh)));
        next = advance(next);
        i = i + 1;
    }
    proof {
        assert(out@ =~= retained(items@, *seed, count));
    }
    (out, next)
}

/// Kept items have identities.
pub(crate) proof fn lemma_retained_identified(items: Seq<Arc<ResponseItem>>, seed: String, count: u64)
    ensures
        all_identified(retained(items, seed, count)),
{
    let kept = retained(items, seed, count);
    assert forall|i: int| 0 <= i < kept.len() implies (#[trigger] kept[i]).has_identity() by {
        lemma_identified(items[i], numbered(items[i].kind(), seed, advanced(count, i as nat)));
    }
}

/// An item that lacked an identity has the given one, and every item has one.
proof fn lemma_identified(item: Arc<ResponseItem>, fresh: ResponseItemId)
    requires
        !fresh.blank_id(),
    ensures
        identified_if_missing(*item, fresh).has_identity(),
        !item.has_identity() ==> identified_if_missing(*item, fresh).identity() == Some(fresh),
        item.has_identity() ==> identified_if_missing(*item, fresh) == *item,
{
}

impl ConversationState {
    /// Every conversation is well formed.
    #[verifier::type_invariant]
    spec fn held(self) -> bool {
        self@.well_formed()
    }

    /// A conversation without items.
    pub fn empty(canonical_context: Arc<ResponseItem>) -> (r: Self)
        ensures
            r@ == ConversationView::started(canonical_context, Seq::empty(), r@.item_seed),
            session_id::names_session(r@.item_seed@),
    {
        ConversationState::start(canonical_context, &Vec::new())
    }

    /// A conversation that starts with given items under a new seed.
    fn start(canonical_context: Arc<ResponseItem>, items: &Vec<Arc<ResponseItem>>) -> (r: Self)
        ensures
            r@ == ConversationView::started(canonical_context, items@, r@.item_seed),
            session_id::names_session(r@.item_seed@),
    {
        let item_seed = SessionId::new().text();
        let (history, item_count) = retain(items, &item_seed, 0);
        proof {
            lemma_retained_identified(items@, item_seed, 0);
        }
        ConversationState {
            canonical_context,
            history,
            previous_response_id: None,
            delta_start: 0,
            server_reasoning_included: false,
            continuation_policy: None,
            item_seed,
            item_count,
        }
    }

    /// A conversation that starts with a history. The first user message is
    /// its canonical context.
    pub fn new(history: Vec<Arc<ResponseItem>>) -> (r: Result<Self, NanocodexError>)
        ensures
            match r {
                Ok(conversation) => {
                    &&& first_user_message(history@) is Some
                    &&& conversation@ == ConversationView::started(
                        first_user_message(history@)->0,
                        history@,
                        conversation@.item_seed,
                    )
                    &&& session_id::names_session(conversation@.item_seed@)
                },
                Err(error) => {
                    &&& first_user_message(history@) is None
                    &&& error matches NanocodexError::MalformedResponse { detail } && detail@
                        == "task input did not include initial context"@
                },
            },
    {
        let mut i: usize = 0;
        proof {
            assert(history@.skip(0) =~= history@);
        }
        while i < history.len()
            invariant
                i <= history@.len(),
                first_user_message(history@) == first_user_message(history@.skip(i as int)),
            decreases history@.len() - i,
        {
            proof {
                assert(history@.skip(i as int).skip(1) =~= history@.skip(i as int + 1));
            }
            if history[i].is_user_message() {
                let canonical_context = history[i].clone();
                return Ok(ConversationState::start(canonical_context, &history));
            }
            i = i + 1;
        }
        Err(
            NanocodexError::MalformedResponse {
                detail: "task input did not include initial context",
            },
        )
    }

    /// Resumes a conversation from a stored history.
    ///
    /// The canonical context must be a user message, and gets `fresh` as its
    /// identity when it has none. `fault` says what is wrong with the stored
    /// history, if anything.
    pub fn resume(
        canonical_context: &ResponseItem,
        fresh: ResponseItemId,
        history: Vec<Arc<ResponseItem>>,
        fault: Option<String>,
    ) -> (r: Result<Self, NanocodexError>)
        ensures
            match r {
                Ok(conversation) => {
                    &&& canonical_context.from_user()
                    &&& fault is None
                    &&& conversation@ == ConversationView::started(
                        Arc::new(identified_if_missing(*canonical_context, fresh)),
                        history@,
                        conversation@.item_seed,
                    )
                    &&& session_id::names_session(conversation@.item_seed@)
                },
                Err(NanocodexError::InvalidSessionSnapshot(reason)) => {
                    if canonical_context.from_user() {
                        fault == Some(reason)
                    } else {
                        reason@ == "canonical context must be a user message"@
                    }
                },
                Err(_) => false,
            },
    {
        if !canonical_context.is_user_message() {
            return Err(
                NanocodexError::InvalidSessionSnapshot(
                    "canonical context must be a user message".to_owned(),
                ),
            );
        }
        if let Some(reason) = fault {
            return Err(NanocodexError::InvalidSessionSnapshot(reason));
        }
        let identified = assign_missing_id(canonical_context, fresh);
        Ok(ConversationState::start(Arc::new(identified), &history))
    }

    /// The canonical context.
    pub fn canonical_context(&self) -> (r: Arc<ResponseItem>)
        ensures
            r == self@.canonical_context,
    {
        self.canonical_context.clone()
    }

    /// A copy of the items.
    pub fn flattened_history(&self) -> (r: Vec<Arc<ResponseItem>>)
        ensures
            r@ == self@.history,
    {
        clone_history(&self.history)
    }

    /// Where the next request's own items start.
    pub fn delta_start(&self) -> (r: usize)
        ensures
            r == self@.delta_start,
    {
        self.delta_start
    }

    /// The response that the next request continues from.
    pub fn previous_response_id(&self) -> (r: Option<String>)
        ensures
            r == self@.previous_response_id,
    {
        clone_text(&self.previous_response_id)
    }

    /// Sets the response that the next request continues from.
    pub fn set_previous_response_id(&mut self, response_id: String)
        ensures
            final(self)@ == (ConversationView {
                previous_response_id: Some(response_id),
                ..old(self)@
            }),
    {
        proof {
            use_type_invariant(&*self);
        }
        self.previous_response_id = Some(response_id);
    }

    /// Marks every item as known to the provider.
    pub fn clear_delta(&mut self)
        ensures
            final(self)@ == old(self)@.without_delta(),
    {
        proof {
            use_type_invariant(&*self);
        }
        self.delta_start = self.history.len();
    }

    /// Adds items. One without an identity gets the next one of its kind.
    pub fn append(&mut self, items: &Vec<Arc<ResponseItem>>)
        requires
            old(self)@.history.len() + items@.len() <= usize::MAX,
        ensures
            final(self)@ == old(self)@.with_items(items@),
    {
        proof {
            use_type_invariant(&*self);
        }
        let (kept, item_count) = retain(items, &self.item_seed, self.item_count);
        proof {
            lemma_retained_identified(items@, self.item_seed, self.item_count);
        }
        let mut history = clone_history(&self.history);
        append_items(&mut history, &kept);
        self.history = history;
        self.item_count = item_count;
    }

    /// Adds one item.
    pub fn append_one(&mut self, item: Arc<ResponseItem>)
        requires
            old(self)@.history.len() < usize::MAX,
        ensures
            final(self)@ == old(self)@.with_items(seq![item]),
    {
        let mut items: Vec<Arc<ResponseItem>> = Vec::new();
        items.push(item);
        self.append(&items);
    }

    /// Remembers whether the provider counts earlier reasoning as context.
    pub fn observe_server_reasoning(&mut self, included: bool)
        ensures
            final(self)@ == old(self)@.hearing(included),
    {
        proof {
            use_type_invariant(&*self);
        }
        if included {
            self.server_reasoning_included = true;
        }
    }

    /// Gives up the continuation.
    pub fn reset_for_full_request(&mut self)
        ensures
            final(self)@ == old(self)@.replayed(),
    {
        proof {
            use_type_invariant(&*self);
        }
        self.delta_start = 0;
        self.previous_response_id = None;
    }

    /// Prepares a request under given settings.
    pub fn prepare_request_policy(&mut self, policy: ContinuationPolicy)
        ensures
            final(self)@ == old(self)@.under_policy(policy),
    {
        if let Some(previous) = self.continuation_policy {
            if previous != policy {
                self.reset_for_full_request();
            }
        }
        proof {
            use_type_invariant(&*self);
        }
        self.continuation_policy = Some(policy);
    }

    /// Takes a repaired history in place of the own one.
    pub fn adopt_prompt_history(&mut self, history: Vec<Arc<ResponseItem>>)
        ensures
            final(self)@ == old(self)@.replaced(history@),
    {
        self.reset_for_full_request();
        proof {
            use_type_invariant(&*self);
        }
        let (kept, item_count) = retain(&history, &self.item_seed, self.item_count);
        proof {
            lemma_retained_identified(history@, self.item_seed, self.item_count);
        }
        self.delta_start = 0;
        self.history = kept;
        self.item_count = item_count;
    }

    /// Installs the history that a compaction before a turn left.
    pub fn install_pre_turn_compaction(&mut self, installed: Vec<Arc<ResponseItem>>)
        ensures
            final(self)@ == old(self)@.replaced(installed@),
    {
        self.adopt_prompt_history(installed);
    }

    /// Installs the history that a compaction within a turn left, together
    /// with the environment that it states again.
    pub fn install_mid_turn_compaction(
        &mut self,
        installed: Vec<Arc<ResponseItem>>,
        canonical_context: Arc<ResponseItem>,
    )
        ensures
            final(self)@ == (ConversationView {
                canonical_context,
                ..old(self)@.replaced(installed@)
            }),
    {
        self.adopt_prompt_history(installed);
        self.set_canonical_context(canonical_context);
    }

    /// States the environment again in full.
    pub fn append_canonical_context(
        &mut self,
        developer_context: Arc<ResponseItem>,
        canonical_context: Arc<ResponseItem>,
    )
        requires
            old(self)@.history.len() + 2 <= usize::MAX,
        ensures
            final(self)@ == (ConversationView {
                canonical_context,
                ..old(self)@.with_items(seq![developer_context, canonical_context])
            }),
    {
        let mut items: Vec<Arc<ResponseItem>> = Vec::new();
        items.push(developer_context);
        items.push(canonical_context.clone());
        proof {
            assert(items@ =~= seq![developer_context, canonical_context]);
        }
        self.append(&items);
        self.set_canonical_context(canonical_context);
    }

    /// Sets the canonical context.
    pub fn set_canonical_context(&mut self, canonical_context: Arc<ResponseItem>)
        ensures
            final(self)@ == (ConversationView { canonical_context, ..old(self)@ }),
    {
        proof {
            use_type_invariant(&*self);
        }
        self.canonical_context = canonical_context;
    }

    /// Checks that a completed turn left a response to continue from.
    pub fn commit(&self) -> (r: Option<NanocodexError>)
        ensures
            match r {
                None => self@.previous_response_id is Some,
                Some(error) => {
                    &&& self@.previous_response_id is None
                    &&& error matches NanocodexError::MalformedResponse { detail } && detail@
                        == "completed turn did not have a response ID"@
                },
            },
    {
        if self.previous_response_id.is_none() {
            Some(
                NanocodexError::MalformedResponse {
                    detail: "completed turn did not have a response ID",
                },
            )
        } else {
            None
        }
    }

    /// Keeps the items of an interrupted turn and gives up the continuation.
    pub fn commit_interrupted(&mut self)
        ensures
            final(self)@ == old(self)@.replayed(),
    {
        self.reset_for_full_request();
    }
}

/// The item that a conversation keeps for one that may lack an identity.
pub open spec fn identified_if_missing(item: ResponseItem, fresh: ResponseItemId) -> ResponseItem {
    match item.identity() {
        Some(id) if !id.blank_id() => item,
        _ => item.identified(Some(fresh)),
    }
}

/// Gives an item an identity if it lacks one.
pub fn assign_missing_id(item: &ResponseItem, fresh: ResponseItemId) -> (r: ResponseItem)
    ensures
        r == identified_if_missing(*item, fresh),
{
    let missing = match item.id() {
        Some(id) => id.is_empty(),
        None => true,
    };
    if missing {
        item.with_id(Some(fresh))
    } else {
        let kept = match item.id() {
            Some(id) => Some(id.clone()),
            None => None,
        };
        item.with_id(kept)
    }
}

/// What the model was last told of its environment.
#[derive(Debug)]
pub enum ContextBaseline {
    /// Nothing that the agent knows of.
    Missing,
    /// The environment as it was stated.
    Known(String),
}

impl Clone for ContextBaseline {
    fn clone(&self) -> (r: Self)
        ensures
            r == *self,
    {
        match self {
            ContextBaseline::Missing => ContextBaseline::Missing,
            ContextBaseline::Known(text) => ContextBaseline::Known(text.clone()),
        }
    }
}

/// Identity of the requests of one conversation.
pub struct RequestProfile {
    /// Identity of the session.
    pub session_id: String,
    /// Cache key of the prefix.
    pub prompt_cache_key: String,
    /// Tools and instructions.
    pub prefix: Arc<Vec<Arc<ResponseItem>>>,
}

impl Clone for RequestProfile {
    fn clone(&self) -> (r: Self)
        ensures
            r == *self,
    {
        RequestProfile {
            session_id: self.session_id.clone(),
            prompt_cache_key: self.prompt_cache_key.clone(),
            prefix: self.prefix.clone(),
        }
    }
}

/// The item that a request prefix holds for a given one: the list of tools has
/// no identity, and everything else has one.
pub open spec fn prefix_form(item: ResponseItem, fresh: ResponseItemId) -> ResponseItem {
    if item is AdditionalTools {
        item.identified(None)
    } else {
        identified_if_missing(item, fresh)
    }
}

/// Gives the items of a request prefix their identities. `fresh` holds one new
/// identity for each item.
pub fn assign_request_prefix_ids(
    prefix: &Vec<Arc<ResponseItem>>,
    fresh: &Vec<ResponseItemId>,
) -> (r: Vec<Arc<ResponseItem>>)
    requires
        fresh@.len() == prefix@.len(),
        forall|i: int| 0 <= i < fresh@.len() ==> !(#[trigger] fresh@[i]).blank_id(),
    ensures
        r@.len() == prefix@.len(),
        forall|i: int|
            0 <= i < prefix@.len() ==> *(#[trigger] r@[i]) == prefix_form(*prefix@[i], fresh@[i]),
        forall|i: int|
            0 <= i < prefix@.len() ==> (#[trigger] r@[i]).has_identity() == !(*prefix@[i] is
                AdditionalTools),
{
    let mut out: Vec<Arc<ResponseItem>> = Vec::new();
    let mut i: usize = 0;
    while i < prefix.len()
        invariant
            i <= prefix@.len(),
            out@.len() == i,
            fresh@.len() == prefix@.len(),
            forall|j: int| 0 <= j < fresh@.len() ==> !(#[trigger] fresh@[j]).blank_id(),
            forall|j: int|
                0 <= j < i ==> *(#[trigger] out@[j]) == prefix_form(*prefix@[j], fresh@[j]),
            forall|j: int|
                0 <= j < i ==> (#[trigger] out@[j]).has_identity() == !(*prefix@[j] is
                    AdditionalTools),
        decreases prefix@.len() - i,
    {
        let tools = match &*prefix[i] {
            ResponseItem::AdditionalTools { .. } => true,
            _ => false,
        };
        let item = if tools {
            prefix[i].with_id(None)
        } else {
            assign_missing_id(&*prefix[i], fresh[i].clone())
        };
        proof {
            assert(!fresh@[i as int].blank_id());
            lemma_identified(prefix@[i as int], fresh@[i as int]);
        }
        out.push(Arc::new(item));
        i = i + 1;
    }
    out
}

/// Whether a prefix states given tools and instructions: the tools without an
/// identity, and the instructions under one.
pub open spec fn states(
    prefix: Seq<Arc<ResponseItem>>,
    tools: Seq<ToolDefinition>,
    system_prompt: Seq<char>,
) -> bool {
    &&& prefix.len() == 2
    &&& (*prefix[0] matches ResponseItem::AdditionalTools { id, tools: listed } && id is None
        && listed@ == tools)
    &&& (*prefix[1] matches ResponseItem::Message { role, content, .. } && role
        == MessageRole::Developer && content@.len() == 1 && (content@[0]
        matches ContentItem::InputText { text } && text@ == system_prompt))
    &&& prefix[1].has_identity()
    &&& prefix[1].identity()->0.written() == "msg_nanocodex-instructions"@
}

/// Makes the identity of requests with given tools and instructions.
pub fn request_profile(
    session_id: &str,
    prompt_cache_key: &str,
    tool_specs: Vec<ToolDefinition>,
    system_prompt: &str,
) -> (r: RequestProfile)
    ensures
        r.session_id@ == session_id@,
        r.prompt_cache_key@ == prompt_cache_key@,
        states(r.prefix@, tool_specs@, system_prompt@),
{
    let mut content: Vec<ContentItem> = Vec::new();
    content.push(ContentItem::InputText { text: system_prompt.to_owned() });
    let mut given: Vec<Arc<ResponseItem>> = Vec::new();
    given.push(Arc::new(ResponseItem::additional_tools(tool_specs)));
    given.push(Arc::new(ResponseItem::message(MessageRole::Developer, content)));
    let mut fresh: Vec<ResponseItemId> = Vec::new();
    fresh.push(ResponseItemId::with_suffix("at", "nanocodex-tools"));
    fresh.push(ResponseItemId::with_suffix("msg", "nanocodex-instructions"));
    let prefix = assign_request_prefix_ids(&given, &fresh);
    proof {
        reveal_strlit("msg");
        reveal_strlit("_");
        reveal_strlit("nanocodex-instructions");
        reveal_strlit("msg_nanocodex-instructions");
        lemma_identified(given@[1], fresh@[1]);
        assert("msg"@ + "_"@ + "nanocodex-instructions"@ =~= "msg_nanocodex-instructions"@);
    }
    RequestProfile {
        session_id: session_id.to_owned(),
        prompt_cache_key: prompt_cache_key.to_owned(),
        prefix: Arc::new(prefix),
    }
}

/// Copies items without their identities.
pub fn without_response_item_ids(items: &Vec<Arc<ResponseItem>>) -> (r: Vec<Arc<ResponseItem>>)
    ensures
        r@.len() == items@.len(),
        forall|i: int|
            0 <= i < items@.len() ==> *(#[trigger] r@[i]) == items@[i].identified(None),
{
    let mut out: Vec<Arc<ResponseItem>> = Vec::new();
    let mut i: usize = 0;
    while i < items.len()
        invariant
            i <= items@.len(),
            out@.len() == i,
            forall|j: int| 0 <= j < i ==> *(#[trigger] out@[j]) == items@[j].identified(None),
        decreases items@.len() - i,
    {
        out.push(Arc::new(items[i].with_id(None)));
        i = i + 1;
    }
    out
}

/// A boundary that an agent can be resumed and branched from.
pub struct ModelCheckpoint {
    /// Workspace of the conversation.
    pub workspace: String,
    /// The conversation.
    pub conversation: ConversationState,
    /// Tools and instructions.
    pub request_prefix: Arc<Vec<Arc<ResponseItem>>>,
    /// Cache key of the prefix.
    pub prompt_cache_key: String,
    /// Whether the next turn still owes the provider items of this one.
    pub preserve_inherited_delta: bool,
    /// Instructions that hold in every workspace.
    pub global_instructions: Option<String>,
    /// What the model was last told of its environment.
    pub context_baseline: ContextBaseline,
}

/// What a checkpoint holds.
#[verifier::ext_equal]
pub struct CheckpointView {
    /// Workspace of the conversation.
    pub workspace: String,
    /// The conversation.
    pub conversation: ConversationView,
    /// Tools and instructions.
    pub request_prefix: Arc<Vec<Arc<ResponseItem>>>,
    /// Cache key of the prefix.
    pub prompt_cache_key: String,
    /// Whether the next turn still owes the provider items of this one.
    pub preserve_inherited_delta: bool,
    /// Instructions that hold in every workspace.
    pub global_instructions: Option<String>,
    /// What the model was last told of its environment.
    pub context_baseline: ContextBaseline,
}

impl View for ModelCheckpoint {
    type V = CheckpointView;

    open spec fn view(&self) -> CheckpointView {
        CheckpointView {
            workspace: self.workspace,
            conversation: self.conversation@,
            request_prefix: self.request_prefix,
            prompt_cache_key: self.prompt_cache_key,
            preserve_inherited_delta: self.preserve_inherited_delta,
            global_instructions: self.global_instructions,
            context_baseline: self.context_baseline,
        }
    }
}

impl Clone for ModelCheckpoint {
    fn clone(&self) -> (r: Self)
        ensures
            r@ == self@,
    {
        ModelCheckpoint {
            workspace: self.workspace.clone(),
            conversation: self.conversation.clone(),
            request_prefix: self.request_prefix.clone(),
            prompt_cache_key: self.prompt_cache_key.clone(),
            preserve_inherited_delta: self.preserve_inherited_delta,
            global_instructions: clone_text(&self.global_instructions),
            context_baseline: self.context_baseline.clone(),
        }
    }
}

/// A stored boundary as it is read back.
pub struct HistoryCheckpoint {
    /// Workspace of the conversation.
    pub workspace: String,
    /// The user message that states the environment in full.
    pub canonical_context: Arc<ResponseItem>,
    /// Items in order.
    pub history: Vec<Arc<ResponseItem>>,
    /// What is wrong with the items, if anything.
    pub fault: Option<String>,
    /// Cache key of the prefix.
    pub prompt_cache_key: String,
    /// What the model was last told of its environment, where that was stored.
    pub context_baseline: Option<ContextBaseline>,
}

impl ModelCheckpoint {
    /// Resumes a stored boundary under a request prefix.
    ///
    /// `fresh` holds one new identity for each item of the prefix, and
    /// `fresh_context` is one for the canonical context. `reconstructed` is
    /// what the history itself tells of the environment, for a boundary that
    /// was stored without it. Fails as the conversation's own resumption does.
    pub fn resume(
        stored: HistoryCheckpoint,
        request_prefix: &Vec<Arc<ResponseItem>>,
        fresh: &Vec<ResponseItemId>,
        fresh_context: ResponseItemId,
        global_instructions: Option<String>,
        reconstructed: ContextBaseline,
    ) -> (r: Result<Self, NanocodexError>)
        requires
            fresh@.len() == request_prefix@.len(),
            forall|i: int| 0 <= i < fresh@.len() ==> !(#[trigger] fresh@[i]).blank_id(),
        ensures
            match r {
                Ok(checkpoint) => {
                    &&& stored.canonical_context.from_user()
                    &&& stored.fault is None
                    &&& checkpoint@ == (CheckpointView {
                        workspace: stored.workspace,
                        conversation: ConversationView::started(
                            Arc::new(
                                identified_if_missing(*stored.canonical_context, fresh_context),
                            ),
                            stored.history@,
                            checkpoint.conversation@.item_seed,
                        ),
                        request_prefix: checkpoint.request_prefix,
                        prompt_cache_key: stored.prompt_cache_key,
                        preserve_inherited_delta: false,
                        global_instructions,
                        context_baseline: match stored.context_baseline {
                            Some(baseline) => baseline,
                            None => reconstructed,
                        },
                    })
                    &&& checkpoint.request_prefix@.len() == request_prefix@.len()
                    &&& forall|i: int|
                        0 <= i < request_prefix@.len() ==> *(
                        #[trigger] checkpoint.request_prefix@[i]) == prefix_form(
                            *request_prefix@[i],
                            fresh@[i],
                        )
                    &&& forall|i: int|
                        0 <= i < request_prefix@.len() ==> (
                        #[trigger] checkpoint.request_prefix@[i]).has_identity() == !(
                        *request_prefix@[i] is AdditionalTools)
                },
                Err(NanocodexError::InvalidSessionSnapshot(reason)) => {
                    if stored.canonical_context.from_user() {
                        stored.fault == Some(reason)
                    } else {
                        reason@ == "canonical context must be a user message"@
                    }
                },
                Err(_) => false,
            },
    {
        let prefix = assign_request_prefix_ids(request_prefix, fresh);
        match ConversationState::resume(
            &*stored.canonical_context,
            fresh_context,
            stored.history,
            stored.fault,
        ) {
            Ok(conversation) => Ok(
                ModelCheckpoint {
                    workspace: stored.workspace,
                    conversation,
                    request_prefix: Arc::new(prefix),
                    prompt_cache_key: stored.prompt_cache_key,
                    preserve_inherited_delta: false,
                    global_instructions,
                    context_baseline: match stored.context_baseline {
                        Some(baseline) => baseline,
                        None => reconstructed,
                    },
                },
            ),
            Err(error) => Err(error),
        }
    }

    /// Lets instructions of the resuming agent take the place of the stored
    /// ones, where it has any.
    pub fn prefer_global_instructions(&mut self, current: Option<String>)
        ensures
            final(self)@ == (CheckpointView {
                global_instructions: if current is Some {
                    current
                } else {
                    old(self)@.global_instructions
                },
                ..old(self)@
            }),
    {
        if current.is_some() {
            self.global_instructions = current;
        }
    }
}

/// Whether two byte strings are the same.
fn same_bytes(a: &Vec<u8>, b: &Vec<u8>) -> (r: bool)
    ensures
        r == (a@ == b@),
{
    if a.len() != b.len() {
        return false;
    }
    let mut i: usize = 0;
    while i < a.len()
        invariant
            i <= a@.len(),
            a@.len() == b@.len(),
            forall|j: int| 0 <= j < i ==> a@[j] == b@[j],
        decreases a@.len() - i,
    {
        if a[i] != b[i] {
            proof {
                assert(a@[i as int] != b@[i as int]);
            }
            return false;
        }
        i = i + 1;
    }
    proof {
        assert(a@ =~= b@);
    }
    true
}

/// Checks that a resumed session still has the tools and instructions that it
/// was stored with. Both prefixes are given as JSON without identities, or as
/// the reason why they could not be written.
pub fn validate_resumed_prefix(
    expected: &Result<Vec<u8>, String>,
    stored: &Result<Vec<u8>, String>,
) -> (r: Option<NanocodexError>)
    ensures
        match r {
            None => expected is Ok && stored is Ok && expected->Ok_0@ == stored->Ok_0@,
            Some(NanocodexError::InvalidSessionSnapshot(reason)) => match *expected {
                Err(error) => reason@ == "failed to validate the request prefix: "@ + error@,
                Ok(expected) => match *stored {
                    Err(error) => reason@ == "failed to validate the stored request prefix: "@
                        + error@,
                    Ok(stored) => expected@ != stored@ && reason@
                        == "instructions or tool definitions do not match the resumed session"@,
                },
            },
            Some(_) => false,
        },
{
    match expected {
        Err(error) => Some(
            NanocodexError::InvalidSessionSnapshot(
                join("failed to validate the request prefix: ", error.as_str()),
            ),
        ),
        Ok(expected) => match stored {
            Err(error) => Some(
                NanocodexError::InvalidSessionSnapshot(
                    join("failed to validate the stored request prefix: ", error.as_str()),
                ),
            ),
            Ok(stored) => {
                if same_bytes(expected, stored) {
                    None
                } else {
                    Some(
                        NanocodexError::InvalidSessionSnapshot(
                            "instructions or tool definitions do not match the resumed session".to_owned(),
                        ),
                    )
                }
            },
        },
    }
}

/// Changing the settings between two requests forces a full replay; keeping
/// them does not touch the continuation.
pub proof fn law_policy_change_forces_full_replay(
    conversation: ConversationView,
    first: ContinuationPolicy,
    second: ContinuationPolicy,
)
    ensures
        ({
            let after = conversation.under_policy(first).under_policy(second);
            if first == second {
                after == conversation.under_policy(first)
            } else {
                after.previous_response_id is None && after.delta_start == 0
            }
        }),
        conversation.under_policy(first).under_policy(second).history == conversation.history,
{
}

/// An interrupted turn keeps every item and gives up the continuation only.
pub proof fn law_interruption_keeps_the_history(conversation: ConversationView)
    ensures
        conversation.replayed().history == conversation.history,
        conversation.replayed().canonical_context == conversation.canonical_context,
        conversation.replayed().previous_response_id is None,
        conversation.replayed().delta_start == 0,
        conversation.replayed().replayed() == conversation.replayed(),
{
}

/// Assigning prefix identities twice changes nothing the second time: the list
/// of tools stays without one, and every other item keeps its own.
pub proof fn law_prefix_identities_are_stable(
    item: ResponseItem,
    fresh: ResponseItemId,
    later: ResponseItemId,
)
    requires
        !fresh.blank_id(),
    ensures
        prefix_form(prefix_form(item, fresh), later) == prefix_form(item, fresh),
{
}

/// Whatever is added to a conversation or takes the place of its history, every
/// item has an identity: its own, or one that names its kind.
pub proof fn law_retained_items_are_identified(
    conversation: ConversationView,
    items: Seq<Arc<ResponseItem>>,
)
    requires
        conversation.well_formed(),
    ensures
        conversation.with_items(items).well_formed(),
        conversation.replaced(items).well_formed(),
        conversation.replayed().well_formed(),
        conversation.without_delta().well_formed(),
        forall|i: int|
            0 <= i < items.len() ==> ({
                let kept = #[trigger] conversation.with_items(
                    items,
                ).history[conversation.history.len() + i];
                if items[i].has_identity() {
                    kept == items[i]
                } else {
                    *kept == items[i].identified(kept.identity()) && (
                    kept.identity()->0 matches ResponseItemId::Numbered { kind, .. } && kind
                        == items[i].kind())
                }
            }),
{
    lemma_retained_identified(items, conversation.item_seed, conversation.item_count);
    let kept = retained(items, conversation.item_seed, conversation.item_count);
    let after = conversation.with_items(items).history;
    assert forall|i: int| 0 <= i < after.len() implies (#[trigger] after[i]).has_identity() by {
        if i < conversation.history.len() {
            assert(after[i] == conversation.history[i]);
        } else {
            assert(after[i] == kept[i - conversation.history.len()]);
        }
    }
    assert forall|i: int| 0 <= i < items.len() implies ({
        let kept = #[trigger] after[conversation.history.len() + i];
        if items[i].has_identity() {
            kept == items[i]
        } else {
            *kept == items[i].identified(kept.identity()) && (
            kept.identity()->0 matches ResponseItemId::Numbered { kind, .. } && kind
                == items[i].kind())
        }
    }) by {
        assert(after[conversation.history.len() + i] == kept[i]);
    }
}

/// Two items that got their identities from one conversation have different
/// ones, as long as the count has not reached its end.
pub proof fn law_given_identities_differ(
    conversation: ConversationView,
    items: Seq<Arc<ResponseItem>>,
    i: int,
    j: int,
)
    requires
        0 <= i < j < items.len(),
        !items[i].has_identity(),
        !items[j].has_identity(),
        conversation.item_count + items.len() <= u64::MAX,
    ensures
        ({
            let after = conversation.with_items(items).history;
            let start = conversation.history.len();
            after[start + i].identity() != after[start + j].identity()
        }),
{
    let kept = retained(items, conversation.item_seed, conversation.item_count);
    let after = conversation.with_items(items).history;
    let start = conversation.history.len();
    assert(after[start + i] == kept[i]);
    assert(after[start + j] == kept[j]);
}

/// Adding items one batch after the other is adding them together.
pub proof fn law_batches_join(
    conversation: ConversationView,
    first: Seq<Arc<ResponseItem>>,
    second: Seq<Arc<ResponseItem>>,
)
    ensures
        conversation.with_items(first).with_items(second) == conversation.with_items(
            first + second,
        ),
{
    let joined = conversation.with_items(first + second);
    let apart = conversation.with_items(first).with_items(second);
    assert(joined.history =~= apart.history);
}

/// Adding an item as the conversation keeps it is adding the item.
pub(crate) proof fn lemma_kept_item(conversation: ConversationView, item: Arc<ResponseItem>)
    ensures
        ({
            let after = conversation.with_items(seq![item]);
            let kept = after.history.last();
            &&& after.history == conversation.history.push(kept)
            &&& conversation.with_items(seq![kept]) == after
            &&& *kept == identified_if_missing(*item, conversation.next_identity(item.kind()))
            &&& kept.kind() == item.kind()
            &&& kept.has_identity()
        }),
{
    let after = conversation.with_items(seq![item]);
    let kept = after.history.last();
    let fresh = conversation.next_identity(item.kind());
    lemma_identified(item, fresh);
    let one = retained(seq![item], conversation.item_seed, conversation.item_count);
    assert(one[0] == kept);
    assert(after.history =~= conversation.history.push(kept));
    let again = retained(seq![kept], conversation.item_seed, conversation.item_count);
    assert(again =~= one);
}

/// Whether a kept item stands for a given one: it says the same, and keeps its
/// identity where it has one.
pub open spec fn stands_for(kept: Arc<ResponseItem>, item: Arc<ResponseItem>) -> bool {
    &&& items::says_the_same(*kept, *item)
    &&& kept.has_identity()
    &&& item.has_identity() ==> kept.identity() == item.identity()
}

/// Whether a history is another one with given items behind it, in order.
pub open spec fn grown(
    before: Seq<Arc<ResponseItem>>,
    after: Seq<Arc<ResponseItem>>,
    added: Seq<Arc<ResponseItem>>,
) -> bool {
    &&& after.len() == before.len() + added.len()
    &&& forall|i: int| 0 <= i < before.len() ==> #[trigger] after[i] == before[i]
    &&& forall|i: int|
        before.len() <= i < after.len() ==> stands_for(#[trigger] after[i], added[i - before.len()])
}

/// Kept items stand for the given ones.
pub proof fn lemma_retained_stand(items: Seq<Arc<ResponseItem>>, seed: String, count: u64)
    ensures
        grown(Seq::empty(), retained(items, seed, count), items),
{
    let kept = retained(items, seed, count);
    assert forall|i: int| 0 <= i < kept.len() implies stands_for(#[trigger] kept[i], items[i]) by {
        let fresh = numbered(items[i].kind(), seed, advanced(count, i as nat));
        lemma_identified(items[i], fresh);
        items::law_an_identity_changes_no_content(*items[i], Some(fresh), None);
        items::law_an_identity_changes_no_content(*items[i], items[i].identity(), None);
    }
}

/// What is added to a conversation stands behind what it holds, every item in
/// its order, and nothing else changes.
pub proof fn law_added_items_stand_behind_the_others(
    conversation: ConversationView,
    items: Seq<Arc<ResponseItem>>,
)
    ensures
        ({
            let after = conversation.with_items(items);
            &&& grown(conversation.history, after.history, items)
            &&& after.canonical_context == conversation.canonical_context
            &&& after.previous_response_id == conversation.previous_response_id
            &&& after.delta_start == conversation.delta_start
            &&& after.server_reasoning_included == conversation.server_reasoning_included
            &&& after.continuation_policy == conversation.continuation_policy
            &&& after.item_seed == conversation.item_seed
            &&& after.item_count >= conversation.item_count
        }),
{
    let kept = retained(items, conversation.item_seed, conversation.item_count);
    let after = conversation.with_items(items).history;
    lemma_retained_stand(items, conversation.item_seed, conversation.item_count);
    assert forall|i: int| conversation.history.len() <= i < after.len() implies stands_for(
        #[trigger] after[i],
        items[i - conversation.history.len()],
    ) by {
        assert(after[i] == kept[i - conversation.history.len()]);
    }
}

/// A history that takes the place of another one leaves nothing of it behind,
/// and no response knows it: the next request carries all of it. The rest of
/// the conversation stays.
pub proof fn law_replaced_history_is_sent_in_full(
    conversation: ConversationView,
    items: Seq<Arc<ResponseItem>>,
)
    ensures
        ({
            let after = conversation.replaced(items);
            &&& grown(Seq::empty(), after.history, items)
            &&& after.previous_response_id is None
            &&& after.delta_start == 0
            &&& after.canonical_context == conversation.canonical_context
            &&& after.server_reasoning_included == conversation.server_reasoning_included
            &&& after.continuation_policy == conversation.continuation_policy
            &&& after.item_seed == conversation.item_seed
        }),
{
    lemma_retained_stand(items, conversation.item_seed, conversation.item_count);
}

/// A new conversation holds what it starts with, in order, and continues from
/// no response.
pub proof fn law_conversations_start_with_their_items(
    canonical_context: Arc<ResponseItem>,
    items: Seq<Arc<ResponseItem>>,
    item_seed: String,
)
    ensures
        ({
            let started = ConversationView::started(canonical_context, items, item_seed);
            &&& grown(Seq::empty(), started.history, items)
            &&& started.canonical_context == canonical_context
            &&& started.previous_response_id is None
            &&& started.delta_start == 0
            &&& !started.server_reasoning_included
            &&& started.continuation_policy is None
            &&& started.item_seed == item_seed
        }),
{
    lemma_retained_stand(items, item_seed, 0);
}

/// Once the provider knows everything, only what is added later is left to be
/// sent; the history and the response to continue from stay.
pub proof fn law_known_items_are_not_owed(
    conversation: ConversationView,
    items: Seq<Arc<ResponseItem>>,
)
    ensures
        ({
            let known = conversation.without_delta();
            let later = known.with_items(items);
            &&& known.history == conversation.history
            &&& known.previous_response_id == conversation.previous_response_id
            &&& known.canonical_context == conversation.canonical_context
            &&& known.delta_start == conversation.history.len()
            &&& grown(Seq::empty(), later.history.skip(later.delta_start as int), items)
        }),
{
    let known = conversation.without_delta();
    let later = known.with_items(items);
    lemma_retained_stand(items, known.item_seed, known.item_count);
    assert(later.history.skip(later.delta_start as int) =~= retained(
        items,
        known.item_seed,
        known.item_count,
    ));
}

/// What the provider once said of earlier reasoning holds on; saying nothing
/// new changes nothing, and no item is touched.
pub proof fn law_reasoning_is_remembered(conversation: ConversationView, first: bool, second: bool)
    ensures
        conversation.hearing(true).hearing(second).server_reasoning_included,
        conversation.hearing(false) == conversation,
        conversation.hearing(first).hearing(second) == conversation.hearing(second).hearing(first),
        conversation.hearing(first).history == conversation.history,
        conversation.hearing(first).previous_response_id == conversation.previous_response_id,
        conversation.hearing(first).delta_start == conversation.delta_start,
{
}

/// The settings of the last request are remembered, and the first request under
/// any settings keeps the continuation.
pub proof fn law_settings_are_remembered(
    conversation: ConversationView,
    policy: ContinuationPolicy,
)
    ensures
        ({
            let after = conversation.under_policy(policy);
            &&& after.continuation_policy == Some(policy)
            &&& after.history == conversation.history
            &&& after.canonical_context == conversation.canonical_context
            &&& conversation.continuation_policy is None ==> after.previous_response_id
                == conversation.previous_response_id && after.delta_start
                == conversation.delta_start
            &&& conversation.continuation_policy == Some(policy) ==> after == conversation
        }),
{
}

/// The first user message is one of the history, written by the user, with none
/// before it; where there is none, nobody but others wrote.
pub proof fn law_first_user_message_is_the_first(history: Seq<Arc<ResponseItem>>)
    ensures
        match first_user_message(history) {
            Some(message) => exists|i: int|
                {
                    &&& 0 <= i < history.len()
                    &&& #[trigger] history[i] == message
                    &&& (*message matches ResponseItem::Message { role, .. } && role
                        == MessageRole::User)
                    &&& forall|j: int|
                        0 <= j < i ==> !(*(#[trigger] history[j]) matches ResponseItem::Message {
                            role,
                            ..
                        } && role == MessageRole::User)
                },
            None => forall|j: int|
                0 <= j < history.len() ==> !(*(#[trigger] history[j])
                    matches ResponseItem::Message { role, .. } && role == MessageRole::User),
        },
    decreases history.len(),
{
    if history.len() > 0 {
        let rest = history.skip(1);
        law_first_user_message_is_the_first(rest);
        let users = |item: Arc<ResponseItem>| item.from_user();
        if users(history[0]) {
            assert(history[0] == first_user_message(history)->0);
        } else {
            match first_user_message(rest) {
                Some(message) => {
                    let i = choose|i: int|
                        {
                            &&& 0 <= i < rest.len()
                            &&& #[trigger] rest[i] == message
                            &&& (*message matches ResponseItem::Message { role, .. } && role
                                == MessageRole::User)
                            &&& forall|j: int|
                                0 <= j < i ==> !(*(#[trigger] rest[j])
                                    matches ResponseItem::Message { role, .. } && role
                                    == MessageRole::User)
                        };
                    assert(history[i + 1] == message);
                    assert forall|j: int| 0 <= j < i + 1 implies !(*(#[trigger] history[j])
                        matches ResponseItem::Message { role, .. } && role
                        == MessageRole::User) by {
                        if j > 0 {
                            assert(rest[j - 1] == history[j]);
                        }
                    }
                },
                None => {
                    assert forall|j: int| 0 <= j < history.len() implies !(*(#[trigger] history[j])
                        matches ResponseItem::Message { role, .. } && role
                        == MessageRole::User) by {
                        if j > 0 {
                            assert(rest[j - 1] == history[j]);
                        }
                    }
                },
            }
        }
    }
}

/// The list of tools in a prefix never has an identity, every other item has
/// one, and none of them says anything else than before.
pub proof fn law_prefix_items_say_the_same(item: ResponseItem, fresh: ResponseItemId)
    requires
        !fresh.blank_id(),
    ensures
        items::says_the_same(prefix_form(item, fresh), item),
        item is AdditionalTools ==> prefix_form(item, fresh).identity() is None,
        !(item is AdditionalTools) ==> prefix_form(item, fresh).has_identity(),
        !(item is AdditionalTools) && item.has_identity() ==> prefix_form(item, fresh) == item,
{
    items::law_an_identity_changes_no_content(item, None, None);
    items::law_an_identity_changes_no_content(item, Some(fresh), None);
    items::law_an_identity_changes_no_content(item, item.identity(), None);
}

/// The prefix of a conversation's requests states its tools, which have no
/// identity, and its instructions as one message of the developer, which has a
/// fixed one.
pub proof fn law_prefixes_state_tools_and_instructions(
    prefix: Seq<Arc<ResponseItem>>,
    tools: Seq<ToolDefinition>,
    system_prompt: Seq<char>,
)
    requires
        states(prefix, tools, system_prompt),
    ensures
        prefix.len() == 2,
        *prefix[0] matches ResponseItem::AdditionalTools { id, tools: listed } && id is None
            && listed@ == tools,
        *prefix[1] matches ResponseItem::Message { role, content, .. } && role
            == MessageRole::Developer && content@.len() == 1 && (content@[0]
            matches ContentItem::InputText { text } && text@ == system_prompt),
        prefix[1].identity() matches Some(id) && id.written() == "msg_nanocodex-instructions"@,
        prefix[1].has_identity(),
{
}

} // verus!
