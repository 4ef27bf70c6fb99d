//! Agents that branch off another one: what they inherit and what is their own.
use crate::config::{Model, ModelConfig, Thinking};
use crate::conversation;
use crate::conversation::{HistoryCheckpoint, ModelCheckpoint};
use crate::error::NanocodexError;
use crate::items::clone_text;
use crate::session;
use crate::session_id;
use crate::session_id::SessionId;
use std::sync::Arc;
use vstd::prelude::*;
use vstd::string::*;

verus! {

/// Which tools an agent gets.
#[derive(Clone, Copy, Debug, PartialEq, Eq, Structural)]
pub enum ToolProfile {
    /// Those of an agent that a caller built.
    Primary,
    /// Those of an agent that another one started.
    Child,
}

/// How an agent gets its tools.
pub enum ToolsFactory<T, F> {
    /// The same tools for every agent.
    Fixed(T),
    /// By a call of a factory for each agent.
    Call(F),
}

/// How the agents of a family get their tools. `T` are tools, `F` makes them.
pub enum ToolsConfiguration<T, F> {
    /// The same tools for every agent.
    Shared(T),
    /// Tools of its own for each agent.
    PerAgent {
        /// For agents without a factory of their own.
        factory: ToolsFactory<T, F>,
        /// For agents that another one started.
        child_factory: Option<F>,
    },
}

/// Where the tools of one agent come from.
pub enum ToolsSource<'a, T, F> {
    /// They are there.
    Tools(&'a T),
    /// A factory makes them.
    Call(&'a F),
}

impl<T, F> ToolsConfiguration<T, F> {
    /// Whether started agents have a factory of their own.
    pub open spec fn serves_children(self) -> bool {
        self matches ToolsConfiguration::PerAgent { child_factory, .. } && child_factory is Some
    }

    /// Returns whether started agents have a factory of their own.
    pub fn has_child_factory(&self) -> (r: bool)
        ensures
            r == self.serves_children(),
    {
        match self {
            ToolsConfiguration::Shared(_) => false,
            ToolsConfiguration::PerAgent { child_factory, .. } => child_factory.is_some(),
        }
    }

    /// Returns where the tools of an agent come from.
    pub fn materialize(&self, profile: ToolProfile) -> (r: ToolsSource<'_, T, F>)
        ensures
            match *self {
                ToolsConfiguration::Shared(tools) => r matches ToolsSource::Tools(given) && *given
                    == tools,
                ToolsConfiguration::PerAgent { factory, child_factory } => {
                    if child_factory is Some && profile == ToolProfile::Child {
                        r matches ToolsSource::Call(given) && *given == child_factory->0
                    } else {
                        match factory {
                            ToolsFactory::Fixed(tools) => r matches ToolsSource::Tools(given)
                                && *given == tools,
                            ToolsFactory::Call(made) => r matches ToolsSource::Call(given)
                                && *given == made,
                        }
                    }
                },
            },
    {
        match self {
            ToolsConfiguration::Shared(tools) => ToolsSource::Tools(tools),
            ToolsConfiguration::PerAgent { factory, child_factory } => {
                if let Some(child) = child_factory {
                    if profile == ToolProfile::Child {
                        return ToolsSource::Call(child);
                    }
                }
                match factory {
                    ToolsFactory::Fixed(tools) => ToolsSource::Tools(tools),
                    ToolsFactory::Call(made) => ToolsSource::Call(made),
                }
            },
        }
    }

    /// Gives started agents a factory of their own.
    pub fn with_child_factory(self, child: F) -> (r: Self)
        ensures
            r == (ToolsConfiguration::PerAgent {
                factory: match self {
                    ToolsConfiguration::Shared(tools) => ToolsFactory::Fixed(tools),
                    ToolsConfiguration::PerAgent { factory, .. } => factory,
                },
                child_factory: Some(child),
            }),
    {
        let factory = match self {
            ToolsConfiguration::Shared(tools) => ToolsFactory::Fixed(tools),
            ToolsConfiguration::PerAgent { factory, child_factory: _ } => factory,
        };
        ToolsConfiguration::PerAgent { factory, child_factory: Some(child) }
    }
}

/// What a new agent continues from.
pub enum InitialResume {
    /// A boundary as it is.
    Exact(Box<ModelCheckpoint>),
    /// The history of a boundary, under tools of its own.
    History(Box<HistoryCheckpoint>),
}

impl InitialResume {
    /// Returns the workspace.
    pub fn workspace(&self) -> (r: &str)
        ensures
            r@ == match *self {
                InitialResume::Exact(checkpoint) => checkpoint.workspace@,
                InitialResume::History(stored) => stored.workspace@,
            },
    {
        match self {
            InitialResume::Exact(checkpoint) => checkpoint.workspace.as_str(),
            InitialResume::History(stored) => stored.workspace.as_str(),
        }
    }

    /// Returns the number of items.
    pub fn history_len(&self) -> (r: usize)
        ensures
            r == match *self {
                InitialResume::Exact(checkpoint) => checkpoint@.conversation.history.len(),
                InitialResume::History(stored) => stored.history@.len(),
            },
    {
        match self {
            InitialResume::Exact(checkpoint) => checkpoint.conversation.flattened_history().len(),
            InitialResume::History(stored) => stored.history.len(),
        }
    }

    /// Returns the cache key of the prefix.
    pub fn prompt_cache_key(&self) -> (r: &str)
        ensures
            r@ == match *self {
                InitialResume::Exact(checkpoint) => checkpoint.prompt_cache_key@,
                InitialResume::History(stored) => stored.prompt_cache_key@,
            },
    {
        match self {
            InitialResume::Exact(checkpoint) => checkpoint.prompt_cache_key.as_str(),
            InitialResume::History(stored) => stored.prompt_cache_key.as_str(),
        }
    }
}

/// How an agent came to be.
#[derive(Clone, Copy, Debug, PartialEq, Eq, Structural)]
pub enum OriginKind {
    /// From another agent's conversation.
    Fork,
    /// From another agent, with a conversation of its own.
    Spawn,
}

impl OriginKind {
    /// Returns the name that traces carry.
    pub fn name(self) -> (r: &'static str)
        ensures
            r@ == match self {
                OriginKind::Fork => "fork"@,
                OriginKind::Spawn => "spawn"@,
            },
    {
        match self {
            OriginKind::Fork => "fork",
            OriginKind::Spawn => "spawn",
        }
    }
}

/// Where an agent comes from.
pub struct AgentOrigin {
    /// How it came to be.
    pub kind: OriginKind,
    /// How many agents stand between it and one that a caller built.
    pub depth: u32,
    /// The session of the agent that started it.
    pub parent_session_id: String,
}

/// What an agent hands on to the agents that branch off it.
pub struct BranchSpawner {
    /// Model settings.
    pub config: Arc<ModelConfig>,
    /// Whether started agents have tools of their own.
    pub has_child_factory: bool,
    /// Identity of the conversation and its branches.
    pub lineage_id: String,
    /// Cache key of the prefix, where it is not the lineage's.
    pub prompt_cache_key: Option<String>,
    /// Which tools the agent has.
    pub tool_profile: ToolProfile,
    /// How many agents stand between it and one that a caller built.
    pub depth: u32,
}

/// A new agent.
pub struct BranchPlan {
    /// What the new agent hands on.
    pub spawner: BranchSpawner,
    /// Its session.
    pub session_id: SessionId,
    /// Its workspace.
    pub workspace: Option<String>,
    /// What it continues from.
    pub resume: Option<InitialResume>,
    /// Where it comes from.
    pub origin: AgentOrigin,
}

/// Settings of a new agent.
#[derive(Clone, Copy, Debug)]
pub struct BranchSettings {
    /// Model.
    pub model: Model,
    /// Default effort.
    pub thinking: Thinking,
    /// Default processing mode.
    pub fast_mode: bool,
    /// Which tools it gets.
    pub tool_profile: ToolProfile,
}

impl BranchSpawner {
    /// Whether an agent with a profile gets other tools than this one.
    pub open spec fn changes_profile(self, tool_profile: ToolProfile) -> bool {
        self.tool_profile != tool_profile && self.has_child_factory
    }

    /// Whether a spawner is what a new agent with given settings hands on, but
    /// for its identities.
    pub open spec fn hands_on(self, next: BranchSpawner, settings: BranchSettings) -> bool {
        &&& *next.config == (ModelConfig {
            model: settings.model,
            thinking: settings.thinking,
            fast_mode: settings.fast_mode,
            ..*self.config
        })
        &&& next.has_child_factory == self.has_child_factory
        &&& next.tool_profile == settings.tool_profile
        &&& next.depth == session::next_u32(self.depth)
    }

    /// Copies the model settings with other defaults.
    fn configured(&self, settings: BranchSettings) -> (r: Arc<ModelConfig>)
        ensures
            *r == (ModelConfig {
                model: settings.model,
                thinking: settings.thinking,
                fast_mode: settings.fast_mode,
                ..*self.config
            }),
    {
        let mut config = (*self.config).clone();
        config.model = settings.model;
        config.thinking = settings.thinking;
        config.fast_mode = settings.fast_mode;
        Arc::new(config)
    }

    /// Plans an agent that continues from a boundary.
    ///
    /// It shares the lineage. With other tools than this agent it takes the
    /// history alone and a cache key of its own; with the same tools it takes
    /// the boundary as it is.
    pub fn fork(
        &self,
        session_id: SessionId,
        checkpoint: &ModelCheckpoint,
        parent_session_id: &str,
        settings: BranchSettings,
    ) -> (r: BranchPlan)
        ensures
            r.session_id == session_id,
            self.hands_on(r.spawner, settings),
            r.spawner.lineage_id == self.lineage_id,
            r.workspace == Some(checkpoint.workspace),
            r.origin.kind == OriginKind::Fork,
            r.origin.depth == session::next_u32(self.depth),
            r.origin.parent_session_id@ == parent_session_id@,
            if self.changes_profile(settings.tool_profile) {
                &&& r.spawner.prompt_cache_key is Some
                &&& r.spawner.prompt_cache_key->0@ == session_id::hyphenated(session_id@)
                &&& r.resume matches Some(InitialResume::History(stored)) && stored.workspace
                    == checkpoint.workspace && stored.canonical_context
                    == checkpoint@.conversation.canonical_context && stored.history@
                    == checkpoint@.conversation.history && stored.fault is None
                    && stored.prompt_cache_key == r.spawner.prompt_cache_key->0
                    && stored.context_baseline is None
            } else {
                &&& r.spawner.prompt_cache_key == self.prompt_cache_key
                &&& r.resume matches Some(InitialResume::Exact(exact)) && exact@ == checkpoint@
            },
    {
        let profile_changes = self.tool_profile != settings.tool_profile && self.has_child_factory;
        let depth: u32 = self.depth.saturating_add(1);
        let (prompt_cache_key, resume) = if profile_changes {
            let key = session_id.text();
            let stored = HistoryCheckpoint {
                workspace: checkpoint.workspace.clone(),
                canonical_context: checkpoint.conversation.canonical_context(),
                history: checkpoint.conversation.flattened_history(),
                fault: None,
                prompt_cache_key: key.clone(),
                context_baseline: None,
            };
            (Some(key), InitialResume::History(Box::new(stored)))
        } else {
            (
                clone_text(&self.prompt_cache_key),
                InitialResume::Exact(Box::new(checkpoint.clone())),
            )
        };
        BranchPlan {
            spawner: BranchSpawner {
                config: self.configured(settings),
                has_child_factory: self.has_child_factory,
                lineage_id: self.lineage_id.clone(),
                prompt_cache_key,
                tool_profile: settings.tool_profile,
                depth,
            },
            session_id,
            workspace: Some(checkpoint.workspace.clone()),
            resume: Some(resume),
            origin: AgentOrigin {
                kind: OriginKind::Fork,
                depth,
                parent_session_id: parent_session_id.to_owned(),
            },
        }
    }

    /// Plans an agent with a conversation of its own.
    ///
    /// It starts a lineage. With other tools than this agent it has a cache key
    /// of its own; with the same tools it shares this agent's.
    pub fn spawn(
        &self,
        session_id: SessionId,
        workspace: Option<String>,
        parent_session_id: &str,
        settings: BranchSettings,
    ) -> (r: BranchPlan)
        ensures
            r.session_id == session_id,
            self.hands_on(r.spawner, settings),
            r.spawner.lineage_id@ == session_id::hyphenated(session_id@),
            r.spawner.prompt_cache_key is Some,
            r.spawner.prompt_cache_key->0@ == if self.changes_profile(settings.tool_profile) {
                session_id::hyphenated(session_id@)
            } else {
                match self.prompt_cache_key {
                    Some(key) => key@,
                    None => self.lineage_id@,
                }
            },
            r.workspace == workspace,
            r.resume is None,
            r.origin.kind == OriginKind::Spawn,
            r.origin.depth == session::next_u32(self.depth),
            r.origin.parent_session_id@ == parent_session_id@,
    {
        let profile_changes = self.tool_profile != settings.tool_profile && self.has_child_factory;
        let depth: u32 = self.depth.saturating_add(1);
        let prompt_cache_key = if profile_changes {
            session_id.text()
        } else {
            match &self.prompt_cache_key {
                Some(key) => key.clone(),
                None => self.lineage_id.clone(),
            }
        };
        BranchPlan {
            spawner: BranchSpawner {
                config: self.configured(settings),
                has_child_factory: self.has_child_factory,
                lineage_id: session_id.text(),
                prompt_cache_key: Some(prompt_cache_key),
                tool_profile: settings.tool_profile,
                depth,
            },
            session_id,
            workspace,
            resume: None,
            origin: AgentOrigin {
                kind: OriginKind::Spawn,
                depth,
                parent_session_id: parent_session_id.to_owned(),
            },
        }
    }

    /// Chooses the boundary that a new agent's record starts from: that of the
    /// new agent where its tools differ, and the given one otherwise.
    pub fn seed<C>(
        &self,
        tool_profile: ToolProfile,
        given: Arc<C>,
        initial: Option<Arc<C>>,
    ) -> (r: Result<Arc<C>, NanocodexError>)
        ensures
            if self.changes_profile(tool_profile) {
                match initial {
                    Some(own) => r == Ok::<Arc<C>, NanocodexError>(own),
                    None => r matches Err(NanocodexError::InvalidRequest(reason)) && reason@
                        == "profile-changing fork did not produce a child history checkpoint"@,
                }
            } else {
                r == Ok::<Arc<C>, NanocodexError>(given)
            },
    {
        if self.tool_profile != tool_profile && self.has_child_factory {
            match initial {
                Some(own) => Ok(own),
                None => Err(
                    NanocodexError::InvalidRequest(
                        "profile-changing fork did not produce a child history checkpoint".to_owned(),
                    ),
                ),
            }
        } else {
            Ok(given)
        }
    }
}

/// A new agent has the stated model, effort and mode and every other setting of
/// the agent that it branches off; it stands one step further away from an agent
/// that a caller built, and hands the same choice of tools on.
pub proof fn law_branches_inherit_the_settings(
    spawner: BranchSpawner,
    next: BranchSpawner,
    settings: BranchSettings,
)
    requires
        spawner.hands_on(next, settings),
    ensures
        next.config.model == settings.model,
        next.config.thinking == settings.thinking,
        next.config.fast_mode == settings.fast_mode,
        (ModelConfig {
            model: spawner.config.model,
            thinking: spawner.config.thinking,
            fast_mode: spawner.config.fast_mode,
            ..*next.config
        }) == *spawner.config,
        next.tool_profile == settings.tool_profile,
        next.has_child_factory == spawner.has_child_factory,
        spawner.depth < u32::MAX ==> next.depth == spawner.depth + 1,
        spawner.depth == u32::MAX ==> next.depth == u32::MAX,
{
}

/// A new agent has other tools than the one that it branches off exactly when
/// its profile is another one and started agents have tools of their own.
pub proof fn law_tools_differ_by_profile(spawner: BranchSpawner, profile: ToolProfile)
    ensures
        !spawner.has_child_factory ==> !spawner.changes_profile(profile),
        spawner.tool_profile == profile ==> !spawner.changes_profile(profile),
        spawner.has_child_factory && spawner.tool_profile != profile ==> spawner.changes_profile(
            profile,
        ),
{
}

/// Started agents have tools of their own exactly where a factory for them was
/// given.
pub proof fn law_child_tools_need_a_factory<T, F>(
    tools: T,
    factory: ToolsFactory<T, F>,
    child: F,
)
    ensures
        !ToolsConfiguration::<T, F>::Shared(tools).serves_children(),
        !(ToolsConfiguration::PerAgent { factory, child_factory: None::<F> }).serves_children(),
        (ToolsConfiguration::PerAgent { factory, child_factory: Some(child) }).serves_children(),
{
}

} // verus!
