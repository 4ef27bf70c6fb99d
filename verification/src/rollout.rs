//! The durable record of a conversation: where it is written, what it states of
//! the session and of each turn, and what a failure to write it means.
use crate::config::{Model, Thinking};
use crate::conversation::{ContextBaseline, ModelCheckpoint};
use crate::driver::PersistRolloutFailure;
use crate::error::NanocodexError;
use crate::items::{clone_text, ResponseItem};
use crate::prompt::Prompt;
use crate::session_id;
use crate::session_id::SessionId;
use crate::text;
use crate::text::{chars_of, digit, join, join3, push_char, same_text};
use std::sync::Arc;
use vstd::prelude::*;
use vstd::string::*;

verus! {

/// A date and time of day.
#[derive(Clone, Copy, Debug, PartialEq, Eq, Structural)]
pub struct LocalTime {
    /// Year of four digits.
    pub year: u16,
    /// Month from 1.
    pub month: u8,
    /// Day of the month from 1.
    pub day: u8,
    /// Hour from 0.
    pub hour: u8,
    /// Minute from 0.
    pub minute: u8,
    /// Second from 0.
    pub second: u8,
}

impl LocalTime {
    /// Every field fits its digits.
    pub open spec fn well_formed(self) -> bool {
        &&& self.year <= 9999
        &&& self.month <= 99
        &&& self.day <= 99
        &&& self.hour <= 99
        &&& self.minute <= 99
        &&& self.second <= 99
    }

    /// The time as file names carry it: `2025-01-31T23-59-59`.
    pub open spec fn stamp(self) -> Seq<char> {
        text::padded_digits(self.year as nat, 4) + "-"@ + text::padded_digits(self.month as nat, 2)
            + "-"@ + text::padded_digits(self.day as nat, 2) + "T"@ + text::padded_digits(
            self.hour as nat,
            2,
        ) + "-"@ + text::padded_digits(self.minute as nat, 2) + "-"@ + text::padded_digits(
            self.second as nat,
            2,
        )
    }

    /// Returns the time as file names carry it.
    pub fn filename_timestamp(&self) -> (r: String)
        requires
            self.well_formed(),
        ensures
            r@ == self.stamp(),
    {
        let date = join3(four_digits(self.year).as_str(), "-", two_digits(self.month).as_str());
        let date = join3(date.as_str(), "-", two_digits(self.day).as_str());
        let time = join3(date.as_str(), "T", two_digits(self.hour).as_str());
        let time = join3(time.as_str(), "-", two_digits(self.minute).as_str());
        join3(time.as_str(), "-", two_digits(self.second).as_str())
    }
}

/// Writes a number with two digits.
fn two_digits(n: u8) -> (r: String)
    requires
        n <= 99,
    ensures
        r@ == text::padded_digits(n as nat, 2),
{
    let mut out = String::new();
    push_char(&mut out, digit(n / 10));
    push_char(&mut out, digit(n % 10));
    proof {
        reveal_with_fuel(text::padded_digits, 3);
        assert(out@ =~= text::padded_digits(n as nat, 2));
    }
    out
}

/// Writes a number with four digits.
fn four_digits(n: u16) -> (r: String)
    requires
        n <= 9999,
    ensures
        r@ == text::padded_digits(n as nat, 4),
{
    let high: u8 = (n / 100) as u8;
    let low: u8 = (n % 100) as u8;
    let mut out = String::new();
    push_char(&mut out, digit(high / 10));
    push_char(&mut out, digit(high % 10));
    push_char(&mut out, digit(low / 10));
    push_char(&mut out, digit(low % 10));
    proof {
        reveal_with_fuel(text::padded_digits, 5);
        assert(out@ =~= text::padded_digits(n as nat, 4));
    }
    out
}

/// How a platform writes paths.
#[derive(Clone, Copy, Debug, PartialEq, Eq, Structural)]
pub enum PathStyle {
    /// Parts are separated by `/`.
    Unix,
    /// Parts are separated by `\` or `/`, and a path may start with a drive.
    Windows,
}

impl PathStyle {
    /// What separates two parts that are put together.
    pub open spec fn separator(self) -> Seq<char> {
        match self {
            PathStyle::Unix => "/"@,
            PathStyle::Windows => "\\"@,
        }
    }

    /// Whether a path is a drive and nothing else, such as `C:`.
    pub open spec fn bare_drive(self, path: Seq<char>) -> bool {
        self == PathStyle::Windows && path.len() == 2 && drive_letter(path[0]) && path[1] == ':'
    }

    /// Whether a path ends where another part can follow at once. Behind `\\?\`
    /// a slash separates nothing.
    pub open spec fn open_ended(self, path: Seq<char>) -> bool {
        path.len() > 0 && match self {
            PathStyle::Unix => path.last() == '/',
            PathStyle::Windows => path.last() == '\\' || (path.last() == '/' && !self.verbatim(
                path,
            )),
        }
    }

    /// Whether a path is taken as it stands, because it starts with `\\?\`.
    pub open spec fn verbatim(self, path: Seq<char>) -> bool {
        &&& self == PathStyle::Windows
        &&& path.len() >= 4
        &&& path[0] == '\\' && path[1] == '\\' && path[2] == '?' && path[3] == '\\'
    }

    /// Whether a path starts at the root, on a drive where there are drives.
    pub open spec fn absolute(self, path: Seq<char>) -> bool {
        match self {
            PathStyle::Unix => path.len() > 0 && path[0] == '/',
            PathStyle::Windows => {
                &&& path.len() >= 3
                &&& drive_letter(path[0]) && path[1] == ':'
                &&& path[2] == '/' || path[2] == '\\'
            },
        }
    }

    /// Whether a path starts neither at a root nor with a drive.
    pub open spec fn relative(self, path: Seq<char>) -> bool {
        match self {
            PathStyle::Unix => path.len() == 0 || path[0] != '/',
            PathStyle::Windows => {
                &&& path.len() == 0 || (path[0] != '/' && path[0] != '\\')
                &&& path.len() < 2 || !drive_letter(path[0]) || path[1] != ':'
            },
        }
    }

    fn is_verbatim(self, path: &Vec<char>) -> (r: bool)
        ensures
            r == self.verbatim(path@),
    {
        self == PathStyle::Windows && path.len() >= 4 && path[0] == '\\' && path[1] == '\\'
            && path[2] == '?' && path[3] == '\\'
    }

    fn is_absolute(self, path: &Vec<char>) -> (r: bool)
        ensures
            r == self.absolute(path@),
    {
        match self {
            PathStyle::Unix => path.len() > 0 && path[0] == '/',
            PathStyle::Windows => path.len() >= 3 && names_drive(path[0]) && path[1] == ':' && (
            path[2] == '/' || path[2] == '\\'),
        }
    }

    fn is_relative(self, path: &Vec<char>) -> (r: bool)
        ensures
            r == self.relative(path@),
    {
        match self {
            PathStyle::Unix => path.len() == 0 || path[0] != '/',
            PathStyle::Windows => {
                (path.len() == 0 || (path[0] != '/' && path[0] != '\\')) && (path.len() < 2
                    || !names_drive(path[0]) || path[1] != ':')
            },
        }
    }
}

/// Whether a character names a drive.
pub open spec fn drive_letter(c: char) -> bool {
    ('a' <= c && c <= 'z') || ('A' <= c && c <= 'Z')
}

fn names_drive(c: char) -> (r: bool)
    ensures
        r == drive_letter(c),
{
    ('a' <= c && c <= 'z') || ('A' <= c && c <= 'Z')
}

/// A relative path below another one.
pub open spec fn path_below(style: PathStyle, base: Seq<char>, path: Seq<char>) -> Seq<char> {
    if base.len() == 0 || style.open_ended(base) || style.bare_drive(base) {
        base + path
    } else {
        base + style.separator() + path
    }
}

/// Returns a relative path below another one.
pub fn join_path(style: PathStyle, base: &str, path: &str) -> (r: String)
    requires
        style.relative(path@),
    ensures
        r@ == path_below(style, base@, path@),
{
    let chars = chars_of(base);
    if chars.len() == 0 {
        return join(base, path);
    }
    let last: char = chars[chars.len() - 1];
    let (follows, separator) = match style {
        PathStyle::Unix => (last == '/', "/"),
        PathStyle::Windows => {
            let drive = chars.len() == 2 && names_drive(chars[0]) && chars[1] == ':';
            (last == '\\' || (last == '/' && !style.is_verbatim(&chars)) || drive, "\\")
        },
    };
    if follows {
        join(base, path)
    } else {
        join3(base, separator, path)
    }
}

/// A workspace as a caller states it.
#[derive(Clone, Copy, Debug)]
pub struct StatedWorkspace<'a> {
    /// The path.
    pub path: &'a str,
    /// What the platform resolves the path to in the directory that the process
    /// runs in. It counts where the path itself does not say enough: it names a
    /// root without a drive, a drive without a root, or a share; or the
    /// directory starts with `\\?\`.
    pub resolved: &'a str,
}

impl<'a> StatedWorkspace<'a> {
    /// The workspace, for a process that runs in a directory.
    pub open spec fn within(self, style: PathStyle, current: Seq<char>) -> Seq<char> {
        if style.absolute(self.path@) {
            self.path@
        } else if style.relative(self.path@) && !style.verbatim(current) {
            path_below(style, current, self.path@)
        } else {
            self.resolved@
        }
    }
}

/// Resolves the workspace that a record states. `current` is the directory that
/// the process runs in, or the reason why it is not known.
pub fn rollout_workspace(
    style: PathStyle,
    current: Result<String, String>,
    workspace: Option<StatedWorkspace<'_>>,
) -> (r: Result<String, String>)
    ensures
        match current {
            Err(error) => r == Err::<String, String>(error),
            Ok(current) => r is Ok && r->Ok_0@ == match workspace {
                Some(workspace) => workspace.within(style, current@),
                None => current@,
            },
        },
{
    let current = match current {
        Err(error) => return Err(error),
        Ok(current) => current,
    };
    let workspace = match workspace {
        Some(workspace) => workspace,
        None => return Ok(current),
    };
    let chars = chars_of(workspace.path);
    if style.is_absolute(&chars) {
        Ok(workspace.path.to_owned())
    } else if style.is_relative(&chars) && !style.is_verbatim(&chars_of(current.as_str())) {
        Ok(join_path(style, current.as_str(), workspace.path))
    } else {
        Ok(workspace.resolved.to_owned())
    }
}

/// Where records are kept.
pub struct RolloutConfig {
    /// Directory of all records.
    pub codex_home: String,
    /// The record to continue, if any.
    pub resume_path: Option<String>,
    /// How the platform writes paths.
    pub path_style: PathStyle,
}

impl RolloutConfig {
    /// Copies the settings for another conversation, which has a record of its
    /// own.
    pub fn for_new_thread(&self) -> (r: Self)
        ensures
            r.codex_home == self.codex_home,
            r.resume_path is None,
            r.path_style == self.path_style,
    {
        RolloutConfig {
            codex_home: self.codex_home.clone(),
            resume_path: None,
            path_style: self.path_style,
        }
    }
}

/// Identity and place of a recorded conversation.
#[derive(Debug)]
pub struct RolloutInfo {
    thread_id: String,
    path: String,
}

impl RolloutInfo {
    /// Identity of the conversation.
    pub closed spec fn thread(&self) -> Seq<char> {
        self.thread_id@
    }

    /// Place of the record.
    pub closed spec fn place(&self) -> Seq<char> {
        self.path@
    }

    /// Returns the identity that resumes the conversation.
    pub fn thread_id(&self) -> (r: &str)
        ensures
            r@ == self.thread(),
    {
        self.thread_id.as_str()
    }

    /// Returns the place of the record.
    pub fn path(&self) -> (r: &str)
        ensures
            r@ == self.place(),
    {
        self.path.as_str()
    }
}

/// How the recorded agent came to be.
pub struct RolloutOrigin<'a> {
    /// Name of the way.
    pub kind: &'a str,
    /// The conversation of the agent that started it.
    pub parent_thread_id: Option<&'a str>,
}

/// Identity that a record retains beside its own.
pub struct RolloutIdentity<'a> {
    /// Identity of the conversation and its branches.
    pub lineage_id: &'a str,
    /// Cache key of the prefix.
    pub prompt_cache_key: &'a str,
}

/// What is new about a record when it is made.
pub struct RolloutStart {
    /// Local time.
    pub now: LocalTime,
    /// Time stamp of the first line.
    pub timestamp: String,
    /// Identity of the first context window.
    pub window_id: String,
    /// Version of the program.
    pub cli_version: String,
}

/// The first line of a record.
pub struct SessionMeta {
    /// Identity of the conversation.
    pub session_id: String,
    /// The same.
    pub id: String,
    /// Identity of the conversation and its branches.
    pub nanocodex_lineage_id: String,
    /// Cache key of the prefix.
    pub nanocodex_prompt_cache_key: String,
    /// The conversation that this one was forked from.
    pub forked_from_id: Option<String>,
    /// The conversation of the agent that started this one.
    pub parent_thread_id: Option<String>,
    /// Time stamp.
    pub timestamp: String,
    /// Workspace.
    pub cwd: String,
    /// Who made the record.
    pub originator: &'static str,
    /// Version of the program.
    pub cli_version: String,
    /// How the program was started.
    pub source: &'static str,
    /// Who started the conversation.
    pub thread_source: &'static str,
    /// Whose model it is.
    pub model_provider: &'static str,
    /// Instructions.
    pub base_instructions: String,
    /// How the history is recorded.
    pub history_mode: &'static str,
    /// Identity of the first context window.
    pub window_id: String,
}

/// A record that has to be made.
pub struct NewRollout {
    /// The recorder.
    pub recorder: RolloutRecorder,
    /// Directory to make first.
    pub directory: String,
    /// File to write to.
    pub writer_path: String,
    /// First line.
    pub meta: SessionMeta,
}

/// What recording starts with.
pub enum RolloutPlan {
    /// Continue a record.
    Resume {
        /// Its place.
        path: String,
        /// How many items the conversation has.
        history_len: usize,
    },
    /// Make a record.
    Create(NewRollout),
}

/// The directory of the records of one day.
pub open spec fn day_directory(style: PathStyle, codex_home: Seq<char>, now: LocalTime) -> Seq<
    char,
> {
    let sessions = path_below(style, codex_home, "sessions"@);
    let year = path_below(style, sessions, text::padded_digits(now.year as nat, 4));
    let month = path_below(style, year, text::padded_digits(now.month as nat, 2));
    path_below(style, month, text::padded_digits(now.day as nat, 2))
}

/// A number in digits names a part of a path.
proof fn lemma_digits_are_relative(n: nat, width: nat, style: PathStyle)
    requires
        width > 0,
    ensures
        style.relative(text::padded_digits(n, width)),
{
    lemma_padded_with_digits(n, width);
    assert(text::is_digit(text::padded_digits(n, width)[0]));
}

/// A padded number holds digits only.
proof fn lemma_padded_with_digits(n: nat, width: nat)
    ensures
        text::padded_digits(n, width).len() == width,
        text::all_digits(text::padded_digits(n, width)),
    decreases width,
{
    if width > 0 {
        lemma_padded_with_digits(n / 10, (width - 1) as nat);
    }
}

/// A text that goes on behind a relative start of two characters is relative.
proof fn lemma_start_is_relative(start: Seq<char>, rest: Seq<char>, style: PathStyle)
    requires
        start.len() >= 2,
        style.relative(start),
    ensures
        style.relative(start + rest),
{
}

/// The file name of a record.
pub open spec fn record_name(now: LocalTime, thread_id: Seq<char>) -> Seq<char> {
    "rollout-"@ + now.stamp() + "-"@ + thread_id + ".jsonl"@
}

/// The file name of a record that nobody may find yet.
pub open spec fn pending_name(now: LocalTime, thread_id: Seq<char>) -> Seq<char> {
    ".rollout-"@ + now.stamp() + "-"@ + thread_id + ".pending"@
}

/// Whether the first line of a record states a session.
pub open spec fn introduces(
    meta: SessionMeta,
    thread_id: Seq<char>,
    identity: RolloutIdentity,
    cwd: Seq<char>,
    instructions: Seq<char>,
    origin: RolloutOrigin,
    start: RolloutStart,
) -> bool {
    &&& meta.session_id@ == thread_id
    &&& meta.id@ == thread_id
    &&& meta.nanocodex_lineage_id@ == identity.lineage_id@
    &&& meta.nanocodex_prompt_cache_key@ == identity.prompt_cache_key@
    &&& meta.parent_thread_id is Some <==> origin.parent_thread_id is Some
    &&& origin.parent_thread_id is Some ==> meta.parent_thread_id->0@
        == origin.parent_thread_id->0@
    &&& meta.forked_from_id is Some <==> (origin.kind@ == "fork"@ && origin.parent_thread_id is Some)
    &&& meta.forked_from_id is Some ==> meta.forked_from_id->0@ == origin.parent_thread_id->0@
    &&& meta.timestamp == start.timestamp
    &&& meta.cwd@ == cwd
    &&& meta.originator@ == "nanocodex"@
    &&& meta.cli_version == start.cli_version
    &&& meta.source@ == "cli"@
    &&& meta.thread_source@ == "user"@
    &&& meta.model_provider@ == "openai"@
    &&& meta.base_instructions@ == instructions
    &&& meta.history_mode@ == "legacy"@
    &&& meta.window_id == start.window_id
}

/// The recorder of one conversation.
#[derive(Debug)]
pub struct RolloutRecorder {
    info: RolloutInfo,
    unpublished_path: Option<String>,
}

/// Whether recording starts with a plan: a record that is to be continued is
/// continued where it is, and another one is made in the directory of the day,
/// hidden if the conversation was forked.
pub open spec fn plans(
    plan: RolloutPlan,
    config: RolloutConfig,
    thread_id: Seq<char>,
    identity: RolloutIdentity,
    cwd: Seq<char>,
    instructions: Seq<char>,
    origin: RolloutOrigin,
    resume_history_len: Option<usize>,
    start: RolloutStart,
) -> bool {
    let style = config.path_style;
    let directory = day_directory(style, config.codex_home@, start.now);
    let path = path_below(style, directory, record_name(start.now, thread_id));
    let hidden = path_below(style, directory, pending_name(start.now, thread_id));
    let forked = origin.kind@ == "fork"@;
    match plan {
        RolloutPlan::Resume { path: stored, history_len } => {
            &&& config.resume_path == Some(stored)
            &&& resume_history_len == Some(history_len)
        },
        RolloutPlan::Create(new) => {
            &&& config.resume_path is None
            &&& new.directory@ == directory
            &&& new.recorder.details().thread() == thread_id
            &&& new.recorder.details().place() == path
            &&& new.recorder.hidden() == if forked {
                Some(hidden)
            } else {
                None
            }
            &&& new.writer_path@ == if forked {
                hidden
            } else {
                path
            }
            &&& introduces(new.meta, thread_id, identity, cwd, instructions, origin, start)
        },
    }
}

/// What came of a command that was sent to the writer of a record.
pub enum WriterReply {
    /// The writer took no command.
    NotSent,
    /// The writer stopped before it answered.
    Dropped,
    /// The writer failed.
    Failed(String),
    /// The writer succeeded.
    Done,
}

/// A command to the writer of a record.
#[derive(Clone, Copy, Debug, PartialEq, Eq, Structural)]
pub enum WriterCommand {
    /// Write the history that a branch starts with.
    Seed,
    /// Write a turn.
    Commit,
    /// Wait until everything is durable.
    Flush,
    /// Let the record be found.
    Publish,
    /// Stop.
    Shutdown,
}

impl WriterCommand {
    /// What is reported when the writer stopped in the meantime.
    pub open spec fn stopped_text(self) -> Seq<char> {
        match self {
            WriterCommand::Seed => "Codex rollout writer stopped during initial seed"@,
            WriterCommand::Commit => "Codex rollout writer stopped"@,
            WriterCommand::Flush => "Codex rollout writer stopped"@,
            WriterCommand::Publish => "Codex rollout writer stopped during publish"@,
            WriterCommand::Shutdown => "Codex rollout writer stopped during shutdown"@,
        }
    }

    /// Returns what went wrong with a command. A writer that has stopped
    /// already needs no shutdown.
    pub fn failure(self, reply: WriterReply) -> (r: Option<String>)
        ensures
            match reply {
                WriterReply::Done => r is None,
                WriterReply::Failed(error) => r == Some(error),
                WriterReply::Dropped => r is Some && r->0@ == self.stopped_text(),
                WriterReply::NotSent => if self == WriterCommand::Shutdown {
                    r is None
                } else {
                    r is Some && r->0@ == self.stopped_text()
                },
            },
    {
        match reply {
            WriterReply::Done => return None,
            WriterReply::Failed(error) => return Some(error),
            WriterReply::NotSent => {
                if self == WriterCommand::Shutdown {
                    return None;
                }
            },
            WriterReply::Dropped => {},
        }
        let text = match self {
            WriterCommand::Seed => "Codex rollout writer stopped during initial seed",
            WriterCommand::Commit => "Codex rollout writer stopped",
            WriterCommand::Flush => "Codex rollout writer stopped",
            WriterCommand::Publish => "Codex rollout writer stopped during publish",
            WriterCommand::Shutdown => "Codex rollout writer stopped during shutdown",
        };
        Some(text.to_owned())
    }
}

impl RolloutRecorder {
    /// Identity and place of the record.
    pub closed spec fn details(&self) -> RolloutInfo {
        self.info
    }

    /// Where the record is until it may be found.
    pub closed spec fn hidden(&self) -> Option<Seq<char>> {
        match self.unpublished_path {
            Some(path) => Some(path@),
            None => None,
        }
    }

    /// Returns identity and place of the record.
    pub fn info(&self) -> (r: &RolloutInfo)
        ensures
            *r == self.details(),
    {
        &self.info
    }

    /// Plans the record of a conversation.
    ///
    /// A record that is to be continued needs the restored history. A forked
    /// conversation's record is hidden until its inherited history is written.
    pub fn create(
        config: &RolloutConfig,
        thread_id: &str,
        identity: &RolloutIdentity<'_>,
        cwd: &str,
        instructions: &str,
        origin: &RolloutOrigin<'_>,
        resume_history_len: Option<usize>,
        start: RolloutStart,
    ) -> (r: Result<RolloutPlan, String>)
        requires
            start.now.well_formed(),
        ensures
            match r {
                Ok(plan) => plans(
                    plan,
                    *config,
                    thread_id@,
                    *identity,
                    cwd@,
                    instructions@,
                    *origin,
                    resume_history_len,
                    start,
                ),
                Err(error) => {
                    &&& config.resume_path is Some
                    &&& resume_history_len is None
                    &&& error@ == "resumed rollout requires restored history"@
                },
            },
    {
        if let Some(path) = &config.resume_path {
            return match resume_history_len {
                Some(history_len) => Ok(RolloutPlan::Resume { path: path.clone(), history_len }),
                None => Err("resumed rollout requires restored history".to_owned()),
            };
        }
        let style = config.path_style;
        proof {
            reveal_strlit("sessions");
            lemma_digits_are_relative(start.now.year as nat, 4, style);
            lemma_digits_are_relative(start.now.month as nat, 2, style);
            lemma_digits_are_relative(start.now.day as nat, 2, style);
        }
        let sessions = join_path(style, config.codex_home.as_str(), "sessions");
        let year = join_path(style, sessions.as_str(), four_digits(start.now.year).as_str());
        let month = join_path(style, year.as_str(), two_digits(start.now.month).as_str());
        let directory = join_path(style, month.as_str(), two_digits(start.now.day).as_str());
        let stamp = start.now.filename_timestamp();
        let forked = same_text(origin.kind, "fork");
        let name = join("rollout-", stamp.as_str());
        let name = join3(name.as_str(), "-", thread_id);
        let name = join(name.as_str(), ".jsonl");
        proof {
            reveal_strlit("rollout-");
            let rest = start.now.stamp() + "-"@ + thread_id@ + ".jsonl"@;
            lemma_start_is_relative("rollout-"@, rest, style);
            assert(name@ =~= "rollout-"@ + rest);
        }
        let path = join_path(style, directory.as_str(), name.as_str());
        let unpublished_path = if forked {
            let name = join(".rollout-", stamp.as_str());
            let name = join3(name.as_str(), "-", thread_id);
            let name = join(name.as_str(), ".pending");
            proof {
                reveal_strlit(".rollout-");
                let rest = start.now.stamp() + "-"@ + thread_id@ + ".pending"@;
                lemma_start_is_relative(".rollout-"@, rest, style);
                assert(name@ =~= ".rollout-"@ + rest);
            }
            Some(join_path(style, directory.as_str(), name.as_str()))
        } else {
            None
        };
        let writer_path = match &unpublished_path {
            Some(hidden) => hidden.clone(),
            None => path.clone(),
        };
        let parent_thread_id = match origin.parent_thread_id {
            Some(parent) => Some(parent.to_owned()),
            None => None,
        };
        let forked_from_id = if forked {
            clone_text(&parent_thread_id)
        } else {
            None
        };
        let meta = SessionMeta {
            session_id: thread_id.to_owned(),
            id: thread_id.to_owned(),
            nanocodex_lineage_id: identity.lineage_id.to_owned(),
            nanocodex_prompt_cache_key: identity.prompt_cache_key.to_owned(),
            forked_from_id,
            parent_thread_id,
            timestamp: start.timestamp,
            cwd: cwd.to_owned(),
            originator: "nanocodex",
            cli_version: start.cli_version,
            source: "cli",
            thread_source: "user",
            model_provider: "openai",
            base_instructions: instructions.to_owned(),
            history_mode: "legacy",
            window_id: start.window_id,
        };
        let recorder = RolloutRecorder {
            info: RolloutInfo { thread_id: thread_id.to_owned(), path },
            unpublished_path,
        };
        Ok(RolloutPlan::Create(NewRollout { recorder, directory, writer_path, meta }))
    }

    /// Continues a record that holds `written_len` items. A record that is
    /// ahead of the restored conversation is refused.
    pub fn resume(thread_id: &str, path: &str, written_len: usize, history_len: usize) -> (r: Result<
        Self,
        String,
    >)
        ensures
            match r {
                Ok(recorder) => written_len <= history_len && recorder.details().thread()
                    == thread_id@ && recorder.details().place() == path@ && recorder.hidden()
                    is None,
                Err(error) => written_len > history_len && error@
                    == "Codex rollout contains history newer than the durable Nanocodex boundary"@,
            },
    {
        if written_len > history_len {
            return Err(
                "Codex rollout contains history newer than the durable Nanocodex boundary".to_owned(),
            );
        }
        Ok(
            RolloutRecorder {
                info: RolloutInfo { thread_id: thread_id.to_owned(), path: path.to_owned() },
                unpublished_path: None,
            },
        )
    }

    /// Returns where a hidden record is to be published, once its history is
    /// written.
    pub fn publish_path(&self) -> (r: Option<&str>)
        ensures
            match r {
                Some(path) => self.hidden() is Some && path@ == self.details().place(),
                None => self.hidden() is None,
            },
    {
        match &self.unpublished_path {
            Some(_) => Some(self.info.path.as_str()),
            None => None,
        }
    }

    /// Returns what is removed when the recorder shuts down: a record that was
    /// never published.
    pub fn shutdown_removes(&self) -> (r: Option<&str>)
        ensures
            match r {
                Some(path) => self.hidden() == Some(path@),
                None => self.hidden() is None,
            },
    {
        match &self.unpublished_path {
            Some(path) => Some(path.as_str()),
            None => None,
        }
    }

    /// Returns what is removed when a forked agent is given up: both places
    /// that its record may be at.
    pub fn discard_unpublished_rollout(&self) -> (r: Vec<String>)
        ensures
            match self.hidden() {
                Some(hidden) => r@.len() == 2 && r@[0]@ == hidden && r@[1]@
                    == self.details().place(),
                None => r@.len() == 0,
            },
    {
        let mut paths: Vec<String> = Vec::new();
        if let Some(path) = &self.unpublished_path {
            paths.push(path.clone());
            paths.push(self.info.path.clone());
        }
        paths
    }
}

/// How a recorded turn stands.
#[derive(Clone, Copy, Debug, PartialEq, Eq, Structural)]
pub enum RolloutTurnStatus {
    /// It runs.
    InProgress,
    /// The model completed it.
    Completed,
    /// It was interrupted.
    Interrupted,
    /// Another turn took its place.
    Replaced,
    /// It failed.
    Failed,
}

/// A turn as the record states it.
#[derive(Debug)]
pub struct RolloutTurn {
    /// Identity of the turn.
    pub turn_id: String,
    /// What the user asked.
    pub user_message: Option<Prompt>,
    /// The model's final message.
    pub final_message: Option<String>,
    /// When the turn started, in seconds since 1970.
    pub started_at: i64,
    /// When it ended.
    pub completed_at: Option<i64>,
    /// How long it took.
    pub duration_ms: Option<i64>,
    /// How it stands.
    pub status: RolloutTurnStatus,
    /// Effort.
    pub effort: Thinking,
    /// Whether its time is being taken.
    pub timed: bool,
}

/// When a turn ended.
#[derive(Clone, Copy, Debug, PartialEq, Eq, Structural)]
pub struct TurnEnd {
    /// In seconds since 1970.
    pub now: i64,
    /// Since its start.
    pub elapsed_ms: u128,
}

/// A duration, or the longest one that can be recorded.
pub open spec fn recorded_duration(elapsed_ms: u128) -> i64 {
    if elapsed_ms <= i64::MAX {
        elapsed_ms as i64
    } else {
        i64::MAX
    }
}

impl RolloutTurn {
    /// The turn after it ended.
    pub open spec fn ended(self, status: RolloutTurnStatus, end: TurnEnd) -> RolloutTurn {
        RolloutTurn {
            status,
            completed_at: Some(end.now),
            duration_ms: if self.timed {
                Some(recorded_duration(end.elapsed_ms))
            } else {
                None
            },
            timed: false,
            ..self
        }
    }

    /// Whether the turn has just started and has an identity of its own.
    pub open spec fn fresh(self, started_at: i64, effort: Thinking) -> bool {
        &&& exists|value: u128|
            session_id::uuid_version(value) == 7 && self.turn_id@ == #[trigger] session_id::hyphenated(
                value,
            )
        &&& self.final_message is None
        &&& self.started_at == started_at
        &&& self.completed_at is None
        &&& self.duration_ms is None
        &&& self.status == RolloutTurnStatus::InProgress
        &&& self.effort == effort
        &&& self.timed
    }

    /// A turn that starts with a prompt.
    pub fn started(prompt: &Prompt, effort: Thinking, now: i64) -> (r: Self)
        ensures
            r.fresh(now, effort),
            r.user_message == Some(*prompt),
    {
        let mut turn = RolloutTurn::compaction_started(effort, now);
        turn.user_message = Some(prompt.clone());
        turn
    }

    /// A turn that only compacts the conversation.
    pub fn compaction_started(effort: Thinking, now: i64) -> (r: Self)
        ensures
            r.fresh(now, effort),
            r.user_message is None,
    {
        let id = SessionId::new();
        let turn_id = id.text();
        proof {
            assert(session_id::hyphenated(id@) == turn_id@);
        }
        RolloutTurn {
            turn_id,
            user_message: None,
            final_message: None,
            started_at: now,
            completed_at: None,
            duration_ms: None,
            status: RolloutTurnStatus::InProgress,
            effort,
            timed: true,
        }
    }

    /// Ends the turn.
    fn finish(self, status: RolloutTurnStatus, end: TurnEnd) -> (r: Self)
        ensures
            r == self.ended(status, end),
    {
        let longest: u128 = i64::MAX as u128;
        let duration_ms = if self.timed {
            if end.elapsed_ms <= longest {
                Some(end.elapsed_ms as i64)
            } else {
                Some(i64::MAX)
            }
        } else {
            None
        };
        RolloutTurn { status, completed_at: Some(end.now), duration_ms, timed: false, ..self }
    }

    /// The model completed the turn.
    pub fn completed(self, final_message: String, end: TurnEnd) -> (r: Self)
        ensures
            r == (RolloutTurn {
                final_message: Some(final_message),
                ..self.ended(RolloutTurnStatus::Completed, end)
            }),
    {
        let mut turn = self.finish(RolloutTurnStatus::Completed, end);
        turn.final_message = Some(final_message);
        turn
    }

    /// The turn is complete and has no message.
    pub fn completed_without_message(self, end: TurnEnd) -> (r: Self)
        ensures
            r == self.ended(RolloutTurnStatus::Completed, end),
    {
        self.finish(RolloutTurnStatus::Completed, end)
    }

    /// The turn was interrupted.
    pub fn interrupted(self, end: TurnEnd) -> (r: Self)
        ensures
            r == self.ended(RolloutTurnStatus::Interrupted, end),
    {
        self.finish(RolloutTurnStatus::Interrupted, end)
    }

    /// Another turn took the place of this one.
    pub fn replaced(self, end: TurnEnd) -> (r: Self)
        ensures
            r == self.ended(RolloutTurnStatus::Replaced, end),
    {
        self.finish(RolloutTurnStatus::Replaced, end)
    }

    /// The turn failed.
    pub fn failed(self, end: TurnEnd) -> (r: Self)
        ensures
            r == self.ended(RolloutTurnStatus::Failed, end),
    {
        self.finish(RolloutTurnStatus::Failed, end)
    }
}

/// What is written of a turn.
pub struct RolloutCommit {
    /// The conversation.
    pub history: Vec<Arc<ResponseItem>>,
    /// How often the history was replaced.
    pub revision: u64,
    /// The turn.
    pub turn: RolloutTurn,
    /// Model of the conversation.
    pub model: Model,
    /// What the model was last told of its environment.
    pub context_baseline: ContextBaseline,
}

impl RolloutCommit {
    /// What is written of a turn that left a boundary.
    pub fn from_session(
        checkpoint: &ModelCheckpoint,
        model: Model,
        revision: u64,
        turn: RolloutTurn,
    ) -> (r: Self)
        ensures
            r.history@ == checkpoint@.conversation.history,
            r.revision == revision,
            r.turn == turn,
            r.model == model,
            r.context_baseline == checkpoint.context_baseline,
    {
        RolloutCommit {
            history: checkpoint.conversation.flattened_history(),
            revision,
            turn,
            model,
            context_baseline: checkpoint.context_baseline.clone(),
        }
    }
}

/// What is written of the boundary that a conversation starts from.
pub struct RolloutSeed {
    /// The conversation.
    pub history: Vec<Arc<ResponseItem>>,
    /// How often the history was replaced.
    pub revision: u64,
    /// Model of the conversation.
    pub model: Model,
    /// What the model was last told of its environment.
    pub context_baseline: ContextBaseline,
    /// Effort.
    pub effort: Thinking,
}

impl RolloutSeed {
    /// What is written of a boundary.
    pub fn from_session(
        checkpoint: &ModelCheckpoint,
        model: Model,
        revision: u64,
        effort: Thinking,
    ) -> (r: Self)
        ensures
            r.history@ == checkpoint@.conversation.history,
            r.revision == revision,
            r.model == model,
            r.context_baseline == checkpoint.context_baseline,
            r.effort == effort,
    {
        RolloutSeed {
            history: checkpoint.conversation.flattened_history(),
            revision,
            model,
            context_baseline: checkpoint.context_baseline.clone(),
            effort,
        }
    }
}

/// Whether and where an agent records its conversation.
pub struct DurabilityConfig {
    rollout: Option<RolloutConfig>,
}

impl DurabilityConfig {
    /// Where records are kept, if they are.
    pub closed spec fn recording(&self) -> Option<RolloutConfig> {
        self.rollout
    }

    /// Records nothing.
    pub fn new() -> (r: Self)
        ensures
            r.recording() is None,
    {
        DurabilityConfig { rollout: None }
    }

    /// Records conversations.
    pub fn set_rollout(&mut self, rollout: RolloutConfig)
        ensures
            final(self).recording() == Some(rollout),
    {
        self.rollout = Some(rollout);
    }

    /// Copies the settings for another conversation.
    pub fn for_new_thread(&self) -> (r: Self)
        ensures
            match self.recording() {
                Some(own) => r.recording() is Some && r.recording()->0.codex_home == own.codex_home
                    && r.recording()->0.resume_path is None && r.recording()->0.path_style
                    == own.path_style,
                None => r.recording() is None,
            },
    {
        match &self.rollout {
            Some(rollout) => DurabilityConfig { rollout: Some(rollout.for_new_thread()) },
            None => DurabilityConfig { rollout: None },
        }
    }

    /// Plans the record of a conversation, if one is kept.
    ///
    /// Records are written by a task of their own, which needs a runtime.
    /// `current` is the directory that the process runs in, or the reason why
    /// it is not known.
    pub fn start(
        &self,
        runtime_available: bool,
        session_id: &str,
        identity: &RolloutIdentity<'_>,
        current: Result<String, String>,
        workspace: Option<StatedWorkspace<'_>>,
        instructions: &str,
        origin: &RolloutOrigin<'_>,
        resume_history_len: Option<usize>,
        start: RolloutStart,
    ) -> (r: Result<Option<RolloutPlan>, NanocodexError>)
        requires
            start.now.well_formed(),
        ensures
            match self.recording() {
                None => r == Ok::<Option<RolloutPlan>, NanocodexError>(None),
                Some(config) => {
                    if !runtime_available {
                        r == Err::<Option<RolloutPlan>, NanocodexError>(
                            NanocodexError::TokioRuntimeUnavailable,
                        )
                    } else {
                        match current {
                            Err(error) => r == Err::<Option<RolloutPlan>, NanocodexError>(
                                NanocodexError::InitializeRollout {
                                    codex_home: config.codex_home,
                                    source: error,
                                },
                            ),
                            Ok(current) => {
                                let cwd = match workspace {
                                    Some(workspace) => workspace.within(
                                        config.path_style,
                                        current@,
                                    ),
                                    None => current@,
                                };
                                match r {
                                    Ok(plan) => plan is Some && plans(
                                        plan->0,
                                        config,
                                        session_id@,
                                        *identity,
                                        cwd,
                                        instructions@,
                                        *origin,
                                        resume_history_len,
                                        start,
                                    ),
                                    Err(NanocodexError::InitializeRollout { codex_home, source }) => {
                                        &&& codex_home == config.codex_home
                                        &&& config.resume_path is Some
                                        &&& resume_history_len is None
                                        &&& source@ == "resumed rollout requires restored history"@
                                    },
                                    Err(_) => false,
                                }
                            },
                        }
                    }
                },
            },
    {
        let config = match &self.rollout {
            Some(config) => config,
            None => return Ok(None),
        };
        if !runtime_available {
            return Err(NanocodexError::TokioRuntimeUnavailable);
        }
        let cwd = match rollout_workspace(config.path_style, current, workspace) {
            Ok(cwd) => cwd,
            Err(source) => return Err(
                NanocodexError::InitializeRollout { codex_home: config.codex_home.clone(), source },
            ),
        };
        match RolloutRecorder::create(
            config,
            session_id,
            identity,
            cwd.as_str(),
            instructions,
            origin,
            resume_history_len,
            start,
        ) {
            Ok(plan) => Ok(Some(plan)),
            Err(source) => Err(
                NanocodexError::InitializeRollout { codex_home: config.codex_home.clone(), source },
            ),
        }
    }
}

/// The record of an agent, if it keeps one.
pub struct Durability {
    recorder: Option<RolloutRecorder>,
}

/// A turn of an agent that may keep a record.
pub struct DurabilityTurn {
    turn: Option<RolloutTurn>,
}

impl DurabilityTurn {
    /// The recorded turn.
    pub closed spec fn recorded(&self) -> Option<RolloutTurn> {
        self.turn
    }

    /// The model completed the turn.
    pub fn completed(self, final_message: String, end: TurnEnd) -> (r: Self)
        ensures
            r.recorded() == match self.recorded() {
                Some(turn) => Some(
                    RolloutTurn {
                        final_message: Some(final_message),
                        ..turn.ended(RolloutTurnStatus::Completed, end)
                    },
                ),
                None => None,
            },
    {
        match self.turn {
            Some(turn) => DurabilityTurn { turn: Some(turn.completed(final_message, end)) },
            None => DurabilityTurn { turn: None },
        }
    }

    /// The turn ended without a message.
    pub fn ended(self, status: RolloutTurnStatus, end: TurnEnd) -> (r: Self)
        ensures
            r.recorded() == match self.recorded() {
                Some(turn) => Some(turn.ended(status, end)),
                None => None,
            },
    {
        match self.turn {
            Some(turn) => DurabilityTurn { turn: Some(turn.finish(status, end)) },
            None => DurabilityTurn { turn: None },
        }
    }
}

impl Durability {
    /// The recorder.
    pub closed spec fn keeper(&self) -> Option<RolloutRecorder> {
        self.recorder
    }

    /// An agent with or without a record.
    pub fn new(recorder: Option<RolloutRecorder>) -> (r: Self)
        ensures
            r.keeper() == recorder,
    {
        Durability { recorder }
    }

    /// Returns identity and place of the record.
    pub fn info(&self) -> (r: Option<&RolloutInfo>)
        ensures
            match r {
                Some(info) => self.keeper() is Some && *info == self.keeper()->0.details(),
                None => self.keeper() is None,
            },
    {
        match &self.recorder {
            Some(recorder) => Some(recorder.info()),
            None => None,
        }
    }

    /// Starts a turn.
    pub fn start_turn(&self, prompt: &Prompt, effort: Thinking, now: i64) -> (r: DurabilityTurn)
        ensures
            match r.recorded() {
                Some(turn) => self.keeper() is Some && turn.fresh(now, effort) && turn.user_message
                    == Some(*prompt),
                None => self.keeper() is None,
            },
    {
        match &self.recorder {
            Some(_) => DurabilityTurn { turn: Some(RolloutTurn::started(prompt, effort, now)) },
            None => DurabilityTurn { turn: None },
        }
    }

    /// Starts a turn that only compacts the conversation.
    pub fn start_compaction(&self, effort: Thinking, now: i64) -> (r: DurabilityTurn)
        ensures
            match r.recorded() {
                Some(turn) => self.keeper() is Some && turn.fresh(now, effort) && turn.user_message
                    is None,
                None => self.keeper() is None,
            },
    {
        match &self.recorder {
            Some(_) => DurabilityTurn { turn: Some(RolloutTurn::compaction_started(effort, now)) },
            None => DurabilityTurn { turn: None },
        }
    }

    /// Returns the turn that has to be written, if the agent keeps a record.
    pub fn persist(&self, turn: DurabilityTurn) -> (r: Option<RolloutTurn>)
        ensures
            r == if self.keeper() is Some {
                turn.recorded()
            } else {
                None
            },
    {
        match &self.recorder {
            Some(_) => turn.turn,
            None => None,
        }
    }

    /// Returns the failure of a record that could not be written.
    pub fn persist_failure(&self, source: String) -> (r: Option<PersistRolloutFailure>)
        ensures
            match r {
                Some(failure) => self.keeper() is Some && failure.path@
                    == self.keeper()->0.details().place() && failure.source == source,
                None => self.keeper() is None,
            },
    {
        match &self.recorder {
            Some(recorder) => Some(
                PersistRolloutFailure { path: recorder.info.path.clone(), source },
            ),
            None => None,
        }
    }
}

/// A turn that ends twice keeps the time of its first end out of the record:
/// only a running turn has a duration.
pub proof fn law_turn_is_timed_once(
    turn: RolloutTurn,
    first: RolloutTurnStatus,
    end: TurnEnd,
    second: RolloutTurnStatus,
    later: TurnEnd,
)
    ensures
        turn.ended(first, end).ended(second, later).duration_ms is None,
        turn.ended(first, end).ended(second, later).status == second,
        turn.ended(first, end).ended(second, later).turn_id == turn.turn_id,
{
}

/// A hidden record and its published place are different files of the same
/// directory.
pub proof fn law_hidden_records_are_apart(
    style: PathStyle,
    directory: Seq<char>,
    now: LocalTime,
    thread_id: Seq<char>,
)
    ensures
        path_below(style, directory, record_name(now, thread_id)) != path_below(
            style,
            directory,
            pending_name(now, thread_id),
        ),
{
    reveal_strlit("rollout-");
    reveal_strlit(".rollout-");
    reveal_strlit("/");
    reveal_strlit("\\");
    let open = record_name(now, thread_id);
    let hidden = pending_name(now, thread_id);
    assert(open[0] == 'r');
    assert(hidden[0] == '.');
    let n = if directory.len() == 0 || style.open_ended(directory) || style.bare_drive(directory) {
        directory.len() as int
    } else {
        directory.len() as int + 1
    };
    assert(path_below(style, directory, open)[n] == 'r');
    assert(path_below(style, directory, hidden)[n] == '.');
}

/// A path below another one starts with that one and ends with itself; between
/// them stands nothing or one separator. It stands there exactly when the outer
/// path names something and does not end where a part can follow at once.
pub proof fn law_joined_paths_keep_both_parts(style: PathStyle, base: Seq<char>, path: Seq<char>)
    ensures
        ({
            let joined = path_below(style, base, path);
            let verbatim = base.len() >= 4 && base[0] == '\\' && base[1] == '\\' && base[2] == '?'
                && base[3] == '\\';
            let closed = match style {
                PathStyle::Unix => base.len() > 0 && base.last() != '/',
                PathStyle::Windows => base.len() > 0 && base.last() != '\\' && (base.last() != '/'
                    || verbatim) && !(base.len() == 2 && base[1] == ':' && drive_letter(base[0])),
            };
            &&& joined.take(base.len() as int) == base
            &&& joined.skip(joined.len() - path.len()) == path
            &&& closed ==> joined.len() == base.len() + 1 + path.len()
            &&& closed && style == PathStyle::Unix ==> joined[base.len() as int] == '/'
            &&& closed && style == PathStyle::Windows ==> joined[base.len() as int] == '\\'
            &&& !closed ==> joined == base + path
        }),
{
    reveal_strlit("/");
    reveal_strlit("\\");
    let joined = path_below(style, base, path);
    assert(joined.take(base.len() as int) =~= base);
    assert(joined.skip(joined.len() - path.len()) =~= path);
}

/// A workspace that starts at the root is taken as it is, whatever directory
/// the process runs in; a relative one lies below that directory. Where paths
/// have no drives every path is one or the other.
pub proof fn law_workspaces_start_where_they_say(
    style: PathStyle,
    workspace: StatedWorkspace<'_>,
    current: Seq<char>,
)
    ensures
        style.absolute(workspace.path@) ==> workspace.within(style, current) == workspace.path@,
        !style.absolute(workspace.path@) && style.relative(workspace.path@) && !style.verbatim(
            current,
        ) ==> workspace.within(style, current) == path_below(style, current, workspace.path@),
        style == PathStyle::Unix ==> (style.absolute(workspace.path@) <==> !style.relative(
            workspace.path@,
        )) && !style.verbatim(current),
        style == PathStyle::Unix ==> (style.absolute(workspace.path@) <==> workspace.path@.len() > 0
            && workspace.path@[0] == '/'),
        style == PathStyle::Windows ==> (style.absolute(workspace.path@) <==> workspace.path@.len()
            >= 3 && drive_letter(workspace.path@[0]) && workspace.path@[1] == ':' && (
        workspace.path@[2] == '/' || workspace.path@[2] == '\\')),
        !style.absolute(workspace.path@) && (!style.relative(workspace.path@) || style.verbatim(
            current,
        )) ==> workspace.within(style, current) == workspace.resolved@,
        style.absolute(workspace.path@) ==> !style.relative(workspace.path@),
{
}

/// A time stamp states year, month, day, hour, minute and second in this order,
/// each in its own digits.
pub proof fn law_stamps_state_every_part_of_the_time(now: LocalTime)
    ensures
        now.stamp().len() == 19,
        now.stamp().subrange(0, 4) == text::padded_digits(now.year as nat, 4),
        now.stamp()[4] == '-',
        now.stamp().subrange(5, 7) == text::padded_digits(now.month as nat, 2),
        now.stamp()[7] == '-',
        now.stamp().subrange(8, 10) == text::padded_digits(now.day as nat, 2),
        now.stamp()[10] == 'T',
        now.stamp().subrange(11, 13) == text::padded_digits(now.hour as nat, 2),
        now.stamp()[13] == '-',
        now.stamp().subrange(14, 16) == text::padded_digits(now.minute as nat, 2),
        now.stamp()[16] == '-',
        now.stamp().subrange(17, 19) == text::padded_digits(now.second as nat, 2),
{
    reveal_strlit("-");
    reveal_strlit("T");
    lemma_padded_with_digits(now.year as nat, 4);
    lemma_padded_with_digits(now.month as nat, 2);
    lemma_padded_with_digits(now.day as nat, 2);
    lemma_padded_with_digits(now.hour as nat, 2);
    lemma_padded_with_digits(now.minute as nat, 2);
    lemma_padded_with_digits(now.second as nat, 2);
    assert(now.stamp().subrange(0, 4) =~= text::padded_digits(now.year as nat, 4));
    assert(now.stamp().subrange(5, 7) =~= text::padded_digits(now.month as nat, 2));
    assert(now.stamp().subrange(8, 10) =~= text::padded_digits(now.day as nat, 2));
    assert(now.stamp().subrange(11, 13) =~= text::padded_digits(now.hour as nat, 2));
    assert(now.stamp().subrange(14, 16) =~= text::padded_digits(now.minute as nat, 2));
    assert(now.stamp().subrange(17, 19) =~= text::padded_digits(now.second as nat, 2));
}

/// The name of a record states the time and the conversation, also while it is
/// hidden; two conversations have two names.
pub proof fn law_record_names_tell_conversations_apart(
    now: LocalTime,
    one: Seq<char>,
    other: Seq<char>,
)
    ensures
        record_name(now, one).subrange(8, 27) == now.stamp(),
        record_name(now, one).subrange(28, 28 + one.len() as int) == one,
        pending_name(now, one).subrange(9, 28) == now.stamp(),
        pending_name(now, one).subrange(29, 29 + one.len() as int) == one,
        record_name(now, one) == record_name(now, other) <==> one == other,
        pending_name(now, one) == pending_name(now, other) <==> one == other,
        pending_name(now, one)[0] == '.',
        record_name(now, one)[0] != '.',
{
    reveal_strlit("rollout-");
    reveal_strlit(".rollout-");
    reveal_strlit("-");
    reveal_strlit(".jsonl");
    reveal_strlit(".pending");
    law_stamps_state_every_part_of_the_time(now);
    let open = record_name(now, one);
    let hidden = pending_name(now, one);
    assert(open.len() == 8 + 19 + 1 + one.len() + 6);
    assert(hidden.len() == 9 + 19 + 1 + one.len() + 8);
    assert(open.subrange(8, 27) =~= now.stamp());
    assert(open.subrange(28, 28 + one.len() as int) =~= one);
    assert(hidden.subrange(9, 28) =~= now.stamp());
    assert(hidden.subrange(29, 29 + one.len() as int) =~= one);
    assert(record_name(now, other).len() == 8 + 19 + 1 + other.len() + 6);
    assert(pending_name(now, other).len() == 9 + 19 + 1 + other.len() + 8);
    assert(record_name(now, other).subrange(28, 28 + other.len() as int) =~= other);
    assert(pending_name(now, other).subrange(29, 29 + other.len() as int) =~= other);
}

/// Records lie in a directory for their day, below one for the month and one
/// for the year, in the directory of all records.
pub proof fn law_records_lie_in_their_days_directory(
    style: PathStyle,
    codex_home: Seq<char>,
    now: LocalTime,
)
    ensures
        ({
            let directory = day_directory(style, codex_home, now);
            let n: int = directory.len() as int;
            &&& n >= codex_home.len() + 19
            &&& directory.take(codex_home.len() as int) == codex_home
            &&& directory.subrange(n - 2, n) == text::padded_digits(now.day as nat, 2)
            &&& directory.subrange(n - 5, n - 3) == text::padded_digits(now.month as nat, 2)
            &&& directory.subrange(n - 10, n - 6) == text::padded_digits(now.year as nat, 4)
            &&& directory.subrange(n - 19, n - 11) == "sessions"@
        }),
{
    reveal_strlit("/");
    reveal_strlit("\\");
    reveal_strlit("sessions");
    lemma_padded_with_digits(now.year as nat, 4);
    lemma_padded_with_digits(now.month as nat, 2);
    lemma_padded_with_digits(now.day as nat, 2);
    let sessions = path_below(style, codex_home, "sessions"@);
    let year = path_below(style, sessions, text::padded_digits(now.year as nat, 4));
    let month = path_below(style, year, text::padded_digits(now.month as nat, 2));
    let directory = path_below(style, month, text::padded_digits(now.day as nat, 2));
    assert(sessions.last() == "sessions"@[7]);
    assert(text::is_digit(text::padded_digits(now.year as nat, 4)[3]));
    assert(text::is_digit(text::padded_digits(now.month as nat, 2)[1]));
    assert(year.len() == sessions.len() + 5);
    assert(month.len() == year.len() + 3);
    assert(directory.len() == month.len() + 3);
    let n: int = directory.len() as int;
    assert(directory.take(codex_home.len() as int) =~= codex_home);
    assert(directory.subrange(n - 2, n) =~= text::padded_digits(now.day as nat, 2));
    assert(directory.subrange(n - 5, n - 3) =~= text::padded_digits(now.month as nat, 2));
    assert(directory.subrange(n - 10, n - 6) =~= text::padded_digits(now.year as nat, 4));
    assert(directory.subrange(n - 19, n - 11) =~= "sessions"@);
}

/// The first line of a record states whose it is: the conversation, its lineage
/// and cache key, its workspace and instructions. It names the parent of a
/// started agent, and states that it was forked off it exactly where it was.
pub proof fn law_records_introduce_their_session(
    meta: SessionMeta,
    thread_id: Seq<char>,
    identity: RolloutIdentity<'_>,
    cwd: Seq<char>,
    instructions: Seq<char>,
    origin: RolloutOrigin<'_>,
    start: RolloutStart,
)
    requires
        introduces(meta, thread_id, identity, cwd, instructions, origin, start),
    ensures
        meta.session_id@ == thread_id,
        meta.id@ == thread_id,
        meta.nanocodex_lineage_id@ == identity.lineage_id@,
        meta.nanocodex_prompt_cache_key@ == identity.prompt_cache_key@,
        meta.cwd@ == cwd,
        meta.base_instructions@ == instructions,
        meta.timestamp == start.timestamp,
        meta.cli_version == start.cli_version,
        meta.window_id == start.window_id,
        origin.parent_thread_id is None ==> meta.parent_thread_id is None && meta.forked_from_id
            is None,
        origin.parent_thread_id matches Some(parent) ==> (meta.parent_thread_id matches Some(named)
            && named@ == parent@),
        origin.parent_thread_id matches Some(parent) ==> origin.kind@ == "fork"@ ==> (
        meta.forked_from_id matches Some(named) && named@ == parent@),
        origin.kind@ != "fork"@ ==> meta.forked_from_id is None,
        meta.originator@ == "nanocodex"@,
        meta.source@ == "cli"@,
        meta.thread_source@ == "user"@,
        meta.model_provider@ == "openai"@,
        meta.history_mode@ == "legacy"@,
{
}

/// A record that is to be continued is continued where it is; any other
/// conversation gets one of its own in the directory of its day. Only a forked
/// one is hidden at first, and it is written where it is hidden.
pub proof fn law_only_forks_start_hidden(
    plan: RolloutPlan,
    config: RolloutConfig,
    thread_id: Seq<char>,
    identity: RolloutIdentity<'_>,
    cwd: Seq<char>,
    instructions: Seq<char>,
    origin: RolloutOrigin<'_>,
    resume_history_len: Option<usize>,
    start: RolloutStart,
)
    requires
        plans(
            plan,
            config,
            thread_id,
            identity,
            cwd,
            instructions,
            origin,
            resume_history_len,
            start,
        ),
    ensures
        plan is Resume <==> config.resume_path is Some,
        plan matches RolloutPlan::Resume { path, history_len } ==> Some(path) == config.resume_path
            && Some(history_len) == resume_history_len,
        plan matches RolloutPlan::Create(new) ==> {
            let place = new.recorder.details().place();
            &&& new.directory@ == day_directory(config.path_style, config.codex_home@, start.now)
            &&& new.recorder.details().thread() == thread_id
            &&& place == path_below(
                config.path_style,
                new.directory@,
                record_name(start.now, thread_id),
            )
            &&& new.recorder.hidden() is Some <==> origin.kind@ == "fork"@
            &&& new.recorder.hidden() is None ==> new.writer_path@ == place
            &&& new.recorder.hidden() matches Some(hidden) ==> new.writer_path@ == hidden && hidden
                == path_below(
                config.path_style,
                new.directory@,
                pending_name(start.now, thread_id),
            )
            &&& new.meta.session_id@ == thread_id
            &&& new.meta.cwd@ == cwd
            &&& introduces(new.meta, thread_id, identity, cwd, instructions, origin, start)
        },
{
}

/// The end of a turn states how and when it ended and, where its time is taken,
/// how long it took, up to the longest time that can be stated. What it was
/// stays: its identity, what the user asked, its effort and its start.
pub proof fn law_ended_turns_state_their_end(
    turn: RolloutTurn,
    status: RolloutTurnStatus,
    end: TurnEnd,
)
    ensures
        ({
            let ended = turn.ended(status, end);
            &&& ended.status == status
            &&& ended.completed_at == Some(end.now)
            &&& turn.timed && end.elapsed_ms <= i64::MAX ==> (ended.duration_ms matches Some(took)
                && took == end.elapsed_ms)
            &&& turn.timed && end.elapsed_ms > i64::MAX ==> ended.duration_ms == Some(i64::MAX)
            &&& !turn.timed ==> ended.duration_ms is None
            &&& !ended.timed
            &&& ended.turn_id == turn.turn_id
            &&& ended.user_message == turn.user_message
            &&& ended.final_message == turn.final_message
            &&& ended.started_at == turn.started_at
            &&& ended.effort == turn.effort
        }),
{
}

/// A turn that has just started runs, is timed, and states nothing of an end.
pub proof fn law_started_turns_run(turn: RolloutTurn, started_at: i64, effort: Thinking)
    requires
        turn.fresh(started_at, effort),
    ensures
        turn.status == RolloutTurnStatus::InProgress,
        turn.started_at == started_at,
        turn.effort == effort,
        turn.timed,
        turn.final_message is None,
        turn.completed_at is None,
        turn.duration_ms is None,
        exists|value: u128|
            session_id::uuid_version(value) == 7 && turn.turn_id@
                == #[trigger] session_id::hyphenated(value),
{
}

} // verus!
