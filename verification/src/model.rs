//! What the dashboard knows of repositories, their configuration, and worktrees.
use vstd::prelude::*;

use crate::table::Table;
use crate::text::owned;
use crate::text::same;

verus! {

/// A git repository: its root directory, and a hash of that path that stays the
/// same from run to run.
#[derive(Debug)]
pub struct Repository {
    pub root: String,
    pub root_hash: u64,
}

impl Repository {
    /// A copy of the repository.
    pub fn copy(&self) -> (r: Self)
        ensures
            r.root@ == self.root@,
            r.root_hash == self.root_hash,
    {
        Repository { root: self.root.clone(), root_hash: self.root_hash }
    }
}

/// Which news of agents are told on the desktop, one bit for each kind. The dashboard hands
/// them on as they are.
#[derive(Clone, Copy, Debug, PartialEq, Eq, Structural)]
pub struct NotificationSettings {
    pub bits: u32,
}

/// The settings of a repository.
pub struct Config {
    /// The agent that runs in the first window of a session.
    pub default_agent: String,
    /// The harness that worktrees are to use.
    pub default_harness: String,
    /// The branch that worktrees start from.
    pub default_branch: String,
    /// The shell of the terminal window.
    pub shell: String,
    /// Whether the default agent can work without a terminal.
    pub headless_agent: bool,
    pub notifications: NotificationSettings,
    /// Paths of tools, by name.
    pub tools: Table<String, String>,
    /// Command lines of agents, by name.
    pub agent_commands: Table<String, String>,
}

/// The value of a name, or the name itself where it has none.
pub open spec fn named_or_self(table: Map<Seq<char>, String>, name: Seq<char>) -> Seq<char> {
    if table.dom().contains(name) {
        table[name]@
    } else {
        name
    }
}

impl Config {
    /// The program to run for a tool.
    pub open spec fn tool_text(&self, name: Seq<char>) -> Seq<char> {
        named_or_self(self.tools@, name)
    }

    /// The command line of the default agent.
    pub open spec fn agent_line(&self) -> Seq<char> {
        named_or_self(self.agent_commands@, self.default_agent@)
    }

    /// Whether the default agent is OpenCode.
    pub open spec fn runs_opencode(&self) -> bool {
        self.default_agent@ == "opencode"@
    }

    /// The program to run for a tool: the configured one, or the tool's own name.
    pub fn tool(&self, name: &str) -> (r: String)
        ensures
            r@ == self.tool_text(name@),
    {
        let key: String = owned(name);
        match self.tools.get(&key) {
            Some(path) => path.clone(),
            None => key,
        }
    }

    /// The command line of an agent: the configured one, or the agent's own name.
    pub fn agent_command(&self, name: &str) -> (r: String)
        ensures
            r@ == named_or_self(self.agent_commands@, name@),
    {
        let key: String = owned(name);
        match self.agent_commands.get(&key) {
            Some(line) => line.clone(),
            None => key,
        }
    }

    /// Whether the default agent is OpenCode.
    pub fn uses_opencode(&self) -> (r: bool)
        ensures
            r == self.runs_opencode(),
    {
        same(self.default_agent.as_str(), "opencode")
    }

    /// Whether a branch is the one that worktrees start from.
    pub fn is_default_branch(&self, branch: &str) -> (r: bool)
        ensures
            r == (branch@ == self.default_branch@),
    {
        same(branch, self.default_branch.as_str())
    }
}

/// What the agent of a worktree is doing.
#[derive(Clone, Copy, Debug, PartialEq, Eq, Structural)]
pub enum AgentState {
    Idle,
    Running,
    Attached,
    NeedsInput,
    NeedsRestart,
    ExitedOk,
    ExitedError,
}

/// How far the provider of a change request supports an operation.
#[derive(Clone, Copy, Debug, PartialEq, Eq, Structural)]
pub enum SupportLevel {
    Supported,
    Conditional,
    Unknown,
    Unsupported,
}

/// What the provider of a change request supports.
#[derive(Clone, Copy, Debug)]
pub struct Capabilities {
    pub list_change_requests: SupportLevel,
    pub fetch_change_request: SupportLevel,
    pub resolve_review_thread: SupportLevel,
    pub ci_logs: SupportLevel,
    pub review_threads: SupportLevel,
    pub guarded_merge: SupportLevel,
}

/// A change request as its provider lists it.
#[derive(Debug)]
pub struct PrSummary {
    pub number: u64,
    /// The name of the change request among those of all providers.
    pub identity: Option<String>,
    /// Whether the identity, where there is one, belongs to GitHub.
    pub on_github: bool,
    pub title: String,
    pub author: String,
    pub body: String,
    pub url: String,
    pub state: String,
    pub review_decision: String,
    pub requested_reviewers: Vec<String>,
    pub head_ref: String,
    pub base_ref: String,
    pub head_sha: String,
    pub merge_state_status: String,
    pub comment_count: u64,
    pub draft: bool,
    pub merged: bool,
    /// Whether the merge is under way or done.
    pub finishing: bool,
    pub updated_at: String,
    pub check_status: String,
    pub capabilities: Capabilities,
}

/// An inline review comment.
#[derive(Debug)]
pub struct ReviewComment {
    pub thread_id: String,
    pub resolved: bool,
}

/// A comment as the main panel shows it.
#[derive(Debug)]
pub struct CommentRow {
    pub kind: String,
    pub author: String,
    pub resolved: String,
    pub context: String,
    pub body: String,
}

/// The details of a change request.
#[derive(Debug)]
pub struct PrDetails {
    pub ci_failures: usize,
    pub reviews: usize,
    pub review_comments: Vec<ReviewComment>,
    pub comment_rows: Vec<CommentRow>,
}

/// What is known of the change request of a worktree.
#[derive(Debug)]
pub struct PrCache {
    pub summary: Option<PrSummary>,
    pub details: Option<PrDetails>,
    /// Whether the details are as fresh as the summary.
    pub details_trusted: bool,
    pub last_refreshed: Option<String>,
    /// Why the change request has to be looked into before it is changed.
    pub reconciliation: Option<String>,
}

/// The OpenCode server and session of a worktree, as far as they are known.
#[derive(Debug)]
pub struct OpencodeStatus {
    pub server_url: Option<String>,
    pub session_id: Option<String>,
}

/// A value of an extra column of the worktree list.
#[derive(Debug)]
pub struct WtColumn {
    pub name: String,
    pub value: String,
}

/// A worktree and the agent session that belongs to it.
#[derive(Debug)]
pub struct Session {
    /// The position of the repository among the managed ones.
    pub repo_index: usize,
    pub repo_label: String,
    /// The name under which the state of the agent is stored.
    pub worktree_session_id: String,
    pub branch: String,
    pub path: String,
    pub path_display: String,
    pub prompt_summary: String,
    /// The name of what the worktree is for.
    pub classification: String,
    /// The extra columns of the worktree list, in the order of their names.
    pub wt_columns: Vec<WtColumn>,
    pub visibility: i16,
    pub hidden: bool,
    pub unseen_comments: bool,
    pub agent_state: AgentState,
    pub status_label: String,
    /// How many files the status counts as changed, where it counts any.
    pub dirty_files: Option<u64>,
    /// How many commits the status counts the branch behind, where it counts any.
    pub behind_commits: Option<u64>,
    pub pr: PrCache,
    pub opencode_status: Option<OpencodeStatus>,
}

/// A repository on the dashboard.
pub struct ManagedRepo {
    pub repo: Repository,
    pub config: Config,
    pub label: String,
    /// The key that selects the repository.
    pub key: Option<char>,
    pub pr_summaries: Vec<PrSummary>,
    /// What the provider of the repository supports, once that is known.
    pub remote_capabilities: Option<Capabilities>,
}

impl ManagedRepo {
    /// A repository of which nothing was polled yet.
    pub fn new(repo: Repository, config: Config, label: String, key: Option<char>) -> (r: Self)
        ensures
            r.repo == repo,
            r.config == config,
            r.label == label,
            r.key == key,
            r.pr_summaries@.len() == 0,
            r.remote_capabilities is None,
    {
        ManagedRepo {
            repo,
            config,
            label,
            key,
            pr_summaries: Vec::new(),
            remote_capabilities: None,
        }
    }
}

} // verus!
