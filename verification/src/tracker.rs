//! Which background work is under way for what, and whether its results still count.
use vstd::prelude::*;

use crate::jobs::JobKeyView;
use crate::jobs::JobMetadata;
use crate::jobs::MetadataView;
use crate::jobs::TuiJobKey;
use crate::jobs::TuiJobKind;
use crate::keys::identity_key;
use crate::keys::DashboardOutputKey;
use crate::keys::GenerationView;
use crate::keys::ListenerView;
use crate::keys::OpencodeListenerKey;
use crate::keys::OutputView;
use crate::keys::WorktreeGeneration;
use crate::keys::WorktreeRepositoryKey;
use crate::keys::WorktreeSessionKey;
use crate::keys::WorktreeView;
use crate::model::AgentState;
use crate::model::Session;
use crate::navigation::NavView;
use crate::navigation::Navigation;
use crate::table::Key;
use crate::table::KeySet;
use crate::table::Table;
use crate::text::same;

verus! {

/// The state of an agent that is to be stored, or to be taken out of the store.
#[derive(Debug)]
pub struct AgentStatePersistenceRequest {
    pub generation: u64,
    pub root: String,
    /// The name under which the state is stored.
    pub worktree_session_id: String,
    pub branch: String,
    pub state: Option<AgentState>,
}

/// A request, as contracts speak of it.
#[verifier::ext_equal]
pub struct RequestView {
    pub generation: u64,
    pub root: Seq<char>,
    pub worktree_session_id: Seq<char>,
    pub branch: Seq<char>,
    pub state: Option<AgentState>,
}

impl AgentStatePersistenceRequest {
    /// The request as contracts speak of it.
    pub open spec fn view(&self) -> RequestView {
        RequestView {
            generation: self.generation,
            root: self.root@,
            worktree_session_id: self.worktree_session_id@,
            branch: self.branch@,
            state: self.state,
        }
    }
}

/// What background work is under way.
pub struct JobTracker {
    pub session_refresh_in_flight: bool,
    /// Whether the list of worktrees is to be read again once it has been read.
    pub session_refresh_pending: bool,
    /// The generation of the list of worktrees.
    pub session_inventory_generation: u64,
    /// The revision of what is known of runs.
    pub workflow_revision: u64,
    pub workflow_maintenance_in_flight: bool,
    /// The generation of each worktree.
    pub worktree_generations: Table<WorktreeSessionKey, u64>,
    pub agent_state_in_flight: KeySet<WorktreeSessionKey>,
    pub agent_state_pending: Table<WorktreeSessionKey, AgentStatePersistenceRequest>,
    pub pr_summary_polls_in_flight: KeySet<WorktreeRepositoryKey>,
    pub pr_polls_in_flight: KeySet<WorktreeGeneration>,
    pub pr_persistence_in_flight: KeySet<WorktreeGeneration>,
    pub pr_persistence_versions: Table<WorktreeGeneration, u64>,
    pub merge_cleanups_in_flight: KeySet<WorktreeGeneration>,
    pub workflow_polls_in_flight: KeySet<WorktreeRepositoryKey>,
    pub dashboard_outputs_in_flight: KeySet<DashboardOutputKey>,
    pub delete_sessions_in_flight: KeySet<WorktreeGeneration>,
    pub tmux_warmups_in_flight: KeySet<WorktreeGeneration>,
    /// The generation of the tmux session of each worktree.
    pub tmux_generations: Table<WorktreeSessionKey, u64>,
    /// The captures of tmux sessions, with the time they were started at.
    pub tmux_portal_polls_in_flight: Table<WorktreeGeneration, u64>,
    pub wt_polls_in_flight: KeySet<WorktreeRepositoryKey>,
    pub hook_log_polls_in_flight: KeySet<WorktreeRepositoryKey>,
    pub default_branch_polls_in_flight: KeySet<WorktreeRepositoryKey>,
    pub opencode_polls_in_flight: KeySet<WorktreeGeneration>,
    pub opencode_listeners: KeySet<OpencodeListenerKey>,
}

/// What background work is under way, as contracts speak of it.
#[verifier::ext_equal]
pub struct TrackerView {
    pub session_refresh_in_flight: bool,
    pub session_refresh_pending: bool,
    pub session_inventory_generation: u64,
    pub workflow_revision: u64,
    pub workflow_maintenance_in_flight: bool,
    pub worktree_generations: Map<WorktreeView, u64>,
    pub agent_state_in_flight: Set<WorktreeView>,
    pub agent_state_pending: Map<WorktreeView, RequestView>,
    pub pr_summary_polls_in_flight: Set<Seq<char>>,
    pub pr_polls_in_flight: Set<GenerationView>,
    pub pr_persistence_in_flight: Set<GenerationView>,
    pub pr_persistence_versions: Map<GenerationView, u64>,
    pub merge_cleanups_in_flight: Set<GenerationView>,
    pub workflow_polls_in_flight: Set<Seq<char>>,
    pub dashboard_outputs_in_flight: Set<OutputView>,
    pub delete_sessions_in_flight: Set<GenerationView>,
    pub tmux_warmups_in_flight: Set<GenerationView>,
    pub tmux_generations: Map<WorktreeView, u64>,
    pub tmux_portal_polls_in_flight: Map<GenerationView, u64>,
    pub wt_polls_in_flight: Set<Seq<char>>,
    pub hook_log_polls_in_flight: Set<Seq<char>>,
    pub default_branch_polls_in_flight: Set<Seq<char>>,
    pub opencode_polls_in_flight: Set<GenerationView>,
    pub opencode_listeners: Set<ListenerView>,
}

/// Whether a repository is on the dashboard.
pub open spec fn manages(nav: NavView, root: Seq<char>) -> bool {
    crate::navigation::repo_at_root(nav.repos, nav.repos.len(), root) is Some
}

/// Whether a session belongs to a worktree.
pub open spec fn belongs_to(nav: NavView, session: Session, worktree: WorktreeView) -> bool {
    session.repo_index < nav.repos.len() && crate::keys::identity_view(
        nav.repos[session.repo_index as int].repo.root@,
        session,
    ) == worktree
}

/// Whether a session of a listed worktree is the one that a stream of events is of.
pub open spec fn feeds(nav: NavView, index: int, stream: ListenerView) -> bool {
    let session = nav.sessions[index];
    &&& nav.session_list().contains(index as usize)
    &&& belongs_to(nav, session, stream.worktree)
    &&& match session.opencode_status {
        Some(status) => crate::text::opt_text(status.server_url) == Some(stream.server_url)
            && crate::text::opt_text(status.session_id) == Some(stream.session_id),
        None => false,
    }
}

/// Whether one of the first `n` sessions is the one that a stream of events is of.
pub open spec fn is_fed(nav: NavView, n: int, stream: ListenerView) -> bool {
    exists|i: int| 0 <= i < n && i < nav.sessions.len() && #[trigger] feeds(nav, i, stream)
}

impl TrackerView {
    /// Whether a generation is the one that a worktree is at.
    pub open spec fn at_generation(self, worktree: WorktreeView, generation: u64) -> bool {
        self.worktree_generations.dom().contains(worktree) && self.worktree_generations[worktree]
            == generation
    }

    /// Whether the results of a piece of work still count.
    pub open spec fn counts(self, nav: NavView, job: MetadataView) -> bool {
        match job.key {
            JobKeyView::Inventory => job.kind is WorkflowMaintenance || job.generation
                == self.session_inventory_generation,
            JobKeyView::System => true,
            JobKeyView::Repository(root) => job.kind is RemoteReconciliation || (job.generation
                == self.session_inventory_generation && manages(nav, root)),
            JobKeyView::WorktrunkHookLogs(root) => manages(nav, root),
            JobKeyView::WorkflowRepository(_) => job.generation == self.workflow_revision,
            JobKeyView::DashboardOutput(_) => job.generation == self.workflow_revision,
            JobKeyView::Worktree(worktree) => self.at_generation(worktree, job.generation),
            JobKeyView::AgentStatePersistence(worktree) => self.agent_state_in_flight.contains(
                worktree,
            ),
            JobKeyView::Pr(key) => key.generation == job.generation && self.at_generation(
                key.worktree,
                job.generation,
            ),
            JobKeyView::PrPersistence(key) => key.generation == job.generation
                && self.pr_persistence_versions.dom().contains(key),
            JobKeyView::Delete(key) => key.generation == job.generation && self.at_generation(
                key.worktree,
                job.generation,
            ),
            JobKeyView::Tmux(key) => key.generation == job.generation
                && self.tmux_generations.dom().contains(key.worktree)
                && self.tmux_generations[key.worktree] == key.generation,
            JobKeyView::Opencode(key) => key.generation == job.generation && self.at_generation(
                key.worktree,
                job.generation,
            ),
            JobKeyView::OpencodeListener(stream) => self.at_generation(
                stream.worktree,
                job.generation,
            ) && stream.generation == job.generation && is_fed(
                nav,
                nav.sessions.len() as int,
                stream,
            ),
        }
    }

    /// What is under way after a piece of work has ended.
    pub open spec fn cleared(self, job: MetadataView) -> TrackerView {
        match (job.kind, job.key) {
            (TuiJobKind::SessionRefresh, _) => TrackerView {
                session_refresh_in_flight: false,
                ..self
            },
            (TuiJobKind::WorkflowMaintenance, _) => TrackerView {
                workflow_maintenance_in_flight: false,
                ..self
            },
            (
                TuiJobKind::AgentStatePersistence,
                JobKeyView::AgentStatePersistence(key),
            ) => TrackerView {
                agent_state_in_flight: self.agent_state_in_flight.remove(key),
                ..self
            },
            (TuiJobKind::PrSummary, JobKeyView::Repository(root)) => TrackerView {
                pr_summary_polls_in_flight: self.pr_summary_polls_in_flight.remove(root),
                ..self
            },
            (TuiJobKind::PrDetails, JobKeyView::Pr(key)) => TrackerView {
                pr_polls_in_flight: self.pr_polls_in_flight.remove(key),
                ..self
            },
            (TuiJobKind::PrPersistence, JobKeyView::PrPersistence(key)) => TrackerView {
                pr_persistence_in_flight: self.pr_persistence_in_flight.remove(key),
                ..self
            },
            (TuiJobKind::DeferredMergeCleanup, JobKeyView::Delete(key)) => TrackerView {
                merge_cleanups_in_flight: self.merge_cleanups_in_flight.remove(key),
                ..self
            },
            (TuiJobKind::WorkflowPoll, JobKeyView::WorkflowRepository(root)) => TrackerView {
                workflow_polls_in_flight: self.workflow_polls_in_flight.remove(root),
                ..self
            },
            (TuiJobKind::DashboardOutput, JobKeyView::DashboardOutput(key)) => TrackerView {
                dashboard_outputs_in_flight: self.dashboard_outputs_in_flight.remove(key),
                ..self
            },
            (TuiJobKind::DeleteSession, JobKeyView::Delete(key)) => TrackerView {
                delete_sessions_in_flight: self.delete_sessions_in_flight.remove(key),
                ..self
            },
            (TuiJobKind::TmuxWarmup, JobKeyView::Tmux(key)) => TrackerView {
                tmux_warmups_in_flight: self.tmux_warmups_in_flight.remove(key),
                ..self
            },
            (TuiJobKind::TmuxPortal, JobKeyView::Tmux(key)) => TrackerView {
                tmux_portal_polls_in_flight: self.tmux_portal_polls_in_flight.remove(key),
                ..self
            },
            (TuiJobKind::WorktreeColumns, JobKeyView::Repository(root)) => TrackerView {
                wt_polls_in_flight: self.wt_polls_in_flight.remove(root),
                ..self
            },
            (TuiJobKind::WorktrunkHookLogs, JobKeyView::WorktrunkHookLogs(root)) => TrackerView {
                hook_log_polls_in_flight: self.hook_log_polls_in_flight.remove(root),
                ..self
            },
            (TuiJobKind::DefaultBranch, JobKeyView::Worktree(key)) => TrackerView {
                default_branch_polls_in_flight: self.default_branch_polls_in_flight.remove(
                    key.root,
                ),
                ..self
            },
            (TuiJobKind::OpencodePoll, JobKeyView::Opencode(key)) => TrackerView {
                opencode_polls_in_flight: self.opencode_polls_in_flight.remove(key),
                ..self
            },
            (TuiJobKind::OpencodeListener, JobKeyView::OpencodeListener(stream)) => TrackerView {
                opencode_listeners: self.opencode_listeners.remove(stream),
                ..self
            },
            _ => self,
        }
    }

    /// The generation of a worktree, zero where none is known.
    pub open spec fn generation_of(self, worktree: WorktreeView) -> u64 {
        if self.worktree_generations.dom().contains(worktree) {
            self.worktree_generations[worktree]
        } else {
            0
        }
    }

    /// What is under way once the state of a session's agent is to be stored, or, where
    /// there is none, to be taken out of the store.
    pub open spec fn with_request(
        self,
        nav: NavView,
        index: int,
        state: Option<AgentState>,
    ) -> TrackerView {
        let session = nav.sessions[index];
        let root = nav.repos[session.repo_index as int].repo.root@;
        let worktree = crate::keys::identity_view(root, session);
        TrackerView {
            agent_state_pending: self.agent_state_pending.insert(
                worktree,
                RequestView {
                    generation: self.generation_of(worktree),
                    root,
                    worktree_session_id: session.worktree_session_id@,
                    branch: session.branch@,
                    state,
                },
            ),
            ..self
        }
    }
}

/// Whether a session and its repository are known.
pub open spec fn is_known(nav: NavView, index: usize) -> bool {
    index < nav.sessions.len() && nav.sessions[index as int].repo_index < nav.repos.len()
}

/// The worktrees of the sessions of known repositories.
pub open spec fn known_worktrees(nav: NavView, n: nat) -> Set<WorktreeView>
    decreases n,
{
    if n == 0 {
        Set::empty()
    } else {
        let before = known_worktrees(nav, (n - 1) as nat);
        let session = nav.sessions[n - 1];
        if session.repo_index < nav.repos.len() {
            before.insert(
                crate::keys::identity_view(
                    nav.repos[session.repo_index as int].repo.root@,
                    session,
                ),
            )
        } else {
            before
        }
    }
}

/// What is under way at the start: nothing, and every known worktree is at its first
/// generation.
pub open spec fn fresh_tracker(nav: NavView) -> TrackerView {
    TrackerView {
        session_refresh_in_flight: false,
        session_refresh_pending: false,
        session_inventory_generation: 0,
        workflow_revision: 0,
        workflow_maintenance_in_flight: false,
        worktree_generations: Map::new(
            |worktree: WorktreeView| known_worktrees(nav, nav.sessions.len()).contains(worktree),
            |worktree: WorktreeView| 0,
        ),
        agent_state_in_flight: Set::empty(),
        agent_state_pending: Map::empty(),
        pr_summary_polls_in_flight: Set::empty(),
        pr_polls_in_flight: Set::empty(),
        pr_persistence_in_flight: Set::empty(),
        pr_persistence_versions: Map::empty(),
        merge_cleanups_in_flight: Set::empty(),
        workflow_polls_in_flight: Set::empty(),
        dashboard_outputs_in_flight: Set::empty(),
        delete_sessions_in_flight: Set::empty(),
        tmux_warmups_in_flight: Set::empty(),
        tmux_generations: Map::empty(),
        tmux_portal_polls_in_flight: Map::empty(),
        wt_polls_in_flight: Set::empty(),
        hook_log_polls_in_flight: Set::empty(),
        default_branch_polls_in_flight: Set::empty(),
        opencode_polls_in_flight: Set::empty(),
        opencode_listeners: Set::empty(),
    }
}

fn is_managed(navigation: &Navigation, root: &str) -> (r: bool)
    ensures
        r == manages(navigation@, crate::text::bare_path(root@)),
{
    let mut found: bool = false;
    let mut i: usize = 0;
    while i < navigation.repos.len()
        invariant
            i <= navigation.repos.len(),
            found == (crate::navigation::repo_at_root(
                navigation@.repos,
                i as nat,
                crate::text::bare_path(root@),
            ) is Some),
        decreases navigation.repos.len() - i,
    {
        if crate::text::is_same_path(navigation.repos[i].repo.root.as_str(), root) {
            found = true;
        }
        i += 1;
    }
    found
}

/// Whether a session belongs to a worktree.
pub fn session_belongs_to(
    navigation: &Navigation,
    session: &Session,
    worktree: &WorktreeSessionKey,
) -> (r: bool)
    ensures
        r == belongs_to(navigation@, *session, worktree@),
{
    if session.repo_index >= navigation.repos.len() {
        return false;
    }
    let root: &str = navigation.repos[session.repo_index].repo.root.as_str();
    let key: WorktreeSessionKey = identity_key(root, session);
    key.same_key(worktree)
}

fn text_is(value: &Option<String>, wanted: &str) -> (r: bool)
    ensures
        r == (crate::text::opt_text(*value) == Some(wanted@)),
{
    match value {
        Some(text) => same(text.as_str(), wanted),
        None => false,
    }
}

fn has_stream(navigation: &Navigation, stream: &OpencodeListenerKey) -> (r: bool)
    ensures
        r == is_fed(navigation@, navigation@.sessions.len() as int, stream@),
{
    let list: Vec<usize> = navigation.visible_session_indices();
    let mut i: usize = 0;
    while i < navigation.sessions.len()
        invariant
            i <= navigation.sessions.len(),
            list@ == navigation@.session_list(),
            !is_fed(navigation@, i as int, stream@),
        decreases navigation.sessions.len() - i,
    {
        let session: &Session = &navigation.sessions[i];
        let mut listed: bool = false;
        let mut k: usize = 0;
        while k < list.len()
            invariant
                k <= list.len(),
                list@ == navigation@.session_list(),
                listed == (exists|j: int| 0 <= j < k && #[trigger] list@[j] == i),
            decreases list.len() - k,
        {
            if list[k] == i {
                listed = true;
            }
            assert forall|j: int| 0 <= j < k + 1 && #[trigger] list@[j] == i implies listed by {}
            k += 1;
        }
        let same_server: bool = match &session.opencode_status {
            Some(status) => text_is(&status.server_url, stream.server_url.as_str()) && text_is(
                &status.session_id,
                stream.session_id.as_str(),
            ),
            None => false,
        };
        let feeding: bool = listed && session_belongs_to(navigation, session, &stream.worktree)
            && same_server;
        assert(navigation@.sessions[i as int] == *session);
        assert(listed == navigation@.session_list().contains(i));
        assert(feeding == feeds(navigation@, i as int, stream@));
        if feeding {
            return true;
        }
        i += 1;
    }
    false
}

impl JobTracker {
    /// The work under way as contracts speak of it.
    pub open spec fn view(&self) -> TrackerView {
        TrackerView {
            session_refresh_in_flight: self.session_refresh_in_flight,
            session_refresh_pending: self.session_refresh_pending,
            session_inventory_generation: self.session_inventory_generation,
            workflow_revision: self.workflow_revision,
            workflow_maintenance_in_flight: self.workflow_maintenance_in_flight,
            worktree_generations: self.worktree_generations@,
            agent_state_in_flight: self.agent_state_in_flight@,
            agent_state_pending: self.agent_state_pending@.map_values(
                |request: AgentStatePersistenceRequest| request@,
            ),
            pr_summary_polls_in_flight: self.pr_summary_polls_in_flight@,
            pr_polls_in_flight: self.pr_polls_in_flight@,
            pr_persistence_in_flight: self.pr_persistence_in_flight@,
            pr_persistence_versions: self.pr_persistence_versions@,
            merge_cleanups_in_flight: self.merge_cleanups_in_flight@,
            workflow_polls_in_flight: self.workflow_polls_in_flight@,
            dashboard_outputs_in_flight: self.dashboard_outputs_in_flight@,
            delete_sessions_in_flight: self.delete_sessions_in_flight@,
            tmux_warmups_in_flight: self.tmux_warmups_in_flight@,
            tmux_generations: self.tmux_generations@,
            tmux_portal_polls_in_flight: self.tmux_portal_polls_in_flight@,
            wt_polls_in_flight: self.wt_polls_in_flight@,
            hook_log_polls_in_flight: self.hook_log_polls_in_flight@,
            default_branch_polls_in_flight: self.default_branch_polls_in_flight@,
            opencode_polls_in_flight: self.opencode_polls_in_flight@,
            opencode_listeners: self.opencode_listeners@,
        }
    }

    /// Nothing is under way, and every known worktree is at its first generation.
    pub fn new(navigation: &Navigation) -> (r: Self)
        ensures
            r@ == fresh_tracker(navigation@),
    {
        let mut generations: Table<WorktreeSessionKey, u64> = Table::new();
        let mut i: usize = 0;
        while i < navigation.sessions.len()
            invariant
                i <= navigation.sessions.len(),
                forall|worktree: WorktreeView| #[trigger]
                    generations@.dom().contains(worktree) <==> known_worktrees(
                        navigation@,
                        i as nat,
                    ).contains(worktree),
                forall|worktree: WorktreeView| #[trigger]
                    generations@.dom().contains(worktree) ==> generations@[worktree] == 0,
            decreases navigation.sessions.len() - i,
        {
            let session: &Session = &navigation.sessions[i];
            if session.repo_index < navigation.repos.len() {
                let root: &str = navigation.repos[session.repo_index].repo.root.as_str();
                generations.insert(identity_key(root, session), 0);
            }
            i += 1;
        }
        let r = JobTracker {
            session_refresh_in_flight: false,
            session_refresh_pending: false,
            session_inventory_generation: 0,
            workflow_revision: 0,
            workflow_maintenance_in_flight: false,
            worktree_generations: generations,
            agent_state_in_flight: KeySet::new(),
            agent_state_pending: Table::new(),
            pr_summary_polls_in_flight: KeySet::new(),
            pr_polls_in_flight: KeySet::new(),
            pr_persistence_in_flight: KeySet::new(),
            pr_persistence_versions: Table::new(),
            merge_cleanups_in_flight: KeySet::new(),
            workflow_polls_in_flight: KeySet::new(),
            dashboard_outputs_in_flight: KeySet::new(),
            delete_sessions_in_flight: KeySet::new(),
            tmux_warmups_in_flight: KeySet::new(),
            tmux_generations: Table::new(),
            tmux_portal_polls_in_flight: Table::new(),
            wt_polls_in_flight: KeySet::new(),
            hook_log_polls_in_flight: KeySet::new(),
            default_branch_polls_in_flight: KeySet::new(),
            opencode_polls_in_flight: KeySet::new(),
            opencode_listeners: KeySet::new(),
        };
        assert(r@ =~= fresh_tracker(navigation@));
        r
    }

    /// Whether a generation is the one that a worktree is at.
    pub fn worktree_generation_is_current(
        &self,
        worktree: &WorktreeSessionKey,
        generation: u64,
    ) -> (r: bool)
        ensures
            r == self@.at_generation(worktree@, generation),
    {
        match self.worktree_generations.get(worktree) {
            Some(current) => *current == generation,
            None => false,
        }
    }

    /// Whether the results of a piece of work still count.
    pub fn job_generation_is_current(&self, navigation: &Navigation, metadata: &JobMetadata) -> (r:
        bool)
        ensures
            r == self@.counts(navigation@, metadata@),
    {
        let generation: u64 = metadata.generation;
        match &metadata.key {
            TuiJobKey::Inventory => metadata.kind == TuiJobKind::WorkflowMaintenance || generation
                == self.session_inventory_generation,
            TuiJobKey::System => true,
            TuiJobKey::Repository(repository) => metadata.kind == TuiJobKind::RemoteReconciliation
                || (generation == self.session_inventory_generation && is_managed(
                navigation,
                repository.root.as_str(),
            )),
            TuiJobKey::WorktrunkHookLogs(repository) => is_managed(
                navigation,
                repository.root.as_str(),
            ),
            TuiJobKey::WorkflowRepository(_) => generation == self.workflow_revision,
            TuiJobKey::DashboardOutput(_) => generation == self.workflow_revision,
            TuiJobKey::Worktree(key) => self.worktree_generation_is_current(key, generation),
            TuiJobKey::AgentStatePersistence(key) => self.agent_state_in_flight.contains(key),
            TuiJobKey::Pr(key) => key.generation == generation
                && self.worktree_generation_is_current(&key.worktree, generation),
            TuiJobKey::PrPersistence(key) => key.generation == generation
                && self.pr_persistence_versions.contains(key),
            TuiJobKey::Delete(key) => key.generation == generation
                && self.worktree_generation_is_current(&key.worktree, generation),
            TuiJobKey::Tmux(key) => {
                let current: bool = match self.tmux_generations.get(&key.worktree) {
                    Some(current) => *current == key.generation,
                    None => false,
                };
                key.generation == generation && current
            },
            TuiJobKey::Opencode(key) => key.generation == generation
                && self.worktree_generation_is_current(&key.worktree, generation),
            TuiJobKey::OpencodeListener(stream) => self.worktree_generation_is_current(
                &stream.worktree,
                generation,
            ) && stream.generation == generation && has_stream(navigation, stream),
        }
    }

    /// Takes notice that a piece of work has ended.
    pub fn clear_tui_job_in_flight(&mut self, metadata: &JobMetadata)
        ensures
            final(self)@ == old(self)@.cleared(metadata@),
    {
        match (metadata.kind, &metadata.key) {
            (TuiJobKind::SessionRefresh, _) => {
                self.session_refresh_in_flight = false;
            },
            (TuiJobKind::WorkflowMaintenance, _) => {
                self.workflow_maintenance_in_flight = false;
            },
            (TuiJobKind::AgentStatePersistence, TuiJobKey::AgentStatePersistence(key)) => {
                self.agent_state_in_flight.remove(key);
            },
            (TuiJobKind::PrSummary, TuiJobKey::Repository(repository)) => {
                self.pr_summary_polls_in_flight.remove(repository);
            },
            (TuiJobKind::PrDetails, TuiJobKey::Pr(key)) => {
                self.pr_polls_in_flight.remove(key);
            },
            (TuiJobKind::PrPersistence, TuiJobKey::PrPersistence(key)) => {
                self.pr_persistence_in_flight.remove(key);
            },
            (TuiJobKind::DeferredMergeCleanup, TuiJobKey::Delete(key)) => {
                self.merge_cleanups_in_flight.remove(key);
            },
            (TuiJobKind::WorkflowPoll, TuiJobKey::WorkflowRepository(repository)) => {
                self.workflow_polls_in_flight.remove(repository);
            },
            (TuiJobKind::DashboardOutput, TuiJobKey::DashboardOutput(key)) => {
                self.dashboard_outputs_in_flight.remove(key);
            },
            (TuiJobKind::DeleteSession, TuiJobKey::Delete(key)) => {
                self.delete_sessions_in_flight.remove(key);
            },
            (TuiJobKind::TmuxWarmup, TuiJobKey::Tmux(key)) => {
                self.tmux_warmups_in_flight.remove(key);
            },
            (TuiJobKind::TmuxPortal, TuiJobKey::Tmux(key)) => {
                let _ = self.tmux_portal_polls_in_flight.remove(key);
            },
            (TuiJobKind::WorktreeColumns, TuiJobKey::Repository(repository)) => {
                self.wt_polls_in_flight.remove(repository);
            },
            (TuiJobKind::WorktrunkHookLogs, TuiJobKey::WorktrunkHookLogs(repository)) => {
                self.hook_log_polls_in_flight.remove(repository);
            },
            (TuiJobKind::DefaultBranch, TuiJobKey::Worktree(key)) => {
                self.default_branch_polls_in_flight.remove(&key.repository);
            },
            (TuiJobKind::OpencodePoll, TuiJobKey::Opencode(key)) => {
                self.opencode_polls_in_flight.remove(key);
            },
            (TuiJobKind::OpencodeListener, TuiJobKey::OpencodeListener(stream)) => {
                self.opencode_listeners.remove(stream);
            },
            _ => {},
        }
    }

    fn queue_request(&mut self, navigation: &Navigation, index: usize, state: Option<AgentState>)
        ensures
            final(self)@ == (if is_known(navigation@, index) {
                old(self)@.with_request(navigation@, index as int, state)
            } else {
                old(self)@
            }),
    {
        if index >= navigation.sessions.len() {
            return;
        }
        let session: &Session = &navigation.sessions[index];
        if session.repo_index >= navigation.repos.len() {
            return;
        }
        let root: &str = navigation.repos[session.repo_index].repo.root.as_str();
        let worktree: WorktreeSessionKey = identity_key(root, session);
        let generation: u64 = match self.worktree_generations.get(&worktree) {
            Some(generation) => *generation,
            None => 0,
        };
        let request = AgentStatePersistenceRequest {
            generation,
            root: crate::text::owned(root),
            worktree_session_id: session.worktree_session_id.clone(),
            branch: session.branch.clone(),
            state,
        };
        let ghost name = worktree@;
        self.agent_state_pending.insert(worktree, request);
        assert(self@.agent_state_pending =~= old(self)@.agent_state_pending.insert(name, request@));
    }

    /// Asks for the state of a session's agent to be stored.
    pub fn queue_agent_state_persistence(&mut self, navigation: &Navigation, index: usize)
        ensures
            final(self)@ == (if is_known(navigation@, index) {
                old(self)@.with_request(
                    navigation@,
                    index as int,
                    Some(navigation@.sessions[index as int].agent_state),
                )
            } else {
                old(self)@
            }),
    {
        if index >= navigation.sessions.len() {
            return;
        }
        let state: AgentState = navigation.sessions[index].agent_state;
        self.queue_request(navigation, index, Some(state));
    }

    /// Asks for the state of a session's agent to be taken out of the store.
    pub fn queue_agent_state_removal(&mut self, navigation: &Navigation, index: usize)
        ensures
            final(self)@ == (if is_known(navigation@, index) {
                old(self)@.with_request(navigation@, index as int, None)
            } else {
                old(self)@
            }),
    {
        self.queue_request(navigation, index, None);
    }
}

/// Whether a worktree is among the first `n` of a list.
pub open spec fn among(all: Seq<WorktreeView>, n: int, key: WorktreeView) -> bool {
    exists|k: int| 0 <= k < n && #[trigger] all[k] == key
}

/// The keys of a list of requests.
pub open spec fn request_keys(
    requests: Seq<(WorktreeSessionKey, AgentStatePersistenceRequest)>,
) -> Seq<WorktreeView> {
    Seq::new(requests.len(), |i: int| requests[i].0@)
}

impl TrackerView {
    /// The worktrees whose states can be stored now: those with a request for which none is
    /// being stored.
    pub open spec fn storable(self) -> Set<WorktreeView> {
        self.agent_state_pending.dom().difference(self.agent_state_in_flight)
    }

    /// What is under way once storing every state that can be stored has begun.
    pub open spec fn with_storing_begun(self) -> TrackerView {
        TrackerView {
            agent_state_pending: self.agent_state_pending.remove_keys(self.storable()),
            agent_state_in_flight: self.agent_state_in_flight.union(self.storable()),
            ..self
        }
    }

    /// What is under way without the requests to store states of worktrees that are gone.
    /// Requests to take a state out of the store stay.
    pub open spec fn with_live(self, live: Set<WorktreeView>) -> TrackerView {
        TrackerView {
            agent_state_pending: self.agent_state_pending.restrict(
                Set::new(
                    |worktree: WorktreeView|
                        live.contains(worktree) || self.agent_state_pending[worktree].state is None,
                ),
            ),
            ..self
        }
    }
}

impl JobTracker {
    /// Drops the requests to store states of worktrees that are gone.
    pub fn retain_agent_state_persistence_for(&mut self, live: &KeySet<WorktreeSessionKey>)
        ensures
            final(self)@ == old(self)@.with_live(live@),
    {
        let keys: Vec<WorktreeSessionKey> = self.agent_state_pending.keys();
        let ghost all = crate::table::key_views(keys@);
        let ghost before = self.agent_state_pending@;
        let mut i: usize = 0;
        while i < keys.len()
            invariant
                i <= keys.len(),
                all == crate::table::key_views(keys@),
                crate::table::lists::<WorktreeSessionKey>(all, before.dom()),
                self@ == (TrackerView {
                    agent_state_pending: self@.agent_state_pending,
                    ..old(self)@
                }),
                forall|key: WorktreeView| #[trigger]
                    self.agent_state_pending@.dom().contains(key) <==> before.dom().contains(key)
                        && !(!(live@.contains(key) || before[key].state is None) && exists|k: int|
                        0 <= k < i && #[trigger] all[k] == key),
                forall|key: WorktreeView| #[trigger]
                    self.agent_state_pending@.dom().contains(key)
                        ==> self.agent_state_pending@[key] == before[key],
            decreases keys.len() - i,
        {
            assert(all[i as int] == keys@[i as int]@);
            assert(all.contains(all[i as int]));
            proof {
                assert forall|k: int| 0 <= k < i implies #[trigger] all[k] != all[i as int] by {
                    WorktreeSessionKey::order_is_total(all[k], all[i as int]);
                }
            }
            let stays: bool = match self.agent_state_pending.get(&keys[i]) {
                Some(request) => live.contains(&keys[i]) || request.state.is_none(),
                None => true,
            };
            if !stays {
                let _ = self.agent_state_pending.remove(&keys[i]);
            }
            proof {
                assert forall|key: WorktreeView| #[trigger]
                    self.agent_state_pending@.dom().contains(key) <==> before.dom().contains(key)
                        && !(!(live@.contains(key) || before[key].state is None) && exists|k: int|
                        0 <= k < i + 1 && #[trigger] all[k] == key) by {
                    if key == all[i as int] {
                        assert(0 <= i < i + 1 && all[i as int] == key);
                    }
                    if exists|k: int| 0 <= k < i && #[trigger] all[k] == key {
                        let k = choose|k: int| 0 <= k < i && #[trigger] all[k] == key;
                        assert(0 <= k < i + 1 && all[k] == key);
                    }
                }
            }
            i += 1;
        }
        proof {
            assert forall|key: WorktreeView| #[trigger]
                self.agent_state_pending@.dom().contains(key) <==> before.dom().contains(key) && (
                live@.contains(key) || before[key].state is None) by {
                if before.dom().contains(key) {
                    assert(all.contains(key));
                }
            }
            assert(self@.agent_state_pending =~= old(self)@.with_live(live@).agent_state_pending);
        }
    }

    /// Begins to store every state that can be stored; gives back what is to be stored, in
    /// the order of the worktrees.
    pub fn start_agent_state_persistence_jobs(&mut self) -> (r: Vec<
        (WorktreeSessionKey, AgentStatePersistenceRequest),
    >)
        ensures
            final(self)@ == old(self)@.with_storing_begun(),
            crate::table::lists::<WorktreeSessionKey>(request_keys(r@), old(self)@.storable()),
            forall|i: int|
                0 <= i < r.len() ==> (#[trigger] r@[i]).1@
                    == old(self)@.agent_state_pending[r@[i].0@],
    {
        let mut out: Vec<(WorktreeSessionKey, AgentStatePersistenceRequest)> = Vec::new();
        let keys: Vec<WorktreeSessionKey> = self.agent_state_pending.keys();
        let ghost all = crate::table::key_views(keys@);
        let ghost was = self@;
        let ghost before = self.agent_state_pending@;
        let mut i: usize = 0;
        assert(request_keys(out@) =~= Seq::<WorktreeView>::empty());
        while i < keys.len()
            invariant
                i <= keys.len(),
                was == old(self)@,
                before == old(self).agent_state_pending@,
                was.agent_state_pending == before.map_values(
                    |request: AgentStatePersistenceRequest| request@,
                ),
                all == crate::table::key_views(keys@),
                crate::table::lists::<WorktreeSessionKey>(all, before.dom()),
                self@ == (TrackerView {
                    agent_state_pending: self@.agent_state_pending,
                    agent_state_in_flight: self@.agent_state_in_flight,
                    ..was
                }),
                crate::table::in_order::<WorktreeSessionKey>(request_keys(out@)),
                forall|key: WorktreeView| #[trigger]
                    request_keys(out@).contains(key) <==> was.storable().contains(key) && among(
                        all,
                        i as int,
                        key,
                    ),
                forall|k: int|
                    0 <= k < out.len() ==> (#[trigger] out@[k]).1@
                        == was.agent_state_pending[out@[k].0@],
                forall|key: WorktreeView| #[trigger]
                    self.agent_state_pending@.dom().contains(key) <==> before.dom().contains(key)
                        && !request_keys(out@).contains(key),
                forall|key: WorktreeView| #[trigger]
                    self.agent_state_pending@.dom().contains(key)
                        ==> self.agent_state_pending@[key] == before[key],
                forall|key: WorktreeView| #[trigger]
                    self.agent_state_in_flight@.contains(key) <==> was.agent_state_in_flight.contains(
                        key,
                    ) || request_keys(out@).contains(key),
            decreases keys.len() - i,
        {
            let ghost name = all[i as int];
            assert(name == keys@[i as int]@);
            assert(all.contains(name));
            let ghost listed = request_keys(out@);
            proof {
                assert forall|k: int| 0 <= k < i implies #[trigger] all[k] != name by {
                    WorktreeSessionKey::order_is_total(all[k], name);
                }
                assert(!listed.contains(name));
            }
            if !self.agent_state_in_flight.contains(&keys[i]) {
                match self.agent_state_pending.remove(&keys[i]) {
                    Some(request) => {
                        self.agent_state_in_flight.insert(keys[i].copy_key());
                        out.push((keys[i].copy_key(), request));
                        proof {
                            let now = request_keys(out@);
                            assert(now =~= listed.push(name));
                            assert forall|a: int, b: int| 0 <= a < b < now.len() implies
                                WorktreeSessionKey::before(#[trigger] now[a], #[trigger] now[b]) by {
                                assert(now[a] == listed[a]);
                                if b < listed.len() {
                                    assert(now[b] == listed[b]);
                                } else {
                                    assert(listed.contains(listed[a]));
                                    let k = choose|k: int|
                                        0 <= k < i && #[trigger] all[k] == listed[a];
                                    assert(WorktreeSessionKey::before(all[k], all[i as int]));
                                }
                            }
                            assert forall|key: WorktreeView| #[trigger]
                                now.contains(key) <==> listed.contains(key) || key == name by {
                                if listed.contains(key) {
                                    let k = choose|k: int|
                                        0 <= k < listed.len() && listed[k] == key;
                                    assert(now[k] == key);
                                }
                                assert(now[listed.len() as int] == name);
                                if now.contains(key) && key != name {
                                    let k = choose|k: int| 0 <= k < now.len() && now[k] == key;
                                    assert(listed[k] == key);
                                }
                            }
                        }
                    },
                    None => {},
                }
            }
            proof {
                assert forall|key: WorktreeView| #[trigger]
                    among(all, i + 1, key) <==> among(all, i as int, key) || key == name by {
                    if among(all, i as int, key) {
                        let k = choose|k: int| 0 <= k < i && #[trigger] all[k] == key;
                        assert(0 <= k < i + 1 && all[k] == key);
                    }
                    if key == name {
                        assert(0 <= i < i + 1 && all[i as int] == key);
                    }
                }
            }
            i += 1;
        }
        proof {
            assert forall|key: WorktreeView| #[trigger]
                request_keys(out@).contains(key) <==> was.storable().contains(key) by {
                if was.storable().contains(key) {
                    assert(all.contains(key));
                    let k = choose|k: int| 0 <= k < all.len() && all[k] == key;
                    assert(0 <= k < i && all[k] == key);
                }
            }
            let wanted = was.with_storing_begun();
            assert(self@.agent_state_pending =~= wanted.agent_state_pending);
            assert(self@.agent_state_in_flight =~= wanted.agent_state_in_flight);
        }
        out
    }
}

/// Results for an earlier generation of a worktree no longer count, whatever the work was.
pub proof fn law_results_of_old_generations_do_not_count(
    tracker: TrackerView,
    nav: NavView,
    job: MetadataView,
    worktree: WorktreeView,
)
    requires
        match job.key {
            JobKeyView::Worktree(key) => key == worktree,
            JobKeyView::Pr(key) => key.worktree == worktree,
            JobKeyView::Delete(key) => key.worktree == worktree,
            JobKeyView::Opencode(key) => key.worktree == worktree,
            JobKeyView::OpencodeListener(key) => key.worktree == worktree,
            _ => false,
        },
        tracker.worktree_generations.dom().contains(worktree),
        tracker.worktree_generations[worktree] != job.generation,
    ensures
        !tracker.counts(nav, job),
{
}

/// The end of a piece of work leaves the results of every other work as they counted
/// before, but for work that stores the state of an agent, which counts while it is under
/// way.
pub proof fn law_end_of_work_keeps_other_results(
    tracker: TrackerView,
    nav: NavView,
    ended: MetadataView,
    other: MetadataView,
)
    requires
        !(other.key is AgentStatePersistence) || other.key != ended.key,
    ensures
        tracker.cleared(ended).counts(nav, other) == tracker.counts(nav, other),
{
}

/// Taking notice of the end of a piece of work twice is the same as taking notice once.
pub proof fn law_end_of_work_counts_once(tracker: TrackerView, ended: MetadataView)
    ensures
        tracker.cleared(ended).cleared(ended) == tracker.cleared(ended),
{
    assert(tracker.cleared(ended).cleared(ended) =~= tracker.cleared(ended));
}

/// A worktree never has two states being stored at once: a state that comes in while one
/// is being stored waits, and the last one that came in is the one that is stored next.
pub proof fn law_one_state_is_stored_at_a_time(
    tracker: TrackerView,
    nav: NavView,
    index: usize,
    state: Option<AgentState>,
)
    requires
        is_known(nav, index),
    ensures
        ({
            let session = nav.sessions[index as int];
            let worktree = crate::keys::identity_view(
                nav.repos[session.repo_index as int].repo.root@,
                session,
            );
            let asked = tracker.with_request(nav, index as int, state);
            &&& asked.agent_state_pending[worktree].state == state
            &&& tracker.agent_state_in_flight.contains(worktree)
                ==> asked.with_storing_begun().agent_state_pending.dom().contains(worktree)
            &&& !tracker.agent_state_in_flight.contains(worktree)
                ==> asked.with_storing_begun().agent_state_in_flight.contains(worktree)
                && !asked.with_storing_begun().agent_state_pending.dom().contains(worktree)
        }),
{
}

} // verus!
