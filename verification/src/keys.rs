//! The names under which work on repositories and worktrees is known.
use vstd::prelude::*;

use crate::model::Session;
use crate::order::path_before;
use crate::table::Key;
use crate::text::is_same_path;

verus! {

/// A path, by which something is found. However it is spelled, it is the same path.
#[derive(Debug)]
pub struct PathKey {
    pub text: String,
}

impl View for PathKey {
    type V = Seq<char>;

    open spec fn view(&self) -> Seq<char> {
        crate::text::bare_path(self.text@)
    }
}

impl PathKey {
    /// The path with a spelling.
    pub fn new(text: &str) -> (r: Self)
        ensures
            r.text@ == text@,
    {
        PathKey { text: crate::text::owned(text) }
    }
}

impl Key for PathKey {
    open spec fn before(a: Seq<char>, b: Seq<char>) -> bool {
        crate::order::path_less(a, b)
    }

    proof fn order_is_total(a: Seq<char>, b: Seq<char>) {
        crate::order::law_path_order_is_total(a, b);
    }

    proof fn order_is_transitive(a: Seq<char>, b: Seq<char>, c: Seq<char>) {
        crate::order::law_path_order_is_transitive(a, b, c);
    }

    fn comes_before(&self, other: &Self) -> (r: bool) {
        path_before(self.text.as_str(), other.text.as_str())
    }

    fn same_key(&self, other: &Self) -> (r: bool) {
        is_same_path(self.text.as_str(), other.text.as_str())
    }

    fn copy_key(&self) -> (r: Self) {
        PathKey { text: self.text.clone() }
    }
}

/// A repository, known by its root.
#[derive(Debug)]
pub struct WorktreeRepositoryKey {
    pub root: String,
}

impl View for WorktreeRepositoryKey {
    type V = Seq<char>;

    open spec fn view(&self) -> Seq<char> {
        crate::text::bare_path(self.root@)
    }
}

impl WorktreeRepositoryKey {
    /// The repository with a root.
    pub fn new(root: String) -> (r: Self)
        ensures
            r.root == root,
    {
        WorktreeRepositoryKey { root }
    }
}

impl Key for WorktreeRepositoryKey {
    open spec fn before(a: Seq<char>, b: Seq<char>) -> bool {
        crate::order::path_less(a, b)
    }

    proof fn order_is_total(a: Seq<char>, b: Seq<char>) {
        crate::order::law_path_order_is_total(a, b);
    }

    proof fn order_is_transitive(a: Seq<char>, b: Seq<char>, c: Seq<char>) {
        crate::order::law_path_order_is_transitive(a, b, c);
    }

    fn comes_before(&self, other: &Self) -> (r: bool) {
        path_before(self.root.as_str(), other.root.as_str())
    }

    fn same_key(&self, other: &Self) -> (r: bool) {
        is_same_path(self.root.as_str(), other.root.as_str())
    }

    fn copy_key(&self) -> (r: Self) {
        WorktreeRepositoryKey { root: self.root.clone() }
    }
}

/// A worktree of a repository.
#[derive(Debug)]
pub struct WorktreeSessionKey {
    pub repository: WorktreeRepositoryKey,
    pub branch: String,
    pub path: String,
}

/// A worktree, as contracts speak of it: its paths are in their plainest spelling.
#[verifier::ext_equal]
pub struct WorktreeView {
    pub root: Seq<char>,
    pub branch: Seq<char>,
    pub path: Seq<char>,
}

impl View for WorktreeSessionKey {
    type V = WorktreeView;

    open spec fn view(&self) -> WorktreeView {
        WorktreeView {
            root: self.repository@,
            branch: self.branch@,
            path: crate::text::bare_path(self.path@),
        }
    }
}

impl Key for WorktreeSessionKey {
    open spec fn before(a: WorktreeView, b: WorktreeView) -> bool {
        ||| crate::order::path_less(a.root, b.root)
        ||| a.root == b.root && crate::order::text_less(a.branch, b.branch)
        ||| a.root == b.root && a.branch == b.branch && crate::order::path_less(a.path, b.path)
    }

    proof fn order_is_total(a: WorktreeView, b: WorktreeView) {
        crate::order::law_path_order_is_total(a.root, b.root);
        crate::order::law_text_order_is_total(a.branch, b.branch);
        crate::order::law_path_order_is_total(a.path, b.path);
    }

    proof fn order_is_transitive(a: WorktreeView, b: WorktreeView, c: WorktreeView) {
        if crate::order::path_less(a.root, b.root) && crate::order::path_less(b.root, c.root) {
            crate::order::law_path_order_is_transitive(a.root, b.root, c.root);
        }
        if crate::order::text_less(a.branch, b.branch) && crate::order::text_less(
            b.branch,
            c.branch,
        ) {
            crate::order::law_text_order_is_transitive(a.branch, b.branch, c.branch);
        }
        if crate::order::path_less(a.path, b.path) && crate::order::path_less(b.path, c.path) {
            crate::order::law_path_order_is_transitive(a.path, b.path, c.path);
        }
    }

    fn comes_before(&self, other: &Self) -> (r: bool) {
        if self.repository.comes_before(&other.repository) {
            return true;
        }
        if !self.repository.same_key(&other.repository) {
            return false;
        }
        if self.branch.comes_before(&other.branch) {
            return true;
        }
        self.branch.same_key(&other.branch) && path_before(self.path.as_str(), other.path.as_str())
    }

    fn same_key(&self, other: &Self) -> (r: bool) {
        self.repository.same_key(&other.repository) && self.branch.same_key(&other.branch)
            && is_same_path(self.path.as_str(), other.path.as_str())
    }

    fn copy_key(&self) -> (r: Self) {
        WorktreeSessionKey {
            repository: self.repository.copy_key(),
            branch: self.branch.clone(),
            path: self.path.clone(),
        }
    }
}

/// The worktree that a session of a repository belongs to.
pub open spec fn identity_view(root: Seq<char>, session: Session) -> WorktreeView {
    WorktreeView {
        root: crate::text::bare_path(root),
        branch: session.branch@,
        path: crate::text::bare_path(session.path@),
    }
}

/// The worktree that a session of a repository belongs to.
pub fn identity_key(root: &str, session: &Session) -> (r: WorktreeSessionKey)
    ensures
        r@ == identity_view(root@, *session),
{
    WorktreeSessionKey {
        repository: WorktreeRepositoryKey { root: crate::text::owned(root) },
        branch: session.branch.clone(),
        path: session.path.clone(),
    }
}

/// One generation of a worktree: work for another generation is out of date.
#[derive(Debug)]
pub struct WorktreeGeneration {
    pub worktree: WorktreeSessionKey,
    pub generation: u64,
}

/// The generation that a change request is polled for.
pub type PrPollKey = WorktreeGeneration;

/// The generation that a deletion is for.
pub type DeleteSessionKey = WorktreeGeneration;

/// The generation that the state of OpenCode is polled for.
pub type OpencodePollKey = WorktreeGeneration;

/// The generation of the tmux session that is prepared or shown.
pub type AgentSessionWarmupKey = WorktreeGeneration;

/// A generation of a worktree, as contracts speak of it.
#[verifier::ext_equal]
pub struct GenerationView {
    pub worktree: WorktreeView,
    pub generation: u64,
}

impl View for WorktreeGeneration {
    type V = GenerationView;

    open spec fn view(&self) -> GenerationView {
        GenerationView { worktree: self.worktree@, generation: self.generation }
    }
}

impl WorktreeGeneration {
    /// The generation of the worktree that a session belongs to.
    pub fn for_repository_session_generation(
        repository: &WorktreeRepositoryKey,
        session: &Session,
        generation: u64,
    ) -> (r: Self)
        ensures
            r@.worktree == identity_view(repository.root@, *session),
            r@.generation == generation,
    {
        WorktreeGeneration { worktree: identity_key(repository.root.as_str(), session), generation }
    }
}

impl Key for WorktreeGeneration {
    open spec fn before(a: GenerationView, b: GenerationView) -> bool {
        crate::table::pair_before::<WorktreeSessionKey, u64>(
            a.worktree,
            a.generation,
            b.worktree,
            b.generation,
        )
    }

    proof fn order_is_total(a: GenerationView, b: GenerationView) {
        crate::table::lemma_pair_order_is_total::<WorktreeSessionKey, u64>(
            a.worktree,
            a.generation,
            b.worktree,
            b.generation,
        );
    }

    proof fn order_is_transitive(a: GenerationView, b: GenerationView, c: GenerationView) {
        crate::table::lemma_pair_order_is_transitive::<WorktreeSessionKey, u64>(
            a.worktree,
            a.generation,
            b.worktree,
            b.generation,
            c.worktree,
            c.generation,
        );
    }

    fn comes_before(&self, other: &Self) -> (r: bool) {
        self.worktree.comes_before(&other.worktree) || (self.worktree.same_key(&other.worktree)
            && self.generation < other.generation)
    }

    fn same_key(&self, other: &Self) -> (r: bool) {
        self.worktree.same_key(&other.worktree) && self.generation == other.generation
    }

    fn copy_key(&self) -> (r: Self) {
        WorktreeGeneration { worktree: self.worktree.copy_key(), generation: self.generation }
    }
}

/// A stream of events of an OpenCode session.
#[derive(Debug)]
pub struct OpencodeListenerKey {
    pub worktree: WorktreeSessionKey,
    pub generation: u64,
    pub session_id: String,
    pub server_url: String,
}

/// A stream of events, as contracts speak of it.
#[verifier::ext_equal]
pub struct ListenerView {
    pub worktree: WorktreeView,
    pub generation: u64,
    pub session_id: Seq<char>,
    pub server_url: Seq<char>,
}

impl View for OpencodeListenerKey {
    type V = ListenerView;

    open spec fn view(&self) -> ListenerView {
        ListenerView {
            worktree: self.worktree@,
            generation: self.generation,
            session_id: self.session_id@,
            server_url: self.server_url@,
        }
    }
}

impl Key for OpencodeListenerKey {
    open spec fn before(a: ListenerView, b: ListenerView) -> bool {
        ||| WorktreeSessionKey::before(a.worktree, b.worktree)
        ||| a.worktree == b.worktree && a.generation < b.generation
        ||| a.worktree == b.worktree && a.generation == b.generation
            && crate::table::pair_before::<String, String>(
            a.session_id,
            a.server_url,
            b.session_id,
            b.server_url,
        )
    }

    proof fn order_is_total(a: ListenerView, b: ListenerView) {
        WorktreeSessionKey::order_is_total(a.worktree, b.worktree);
        crate::table::lemma_pair_order_is_total::<String, String>(
            a.session_id,
            a.server_url,
            b.session_id,
            b.server_url,
        );
    }

    proof fn order_is_transitive(a: ListenerView, b: ListenerView, c: ListenerView) {
        if WorktreeSessionKey::before(a.worktree, b.worktree) && WorktreeSessionKey::before(
            b.worktree,
            c.worktree,
        ) {
            WorktreeSessionKey::order_is_transitive(a.worktree, b.worktree, c.worktree);
        }
        if a.worktree == b.worktree && b.worktree == c.worktree && a.generation == b.generation
            && b.generation == c.generation {
            WorktreeSessionKey::order_is_total(a.worktree, b.worktree);
            crate::table::lemma_pair_order_is_transitive::<String, String>(
                a.session_id,
                a.server_url,
                b.session_id,
                b.server_url,
                c.session_id,
                c.server_url,
            );
        }
        WorktreeSessionKey::order_is_total(a.worktree, b.worktree);
        WorktreeSessionKey::order_is_total(b.worktree, c.worktree);
    }

    fn comes_before(&self, other: &Self) -> (r: bool) {
        if self.worktree.comes_before(&other.worktree) {
            return true;
        }
        if !self.worktree.same_key(&other.worktree) {
            return false;
        }
        if self.generation != other.generation {
            return self.generation < other.generation;
        }
        self.session_id.comes_before(&other.session_id) || (self.session_id.same_key(
            &other.session_id,
        ) && self.server_url.comes_before(&other.server_url))
    }

    fn same_key(&self, other: &Self) -> (r: bool) {
        self.worktree.same_key(&other.worktree) && self.generation == other.generation
            && self.session_id.same_key(&other.session_id) && self.server_url.same_key(
            &other.server_url,
        )
    }

    fn copy_key(&self) -> (r: Self) {
        OpencodeListenerKey {
            worktree: self.worktree.copy_key(),
            generation: self.generation,
            session_id: self.session_id.clone(),
            server_url: self.server_url.clone(),
        }
    }
}

/// The output of a step of a run, as the dashboard shows it.
#[derive(Debug)]
pub enum DashboardOutputKey {
    Plan { repository: WorktreeRepositoryKey, run_id: String, step: usize },
    Auto { repository: WorktreeRepositoryKey, step_run_id: i64 },
}

/// The output of a step, as contracts speak of it.
#[verifier::ext_equal]
pub enum OutputView {
    Plan { root: Seq<char>, run_id: Seq<char>, step: usize },
    Auto { root: Seq<char>, step_run_id: i64 },
}

impl View for DashboardOutputKey {
    type V = OutputView;

    open spec fn view(&self) -> OutputView {
        match self {
            DashboardOutputKey::Plan { repository, run_id, step } => OutputView::Plan {
                root: repository@,
                run_id: run_id@,
                step: *step,
            },
            DashboardOutputKey::Auto { repository, step_run_id } => OutputView::Auto {
                root: repository@,
                step_run_id: *step_run_id,
            },
        }
    }
}

impl Key for DashboardOutputKey {
    open spec fn before(a: OutputView, b: OutputView) -> bool {
        match (a, b) {
            (
                OutputView::Plan { root: r1, run_id: i1, step: s1 },
                OutputView::Plan { root: r2, run_id: i2, step: s2 },
            ) => {
                ||| crate::order::path_less(r1, r2)
                ||| r1 == r2 && crate::order::text_less(i1, i2)
                ||| r1 == r2 && i1 == i2 && s1 < s2
            },
            (OutputView::Plan { .. }, OutputView::Auto { .. }) => true,
            (OutputView::Auto { .. }, OutputView::Plan { .. }) => false,
            (
                OutputView::Auto { root: r1, step_run_id: s1 },
                OutputView::Auto { root: r2, step_run_id: s2 },
            ) => {
                ||| crate::order::path_less(r1, r2)
                ||| r1 == r2 && s1 < s2
            },
        }
    }

    proof fn order_is_total(a: OutputView, b: OutputView) {
        match (a, b) {
            (
                OutputView::Plan { root: r1, run_id: i1, step: s1 },
                OutputView::Plan { root: r2, run_id: i2, step: s2 },
            ) => {
                crate::order::law_path_order_is_total(r1, r2);
                crate::order::law_text_order_is_total(i1, i2);
            },
            (
                OutputView::Auto { root: r1, step_run_id: s1 },
                OutputView::Auto { root: r2, step_run_id: s2 },
            ) => {
                crate::order::law_path_order_is_total(r1, r2);
            },
            _ => {},
        }
    }

    proof fn order_is_transitive(a: OutputView, b: OutputView, c: OutputView) {
        match (a, b, c) {
            (
                OutputView::Plan { root: r1, run_id: i1, step: s1 },
                OutputView::Plan { root: r2, run_id: i2, step: s2 },
                OutputView::Plan { root: r3, run_id: i3, step: s3 },
            ) => {
                if crate::order::path_less(r1, r2) && crate::order::path_less(r2, r3) {
                    crate::order::law_path_order_is_transitive(r1, r2, r3);
                }
                if crate::order::text_less(i1, i2) && crate::order::text_less(i2, i3) {
                    crate::order::law_text_order_is_transitive(i1, i2, i3);
                }
            },
            (
                OutputView::Auto { root: r1, step_run_id: s1 },
                OutputView::Auto { root: r2, step_run_id: s2 },
                OutputView::Auto { root: r3, step_run_id: s3 },
            ) => {
                if crate::order::path_less(r1, r2) && crate::order::path_less(r2, r3) {
                    crate::order::law_path_order_is_transitive(r1, r2, r3);
                }
            },
            _ => {},
        }
    }

    fn comes_before(&self, other: &Self) -> (r: bool) {
        match (self, other) {
            (
                DashboardOutputKey::Plan { repository: r1, run_id: i1, step: s1 },
                DashboardOutputKey::Plan { repository: r2, run_id: i2, step: s2 },
            ) => {
                r1.comes_before(r2) || (r1.same_key(r2) && (i1.comes_before(i2) || (i1.same_key(i2)
                    && *s1 < *s2)))
            },
            (DashboardOutputKey::Plan { .. }, DashboardOutputKey::Auto { .. }) => true,
            (DashboardOutputKey::Auto { .. }, DashboardOutputKey::Plan { .. }) => false,
            (
                DashboardOutputKey::Auto { repository: r1, step_run_id: s1 },
                DashboardOutputKey::Auto { repository: r2, step_run_id: s2 },
            ) => { r1.comes_before(r2) || (r1.same_key(r2) && *s1 < *s2) },
        }
    }

    fn same_key(&self, other: &Self) -> (r: bool) {
        match (self, other) {
            (
                DashboardOutputKey::Plan { repository: r1, run_id: i1, step: s1 },
                DashboardOutputKey::Plan { repository: r2, run_id: i2, step: s2 },
            ) => r1.same_key(r2) && i1.same_key(i2) && *s1 == *s2,
            (
                DashboardOutputKey::Auto { repository: r1, step_run_id: s1 },
                DashboardOutputKey::Auto { repository: r2, step_run_id: s2 },
            ) => r1.same_key(r2) && *s1 == *s2,
            _ => false,
        }
    }

    fn copy_key(&self) -> (r: Self) {
        match self {
            DashboardOutputKey::Plan { repository, run_id, step } => DashboardOutputKey::Plan {
                repository: repository.copy_key(),
                run_id: run_id.clone(),
                step: *step,
            },
            DashboardOutputKey::Auto { repository, step_run_id } => DashboardOutputKey::Auto {
                repository: repository.copy_key(),
                step_run_id: *step_run_id,
            },
        }
    }
}

} // verus!
