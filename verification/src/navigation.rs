//! Moving about the dashboard: panels, lists, selections and filters.
use vstd::prelude::*;

use crate::keys::PathKey;
use crate::model::ManagedRepo;
use crate::model::PrSummary;
use crate::model::Session;
use crate::order::less;
use crate::table::Table;
use crate::text::contains;
use crate::text::file_name;
use crate::text::is_same_path;
use crate::text::opt_text;
use crate::text::same;
use crate::text::to_lower;
use crate::text::trim;

verus! {

/// The panels of the sidebar.
#[derive(Clone, Copy, Debug, PartialEq, Eq, Structural)]
pub enum PanelFocus {
    Status,
    Repos,
    Worktrees,
    Merges,
}

/// Whether the worktree list shows one repository or all of them.
#[derive(Clone, Copy, Debug, PartialEq, Eq, Structural)]
pub enum WorktreeListMode {
    Repo,
    Global,
}

/// What the main panel shows of a repository.
#[derive(Clone, Copy, Debug, PartialEq, Eq, Structural)]
pub enum RepoMainView {
    ChangeRequests,
    Kanban,
}

/// What the main panel shows of a worktree.
#[derive(Clone, Copy, Debug, PartialEq, Eq, Structural)]
pub enum WorktreeMainView {
    Details,
    Plan,
}

/// A move to a neighbour in a list.
#[derive(Clone, Copy, Debug, PartialEq, Eq, Structural)]
pub enum Step {
    Next,
    Previous,
}

// ---------------------------------------------------------------------------
// The model
// ---------------------------------------------------------------------------

/// The texts of a map's values.
pub open spec fn value_texts(m: Map<Seq<char>, String>) -> Map<Seq<char>, Seq<char>> {
    Map::new(|k: Seq<char>| m.dom().contains(k), |k: Seq<char>| m[k]@)
}

/// A filter as it is compared: in lower case, without white space around it.
pub open spec fn needle_of(filter: Seq<char>) -> Seq<char> {
    crate::text::lower(crate::text::trimmed(filter))
}

/// Whether a text holds a needle, whatever the case of its letters.
pub open spec fn mentions(text: Seq<char>, needle: Seq<char>) -> bool {
    crate::text::has_text(crate::text::lower(text), needle)
}

/// Whether a worktree fits a filter.
pub open spec fn fits(session: Session, needle: Seq<char>) -> bool {
    ||| needle.len() == 0
    ||| mentions(session.branch@, needle)
    ||| mentions(session.repo_label@, needle)
    ||| mentions(session.prompt_summary@, needle)
    ||| mentions(session.path_display@, needle)
    ||| exists|i: int|
        0 <= i < session.wt_columns@.len() && mentions(
            (#[trigger] session.wt_columns@[i]).value@,
            needle,
        )
}

/// Whether a worktree's change request is being merged or is merged.
pub open spec fn is_finishing(session: Session) -> bool {
    match session.pr.summary {
        Some(summary) => summary.finishing,
        None => false,
    }
}

/// Where a worktree stands in the list.
#[verifier::ext_equal]
pub struct SortKey {
    pub rank: u8,
    pub label: Seq<char>,
    pub name: Seq<char>,
}

/// The group of a worktree: raised ones first, lowered ones last.
pub open spec fn priority_rank(visibility: i16) -> u8 {
    if visibility > 0 {
        0
    } else if visibility == 0 {
        1
    } else {
        2
    }
}

/// The name by which a worktree is sorted: that of its directory, or its branch
/// where the directory has no name to show.
pub open spec fn sort_name(session: Session) -> Seq<char> {
    match crate::text::file_name_of(session.path@) {
        Some(name) => if crate::text::trimmed(name).len() > 0 {
            crate::text::lower(name)
        } else {
            crate::text::lower(session.branch@)
        },
        None => crate::text::lower(session.branch@),
    }
}

/// Where a worktree stands in the list.
pub open spec fn sort_key(session: Session) -> SortKey {
    SortKey {
        rank: priority_rank(session.visibility),
        label: session.repo_label@,
        name: sort_name(session),
    }
}

/// Whether a place in the list comes before another.
pub open spec fn key_less(a: SortKey, b: SortKey) -> bool {
    if a.rank != b.rank {
        a.rank < b.rank
    } else if a.label != b.label {
        crate::order::text_less(a.label, b.label)
    } else {
        crate::order::text_less(a.name, b.name)
    }
}

/// A list with one more worktree, put behind all that do not come after it.
pub open spec fn placed(sessions: Seq<Session>, list: Seq<usize>, index: usize) -> Seq<usize>
    decreases list.len(),
{
    if list.len() == 0 || !key_less(
        sort_key(sessions[index as int]),
        sort_key(sessions[list.last() as int]),
    ) {
        list.push(index)
    } else {
        placed(sessions, list.drop_last(), index).push(list.last())
    }
}

/// Whether the selection can move to a change request: it is neither merged nor closed, and
/// an identity tells it apart.
pub open spec fn is_listed_request(summary: PrSummary) -> bool {
    let state = crate::text::lower(crate::text::trimmed(summary.state@));
    &&& !summary.merged
    &&& state != "closed"@
    &&& state != "merged"@
    &&& summary.identity is Some
}

/// The positions of the change requests among the first `n` that the selection can move to.
pub open spec fn listed_requests(summaries: Seq<PrSummary>, n: nat) -> Seq<usize>
    decreases n,
{
    if n == 0 {
        Seq::empty()
    } else {
        let before = listed_requests(summaries, (n - 1) as nat);
        if is_listed_request(summaries[n - 1]) {
            before.push((n - 1) as usize)
        } else {
            before
        }
    }
}

/// The positions of the open change requests among the first `n`.
pub open spec fn open_requests(summaries: Seq<PrSummary>, n: nat) -> Seq<usize>
    decreases n,
{
    if n == 0 {
        Seq::empty()
    } else {
        let before = open_requests(summaries, (n - 1) as nat);
        if crate::git_actions::is_open(summaries[n - 1]) {
            before.push((n - 1) as usize)
        } else {
            before
        }
    }
}

/// The first of the listed change requests with a number.
pub open spec fn request_numbered(
    summaries: Seq<PrSummary>,
    list: Seq<usize>,
    number: u64,
) -> Option<usize>
    decreases list.len(),
{
    if list.len() == 0 {
        None
    } else {
        match request_numbered(summaries, list.drop_last(), number) {
            Some(found) => Some(found),
            None => if summaries[list.last() as int].number == number {
                Some(list.last())
            } else {
                None
            },
        }
    }
}

/// The first position in a list of requests whose identity is the given one.
pub open spec fn request_with(
    summaries: Seq<PrSummary>,
    list: Seq<usize>,
    identity: Seq<char>,
) -> Option<usize>
    decreases list.len(),
{
    if list.len() == 0 {
        None
    } else {
        match request_with(summaries, list.drop_last(), identity) {
            Some(found) => Some(found),
            None => if opt_text(summaries[list.last() as int].identity) == Some(identity) {
                Some((list.len() - 1) as usize)
            } else {
                None
            },
        }
    }
}

/// The first position of a value in a list.
pub open spec fn position_of(list: Seq<usize>, value: usize) -> Option<usize>
    decreases list.len(),
{
    if list.len() == 0 {
        None
    } else {
        match position_of(list.drop_last(), value) {
            Some(found) => Some(found),
            None => if list.last() == value {
                Some((list.len() - 1) as usize)
            } else {
                None
            },
        }
    }
}

/// The position next to another, where there is one in a list of a length.
pub open spec fn neighbour(position: usize, step: Step, len: nat) -> Option<usize> {
    match step {
        Step::Next => if position + 1 < len {
            Some((position + 1) as usize)
        } else {
            None
        },
        Step::Previous => if 1 <= position <= len {
            Some((position - 1) as usize)
        } else {
            None
        },
    }
}

/// The neighbour of a value in a list. A value that is not in the list counts as
/// its first.
pub open spec fn next_to(list: Seq<usize>, value: usize, step: Step) -> Option<usize> {
    let at = match position_of(list, value) {
        Some(found) => found,
        None => 0,
    };
    match neighbour(at, step, list.len()) {
        Some(next) => Some(list[next as int]),
        None => None,
    }
}

/// The first worktree of a list at a path.
pub open spec fn listed_at_path(
    sessions: Seq<Session>,
    list: Seq<usize>,
    path: Seq<char>,
) -> Option<usize>
    decreases list.len(),
{
    if list.len() == 0 {
        None
    } else {
        match listed_at_path(sessions, list.drop_last(), path) {
            Some(found) => Some(found),
            None => if crate::text::same_path(sessions[list.last() as int].path@, path) {
                Some(list.last())
            } else {
                None
            },
        }
    }
}

/// The first worktree of a list that belongs to a repository.
pub open spec fn listed_of_repo(
    sessions: Seq<Session>,
    list: Seq<usize>,
    repo_index: usize,
) -> Option<usize>
    decreases list.len(),
{
    if list.len() == 0 {
        None
    } else {
        match listed_of_repo(sessions, list.drop_last(), repo_index) {
            Some(found) => Some(found),
            None => if sessions[list.last() as int].repo_index == repo_index {
                Some(list.last())
            } else {
                None
            },
        }
    }
}

/// The first repository with a root, given in its plainest spelling, among the first `n`.
pub open spec fn repo_at_root(repos: Seq<ManagedRepo>, n: nat, root: Seq<char>) -> Option<usize>
    decreases n,
{
    if n == 0 {
        None
    } else {
        match repo_at_root(repos, (n - 1) as nat, root) {
            Some(found) => Some(found),
            None => if crate::text::bare_path(repos[n - 1].repo.root@) == root {
                Some((n - 1) as usize)
            } else {
                None
            },
        }
    }
}

/// The first worktree at a path among the first `n`.
pub open spec fn session_at_path(sessions: Seq<Session>, n: nat, path: Seq<char>) -> Option<usize>
    decreases n,
{
    if n == 0 {
        None
    } else {
        match session_at_path(sessions, (n - 1) as nat, path) {
            Some(found) => Some(found),
            None => if crate::text::same_path(sessions[n - 1].path@, path) {
                Some((n - 1) as usize)
            } else {
                None
            },
        }
    }
}

/// The first repository bound to a key among the first `n`.
pub open spec fn repo_with_key(repos: Seq<ManagedRepo>, n: nat, key: char) -> Option<usize>
    decreases n,
{
    if n == 0 {
        None
    } else {
        match repo_with_key(repos, (n - 1) as nat, key) {
            Some(found) => Some(found),
            None => if repos[n - 1].key == Some(key) {
                Some((n - 1) as usize)
            } else {
                None
            },
        }
    }
}

/// The first worktree of a repository on a branch among the first `n`.
pub open spec fn session_on_branch(
    sessions: Seq<Session>,
    n: nat,
    repo_index: usize,
    branch: Seq<char>,
) -> Option<usize>
    decreases n,
{
    if n == 0 {
        None
    } else {
        match session_on_branch(sessions, (n - 1) as nat, repo_index, branch) {
            Some(found) => Some(found),
            None => if sessions[n - 1].repo_index == repo_index && sessions[n - 1].branch@
                == branch {
                Some((n - 1) as usize)
            } else {
                None
            },
        }
    }
}

/// The state of the navigation, as contracts speak of it.
#[verifier::ext_equal]
pub struct NavView {
    pub repos: Seq<ManagedRepo>,
    pub sessions: Seq<Session>,
    pub current_repo: usize,
    pub selected: usize,
    pub selected_repo_root: Option<Seq<char>>,
    pub focused_panel: PanelFocus,
    pub main_focused: bool,
    pub main_scroll: usize,
    pub repo_main_view: RepoMainView,
    pub worktree_list_mode: WorktreeListMode,
    pub selected_comment: usize,
    pub worktree_by_repo: Map<Seq<char>, Seq<char>>,
    pub pr_by_repo: Map<Seq<char>, Seq<char>>,
    pub repo_filter: Seq<char>,
    pub worktree_filter: Seq<char>,
}

impl NavView {
    /// Whether a repository is in the list.
    pub open spec fn shows_repo(self, i: int) -> bool {
        let needle = needle_of(self.repo_filter);
        ||| needle.len() == 0
        ||| mentions(self.repos[i].label@, needle)
        ||| mentions(self.repos[i].repo.root@, needle)
        ||| self.repos[i].key matches Some(key) && seq![key] == needle
    }

    /// The listed repositories among the first `n`.
    pub open spec fn repo_list_upto(self, n: nat) -> Seq<usize>
        decreases n,
    {
        if n == 0 {
            Seq::empty()
        } else {
            let before = self.repo_list_upto((n - 1) as nat);
            if self.shows_repo(n - 1) {
                before.push((n - 1) as usize)
            } else {
                before
            }
        }
    }

    /// The list of repositories.
    pub open spec fn repo_list(self) -> Seq<usize> {
        self.repo_list_upto(self.repos.len())
    }

    /// Whether a branch is the default one of the repository at a position.
    pub open spec fn is_default_of(self, repo_index: usize, branch: Seq<char>) -> bool {
        repo_index < self.repos.len() && self.repos[repo_index as int].config.default_branch@
            == branch
    }

    /// Whether a worktree is in the list of those that are being merged, or in the
    /// list of the others.
    pub open spec fn shows_session(self, finishing: bool, i: int) -> bool {
        let session = self.sessions[i];
        &&& !session.hidden
        &&& is_finishing(session) == finishing
        &&& (self.worktree_list_mode == WorktreeListMode::Global || session.repo_index
            == self.current_repo)
        &&& !self.is_default_of(session.repo_index, session.branch@)
        &&& fits(session, needle_of(self.worktree_filter))
    }

    /// The listed worktrees among the first `n`.
    pub open spec fn session_list_upto(self, finishing: bool, n: nat) -> Seq<usize>
        decreases n,
    {
        if n == 0 {
            Seq::empty()
        } else {
            let before = self.session_list_upto(finishing, (n - 1) as nat);
            if self.shows_session(finishing, n - 1) {
                placed(self.sessions, before, (n - 1) as usize)
            } else {
                before
            }
        }
    }

    /// The list of worktrees, or of those that are being merged.
    pub open spec fn session_list_for(self, finishing: bool) -> Seq<usize> {
        self.session_list_upto(finishing, self.sessions.len())
    }

    /// The list of worktrees of the focused panel.
    pub open spec fn session_list(self) -> Seq<usize> {
        self.session_list_for(self.focused_panel == PanelFocus::Merges)
    }

    /// The selected worktree, where it is in the list.
    pub open spec fn selected_session(self) -> Option<usize> {
        if self.session_list().contains(self.selected) {
            Some(self.selected)
        } else {
            None
        }
    }

    /// Whether the focused panel lists worktrees.
    pub open spec fn in_session_panel(self) -> bool {
        self.focused_panel == PanelFocus::Worktrees || self.focused_panel == PanelFocus::Merges
    }

    /// The root of the current repository.
    pub open spec fn current_root(self) -> Option<Seq<char>> {
        if self.current_repo < self.repos.len() {
            Some(self.repos[self.current_repo as int].repo.root@)
        } else {
            None
        }
    }

    /// The root of the current repository in its plainest spelling.
    pub open spec fn current_place(self) -> Option<Seq<char>> {
        match self.current_root() {
            Some(root) => Some(crate::text::bare_path(root)),
            None => None,
        }
    }

    /// The change requests of the current repository that the selection can move to.
    pub open spec fn current_requests(self) -> Seq<usize> {
        if self.current_repo < self.repos.len() {
            let summaries = self.repos[self.current_repo as int].pr_summaries@;
            listed_requests(summaries, summaries.len())
        } else {
            Seq::empty()
        }
    }

    /// The change request selected in the current repository, by its identity.
    pub open spec fn selected_identity(self) -> Option<Seq<char>> {
        match self.current_place() {
            Some(root) => if self.pr_by_repo.dom().contains(root) {
                Some(self.pr_by_repo[root])
            } else {
                None
            },
            None => None,
        }
    }

    /// Where the selected change request stands among those that can be selected.
    pub open spec fn selected_request(self) -> Option<usize> {
        match self.selected_identity() {
            Some(identity) => request_with(
                self.repos[self.current_repo as int].pr_summaries@,
                self.current_requests(),
                identity,
            ),
            None => None,
        }
    }

    /// The position of the change request that the main panel acts on: the selected
    /// one, or else the first.
    pub open spec fn shown_request(self) -> Option<usize> {
        let list = self.current_requests();
        match self.selected_request() {
            Some(at) => Some(list[at as int]),
            None => if list.len() > 0 {
                Some(list[0])
            } else {
                None
            },
        }
    }

    /// The open change requests of the current repository, whether they have an identity or
    /// not.
    pub open spec fn current_open_requests(self) -> Seq<usize> {
        if self.current_repo < self.repos.len() {
            let summaries = self.repos[self.current_repo as int].pr_summaries@;
            open_requests(summaries, summaries.len())
        } else {
            Seq::empty()
        }
    }

    /// The number of the selected change request.
    pub open spec fn selected_number(self) -> Option<u64> {
        match self.selected_request() {
            Some(at) => Some(
                self.repos[self.current_repo as int].pr_summaries@[self.current_requests()[at as int] as int].number,
            ),
            None => None,
        }
    }

    /// The position of the open change request that a review is for: the one with the selected
    /// number, or else the first.
    pub open spec fn request_to_review(self) -> Option<usize> {
        let list = self.current_open_requests();
        let chosen = match self.selected_number() {
            Some(number) => request_numbered(
                self.repos[self.current_repo as int].pr_summaries@,
                list,
                number,
            ),
            None => None,
        };
        match chosen {
            Some(position) => Some(position),
            None => if list.len() > 0 {
                Some(list[0])
            } else {
                None
            },
        }
    }

    /// With a change request selected where there is one to select.
    pub open spec fn with_request(self) -> NavView {
        match self.current_place() {
            Some(root) => {
                let summaries = self.repos[self.current_repo as int].pr_summaries@;
                let list = self.current_requests();
                if list.len() == 0 {
                    NavView { pr_by_repo: self.pr_by_repo.remove(root), ..self }
                } else if self.selected_request() is Some {
                    self
                } else {
                    NavView {
                        pr_by_repo: self.pr_by_repo.insert(
                            root,
                            opt_text(summaries[list[0] as int].identity)->0,
                        ),
                        ..self
                    }
                }
            },
            None => self,
        }
    }

    /// With a repository selected.
    pub open spec fn with_repo(self, repo_index: usize) -> NavView {
        let last = if self.repos.len() == 0 {
            0
        } else {
            self.repos.len() - 1
        };
        let moved = NavView {
            main_scroll: 0,
            current_repo: if repo_index <= last {
                repo_index
            } else {
                last as usize
            },
            ..self
        };
        NavView { selected_repo_root: moved.current_root(), ..moved }.with_request()
    }

    /// With a worktree selected and marked as seen.
    pub open spec fn with_session(self, index: usize) -> NavView {
        let scrolled = NavView { main_scroll: 0, ..self };
        if index >= self.sessions.len() {
            scrolled
        } else {
            let session = self.sessions[index as int];
            let marked = NavView {
                selected: index,
                selected_comment: 0,
                sessions: self.sessions.update(
                    index as int,
                    Session { unseen_comments: false, ..session },
                ),
                ..scrolled
            };
            if session.repo_index < self.repos.len() {
                let root = self.repos[session.repo_index as int].repo.root@;
                NavView {
                    current_repo: session.repo_index,
                    selected_repo_root: Some(root),
                    worktree_by_repo: self.worktree_by_repo.insert(
                        crate::text::bare_path(root),
                        session.path@,
                    ),
                    ..marked
                }
            } else {
                marked
            }
        }
    }

    /// The worktree remembered for the current repository, by its path.
    pub open spec fn remembered(self) -> Option<Seq<char>> {
        match self.current_place() {
            Some(root) => if self.worktree_by_repo.dom().contains(root) {
                Some(self.worktree_by_repo[root])
            } else {
                None
            },
            None => None,
        }
    }

    /// The worktree to select when a list comes up: the remembered one, or else the
    /// first of the current repository, or else the first; behind the last where
    /// the list is empty.
    pub open spec fn session_to_select(self) -> usize {
        let list = self.session_list();
        let known = match self.remembered() {
            Some(path) => listed_at_path(self.sessions, list, path),
            None => None,
        };
        match known {
            Some(index) => index,
            None => match listed_of_repo(self.sessions, list, self.current_repo) {
                Some(index) => index,
                None => if list.len() > 0 {
                    list[0]
                } else {
                    self.sessions.len() as usize
                },
            },
        }
    }

    /// With the selection restored.
    pub open spec fn with_selection_restored(self) -> NavView {
        NavView { selected: self.session_to_select(), selected_comment: 0, ..self }
    }

    /// With a panel focused.
    pub open spec fn with_panel(self, panel: PanelFocus) -> NavView {
        NavView { main_scroll: 0, focused_panel: panel, main_focused: false, ..self }
    }

    /// With a panel of worktrees focused and its selection restored.
    pub open spec fn with_session_panel(self, panel: PanelFocus) -> NavView {
        self.with_panel(panel).with_selection_restored()
    }

    /// The comments of the selected worktree's change request.
    pub open spec fn comment_count(self) -> nat {
        match self.selected_session() {
            Some(index) => match self.sessions[index as int].pr.details {
                Some(details) => details.comment_rows@.len(),
                None => 0,
            },
            None => 0,
        }
    }
}

/// A snapshot of the navigation, as contracts speak of it.
#[verifier::ext_equal]
pub struct SnapView {
    pub focused_panel: PanelFocus,
    pub main_focused: bool,
    pub main_scroll: usize,
    pub current_repo_root: Option<Seq<char>>,
    pub selected_worktree_path: Option<Seq<char>>,
    pub selected_comment: usize,
    pub worktree_list_mode: WorktreeListMode,
}

/// A rectangle of the screen.
#[derive(Clone, Copy, Debug, PartialEq, Eq, Structural)]
pub struct Rect {
    pub x: u16,
    pub y: u16,
    pub width: u16,
    pub height: u16,
}

/// Where the sidebar and its lists stand on the screen.
#[derive(Clone, Copy, Debug, PartialEq, Eq, Structural)]
pub struct SidebarLayout {
    pub width: u16,
    pub repos: Rect,
    pub worktrees: Rect,
    pub merges: Rect,
}

/// What a mouse did.
#[derive(Clone, Copy, Debug, PartialEq, Eq, Structural)]
pub enum MouseKind {
    LeftDown,
    ScrollDown,
    ScrollUp,
    Unused,
}

/// The largest coordinate.
pub open spec fn capped(n: int) -> int {
    if n > u16::MAX {
        u16::MAX as int
    } else {
        n
    }
}

/// Whether a point lies in a rectangle.
pub open spec fn inside(x: u16, y: u16, rect: Rect) -> bool {
    &&& rect.x <= x < capped(rect.x + rect.width)
    &&& rect.y <= y < capped(rect.y + rect.height)
}

/// How far a row lies below the `skip` first rows of a rectangle.
pub open spec fn row_in(y: u16, rect: Rect, skip: int) -> int {
    if y - rect.y - skip > 0 {
        y - rect.y - skip
    } else {
        0
    }
}

/// The height of the screen without its last line.
pub open spec fn body_height(area: Rect) -> int {
    if area.height > 0 {
        area.height - 1
    } else {
        0
    }
}

/// A visibility changed by an amount, kept between its bounds.
pub open spec fn adjusted(visibility: i16, delta: i16) -> int {
    if visibility + delta < -9 {
        -9
    } else if visibility + delta > 9 {
        9
    } else {
        visibility + delta
    }
}

/// What the Enter key opens.
#[derive(Clone, Copy, Debug, PartialEq, Eq)]
pub enum OpenTmuxSessionTarget {
    /// The agent of the selected phase of a plan.
    PlanPhaseAgent,
    /// The agent of the selected worktree.
    WorktreeAgent,
    /// The selected change request of a repository.
    RepoPr,
    /// The agent of a repository's default branch, by its worktree.
    RepoDefaultAgent(usize),
    /// Nothing, for a reason.
    Blocked(&'static str),
}

impl NavView {
    /// The selected worktree, where it is in the list and its repository is known.
    pub open spec fn selected_context(self) -> Option<usize> {
        match self.selected_session() {
            Some(index) => if self.sessions[index as int].repo_index < self.repos.len() {
                Some(index)
            } else {
                None
            },
            None => None,
        }
    }

    /// The worktree of the current repository's default branch.
    pub open spec fn default_session(self) -> Option<usize> {
        if self.current_repo < self.repos.len() {
            session_on_branch(
                self.sessions,
                self.sessions.len(),
                self.current_repo,
                self.repos[self.current_repo as int].config.default_branch@,
            )
        } else {
            None
        }
    }

    /// Whether moving in the main panel moves among change requests.
    pub open spec fn moves_requests(self) -> bool {
        &&& self.focused_panel == PanelFocus::Repos
        &&& self.repo_main_view == RepoMainView::ChangeRequests
        &&& self.current_requests().len() > 0
    }

    /// With the neighbour of the selected change request selected.
    pub open spec fn with_request_moved(self, step: Step) -> NavView {
        let list = self.current_requests();
        let at = match self.selected_request() {
            Some(found) => found,
            None => 0,
        };
        match neighbour(at, step, list.len()) {
            Some(next) => NavView {
                pr_by_repo: self.pr_by_repo.insert(
                    self.current_place()->0,
                    opt_text(
                        self.repos[self.current_repo as int].pr_summaries@[list[next as int] as int].identity,
                    )->0,
                ),
                ..self
            },
            None => self,
        }
    }

    /// The comment next to the selected one.
    pub open spec fn comment_after(self, step: Step) -> usize {
        let count = self.comment_count();
        let current = if self.selected_comment < count {
            self.selected_comment as int
        } else {
            count - 1
        };
        match step {
            Step::Next => if current + 1 < count {
                (current + 1) as usize
            } else {
                current as usize
            },
            Step::Previous => if current > 0 {
                (current - 1) as usize
            } else {
                0
            },
        }
    }

    /// With the selection among the comments moved.
    pub open spec fn with_comment_moved(self, step: Step) -> NavView {
        if !self.in_session_panel() {
            self
        } else if self.comment_count() == 0 {
            NavView { selected_comment: 0, ..self }
        } else {
            NavView { selected_comment: self.comment_after(step), ..self }
        }
    }

    /// Whether moving moves among comments.
    pub open spec fn moves_comments(self) -> bool {
        self.in_session_panel() && self.comment_count() > 0
    }

    /// The scroll position one line on.
    pub open spec fn scroll_after(self, step: Step) -> usize {
        match step {
            Step::Next => if self.main_scroll < usize::MAX {
                (self.main_scroll + 1) as usize
            } else {
                self.main_scroll
            },
            Step::Previous => if self.main_scroll > 0 {
                (self.main_scroll - 1) as usize
            } else {
                0
            },
        }
    }

    /// With the selection of the focused list moved, or the main panel where that is
    /// focused.
    pub open spec fn with_move(self, step: Step) -> NavView {
        if self.main_focused {
            if self.moves_requests() {
                self.with_request_moved(step)
            } else {
                NavView { main_scroll: self.scroll_after(step), ..self.with_comment_moved(step) }
            }
        } else {
            match self.focused_panel {
                PanelFocus::Status => self,
                PanelFocus::Repos => match next_to(self.repo_list(), self.current_repo, step) {
                    Some(index) => self.with_repo(index),
                    None => self,
                },
                _ => match next_to(self.session_list(), self.selected, step) {
                    Some(index) => self.with_session(index),
                    None => self,
                },
            }
        }
    }

    /// With the first or the last of the focused list selected.
    pub open spec fn with_end(self, last: bool) -> NavView {
        let repos = self.repo_list();
        let sessions = self.session_list();
        if self.main_focused {
            self
        } else if self.focused_panel == PanelFocus::Repos && repos.len() > 0 {
            self.with_repo(
                if last {
                    repos.last()
                } else {
                    repos[0]
                },
            )
        } else if self.in_session_panel() && sessions.len() > 0 {
            self.with_session(
                if last {
                    sessions.last()
                } else {
                    sessions[0]
                },
            )
        } else {
            self
        }
    }

    /// Whether the list mode changes when it is asked to.
    pub open spec fn changes_mode(self, mode: WorktreeListMode) -> bool {
        self.in_session_panel() && self.worktree_list_mode != mode
    }

    /// With the list mode switched; the selected worktree stays selected where it is
    /// in the list.
    pub open spec fn with_mode(self, mode: WorktreeListMode) -> NavView {
        let switched = NavView { worktree_list_mode: mode, ..self };
        if !self.changes_mode(mode) {
            self
        } else if mode == WorktreeListMode::Global {
            switched
        } else {
            match self.selected_session() {
                Some(index) => switched.with_session(index),
                None => switched.with_selection_restored(),
            }
        }
    }

    /// What to come back to.
    pub open spec fn snapshot(self) -> SnapView {
        SnapView {
            focused_panel: self.focused_panel,
            main_focused: self.main_focused,
            main_scroll: self.main_scroll,
            current_repo_root: self.current_root(),
            selected_worktree_path: match self.selected_session() {
                Some(index) => Some(self.sessions[index as int].path@),
                None => None,
            },
            selected_comment: self.selected_comment,
            worktree_list_mode: self.worktree_list_mode,
        }
    }

    /// With the repository of a snapshot selected, where it is still there.
    pub open spec fn with_snapshot_repo(self, root: Option<Seq<char>>) -> NavView {
        match root {
            Some(text) => match repo_at_root(
                self.repos,
                self.repos.len(),
                crate::text::bare_path(text),
            ) {
                Some(index) => NavView {
                    current_repo: index,
                    selected_repo_root: Some(text),
                    ..self
                },
                None => self,
            },
            None => self,
        }
    }

    /// With the worktree at a position selected and remembered.
    pub open spec fn with_session_remembered(self, index: usize) -> NavView {
        let session = self.sessions[index as int];
        let chosen = NavView { selected: index, ..self };
        if session.repo_index < self.repos.len() {
            NavView {
                worktree_by_repo: self.worktree_by_repo.insert(
                    crate::text::bare_path(self.repos[session.repo_index as int].repo.root@),
                    session.path@,
                ),
                ..chosen
            }
        } else {
            chosen
        }
    }

    /// With the worktree of a snapshot selected, where it is still there; otherwise
    /// with a selection that is in the list.
    pub open spec fn with_snapshot_session(self, path: Option<Seq<char>>) -> NavView {
        let known = match path {
            Some(text) => session_at_path(self.sessions, self.sessions.len(), text),
            None => None,
        };
        match known {
            Some(index) => self.with_session_remembered(index),
            None => if self.selected_session() is None {
                self.with_selection_restored()
            } else {
                self
            },
        }
    }

    /// Back at a snapshot.
    pub open spec fn with_snapshot(self, snap: SnapView) -> NavView {
        NavView {
            selected_comment: snap.selected_comment,
            focused_panel: snap.focused_panel,
            main_focused: snap.main_focused,
            main_scroll: snap.main_scroll,
            ..(NavView { worktree_list_mode: snap.worktree_list_mode, ..self }).with_snapshot_repo(
                snap.current_repo_root,
            ).with_snapshot_session(snap.selected_worktree_path)
        }
    }

    /// The repository to stand on: the selected one where it is still there, or the
    /// nearest one, and in any case one that is in the list unless the list is
    /// empty.
    pub open spec fn repo_to_stand_on(self) -> usize {
        let known = match self.selected_repo_root {
            Some(root) => match repo_at_root(
                self.repos,
                self.repos.len(),
                crate::text::bare_path(root),
            ) {
                Some(index) => index,
                None => self.current_repo,
            },
            None => self.current_repo,
        };
        let near = if known < self.repos.len() {
            known
        } else {
            (self.repos.len() - 1) as usize
        };
        let list = self.repo_list();
        if !list.contains(near) && list.len() > 0 {
            list[0]
        } else {
            near
        }
    }

    /// With every selection pointing at something that is there.
    pub open spec fn with_valid_selections(self) -> NavView {
        if self.repos.len() == 0 {
            NavView {
                current_repo: 0,
                selected_repo_root: None,
                selected: self.sessions.len() as usize,
                ..self
            }
        } else {
            let stood = NavView { current_repo: self.repo_to_stand_on(), ..self };
            NavView {
                selected_repo_root: stood.current_root(),
                ..stood
            }.with_request().with_selection_restored()
        }
    }

    /// With the repository bound to a key selected; a filter that hides it is
    /// cleared.
    pub open spec fn with_repo_key(self, key: char) -> NavView {
        match repo_with_key(self.repos, self.repos.len(), key) {
            Some(index) => if self.repo_list().contains(index) {
                self.with_repo(index)
            } else {
                NavView { repo_filter: Seq::empty(), ..self }.with_repo(index)
            },
            None => self,
        }
    }

    /// With a filter applied to the focused list.
    pub open spec fn with_filter(self, filter: Seq<char>) -> NavView {
        match self.focused_panel {
            PanelFocus::Status => self,
            PanelFocus::Repos => NavView { repo_filter: filter, ..self }.with_valid_selections(),
            _ => NavView { worktree_filter: filter, ..self }.with_selection_restored(),
        }
    }

    /// With the list entry under the mouse selected and its panel focused.
    pub open spec fn with_click(self, x: u16, y: u16, area: Rect, layout: SidebarLayout) -> NavView {
        if x >= layout.width || y >= body_height(area) {
            self
        } else if inside(x, y, layout.repos) {
            let row = row_in(y, layout.repos, 1);
            if row < self.repo_list().len() {
                self.with_repo(self.repo_list()[row]).with_panel(PanelFocus::Repos)
            } else {
                self
            }
        } else if inside(x, y, layout.worktrees) {
            let row = row_in(y, layout.worktrees, 2);
            let list = self.session_list_for(false);
            if row < list.len() {
                self.with_session(list[row]).with_session_panel(PanelFocus::Worktrees)
            } else {
                self
            }
        } else if inside(x, y, layout.merges) {
            let row = row_in(y, layout.merges, 2);
            let list = self.session_list_for(true);
            if row < list.len() {
                self.with_session(list[row]).with_session_panel(PanelFocus::Merges)
            } else {
                self
            }
        } else {
            self
        }
    }

    /// Whether a mouse event does something.
    pub open spec fn takes_mouse(
        self,
        kind: MouseKind,
        x: u16,
        y: u16,
        area: Rect,
        layout: SidebarLayout,
    ) -> bool {
        match kind {
            MouseKind::LeftDown => true,
            MouseKind::Unused => false,
            _ => layout.width <= x < area.width && y < body_height(area),
        }
    }

    /// After a mouse event: a click selects, the wheel scrolls the main panel.
    pub open spec fn with_mouse(
        self,
        kind: MouseKind,
        x: u16,
        y: u16,
        area: Rect,
        layout: SidebarLayout,
    ) -> NavView {
        if !self.takes_mouse(kind, x, y, area, layout) {
            self
        } else {
            match kind {
                MouseKind::LeftDown => self.with_click(x, y, area, layout),
                MouseKind::ScrollDown => NavView {
                    main_scroll: self.scroll_after(Step::Next),
                    ..self
                },
                _ => NavView { main_scroll: self.scroll_after(Step::Previous), ..self },
            }
        }
    }

    /// With another view of the repository in the main panel, where that shows one.
    pub open spec fn with_main_view(self, shown: RepoMainView) -> NavView {
        if self.main_focused && self.focused_panel == PanelFocus::Repos {
            NavView { repo_main_view: shown, ..self }
        } else {
            self
        }
    }

    /// With the visibility of a worktree set.
    pub open spec fn with_visibility(self, index: usize, visibility: i16) -> NavView {
        if index < self.sessions.len() {
            NavView {
                sessions: self.sessions.update(
                    index as int,
                    Session { visibility, ..self.sessions[index as int] },
                ),
                ..self
            }
        } else {
            self
        }
    }

    /// What the Enter key opens; `plan_open` says whether the main panel shows a plan.
    pub open spec fn enter_opens(self, plan_open: bool, target: OpenTmuxSessionTarget) -> bool {
        match self.focused_panel {
            PanelFocus::Status => target matches OpenTmuxSessionTarget::Blocked(reason) && reason@
                == "status has no Enter action"@,
            PanelFocus::Repos => if self.main_focused && self.shown_request() is Some {
                target is RepoPr
            } else {
                match self.default_session() {
                    Some(index) => target == OpenTmuxSessionTarget::RepoDefaultAgent(index),
                    None => target matches OpenTmuxSessionTarget::Blocked(reason) && reason@
                        == "selected repository has no default worktree"@,
                }
            },
            _ => if self.focused_panel == PanelFocus::Worktrees && self.main_focused && plan_open {
                target is PlanPhaseAgent
            } else if self.selected_context() is None {
                target matches OpenTmuxSessionTarget::Blocked(reason) && reason@
                    == "selected repository has no visible worktrees"@
            } else {
                target is WorktreeAgent
            },
        }
    }
}

/// Where the dashboard of some repositories and worktrees starts: the repository list has
/// the focus, and every selection points at something that is there.
pub open spec fn start_view(
    repos: Seq<ManagedRepo>,
    current_repo: usize,
    sessions: Seq<Session>,
) -> NavView {
    let start = NavView {
        repos,
        sessions,
        current_repo: if current_repo < repos.len() {
            current_repo
        } else if repos.len() == 0 {
            0
        } else {
            (repos.len() - 1) as usize
        },
        selected: 0,
        selected_repo_root: None,
        focused_panel: PanelFocus::Repos,
        main_focused: false,
        main_scroll: 0,
        repo_main_view: RepoMainView::ChangeRequests,
        worktree_list_mode: WorktreeListMode::Repo,
        selected_comment: 0,
        worktree_by_repo: Map::empty(),
        pr_by_repo: Map::empty(),
        repo_filter: Seq::empty(),
        worktree_filter: Seq::empty(),
    };
    (NavView { selected_repo_root: start.current_root(), ..start }).with_valid_selections()
}

/// The panel after another.
pub open spec fn panel_after(panel: PanelFocus) -> PanelFocus {
    match panel {
        PanelFocus::Status => PanelFocus::Repos,
        PanelFocus::Repos => PanelFocus::Worktrees,
        PanelFocus::Worktrees => PanelFocus::Merges,
        PanelFocus::Merges => PanelFocus::Status,
    }
}

/// The panel before another.
pub open spec fn panel_before(panel: PanelFocus) -> PanelFocus {
    match panel {
        PanelFocus::Status => PanelFocus::Merges,
        PanelFocus::Repos => PanelFocus::Status,
        PanelFocus::Worktrees => PanelFocus::Repos,
        PanelFocus::Merges => PanelFocus::Worktrees,
    }
}

// ---------------------------------------------------------------------------
// The state
// ---------------------------------------------------------------------------

/// The state of the navigation.
pub struct Navigation {
    pub repos: Vec<ManagedRepo>,
    pub sessions: Vec<Session>,
    pub current_repo: usize,
    pub selected: usize,
    pub selected_repo_root: Option<String>,
    pub focused_panel: PanelFocus,
    pub main_focused: bool,
    pub main_scroll: usize,
    pub repo_main_view: RepoMainView,
    pub worktree_list_mode: WorktreeListMode,
    pub selected_comment: usize,
    pub selected_worktree_by_repo: Table<PathKey, String>,
    pub selected_pr_by_repo: Table<PathKey, String>,
    pub repo_filter: String,
    pub worktree_filter: String,
}

fn filter_needle(filter: &str) -> (r: String)
    ensures
        r@ == needle_of(filter@),
{
    let bare: String = trim(filter);
    to_lower(bare.as_str())
}

fn text_mentions(text: &str, needle: &str) -> (r: bool)
    ensures
        r == mentions(text@, needle@),
{
    let folded: String = to_lower(text);
    contains(folded.as_str(), needle)
}

fn session_fits(session: &Session, needle: &str) -> (r: bool)
    ensures
        r == fits(*session, needle@),
{
    if needle.unicode_len() == 0 || text_mentions(session.branch.as_str(), needle)
        || text_mentions(session.repo_label.as_str(), needle) || text_mentions(
        session.prompt_summary.as_str(),
        needle,
    ) || text_mentions(session.path_display.as_str(), needle) {
        return true;
    }
    let mut i: usize = 0;
    while i < session.wt_columns.len()
        invariant
            i <= session.wt_columns.len(),
            forall|k: int|
                0 <= k < i ==> !mentions((#[trigger] session.wt_columns@[k]).value@, needle@),
            needle@.len() != 0,
            !mentions(session.branch@, needle@),
            !mentions(session.repo_label@, needle@),
            !mentions(session.prompt_summary@, needle@),
            !mentions(session.path_display@, needle@),
        decreases session.wt_columns.len() - i,
    {
        if text_mentions(session.wt_columns[i].value.as_str(), needle) {
            assert(mentions(session.wt_columns@[i as int].value@, needle@));
            return true;
        }
        i += 1;
    }
    false
}

/// The group of a worktree: raised ones first, lowered ones last.
pub fn worktree_priority_rank(visibility: i16) -> (r: u8)
    ensures
        r == priority_rank(visibility),
{
    if visibility > 0 {
        0
    } else if visibility == 0 {
        1
    } else {
        2
    }
}

/// The name by which a worktree is sorted.
pub fn worktree_sort_name(session: &Session) -> (r: String)
    ensures
        r@ == sort_name(*session),
{
    match file_name(session.path.as_str()) {
        Some(name) => {
            let bare: String = trim(name.as_str());
            if bare.as_str().unicode_len() > 0 {
                to_lower(name.as_str())
            } else {
                to_lower(session.branch.as_str())
            }
        },
        None => to_lower(session.branch.as_str()),
    }
}

/// What the list shows as the time of the last change: that of the last refresh,
/// or else the day of the change request's last update.
pub open spec fn updated_label(session: Session) -> Seq<char> {
    match (session.pr.last_refreshed, session.pr.summary) {
        (Some(label), _) => label@,
        (None, Some(summary)) => if summary.updated_at@.len() <= 10 {
            summary.updated_at@
        } else {
            summary.updated_at@.take(10)
        },
        (None, None) => "-"@,
    }
}

/// What the list shows as the time of the last change.
pub fn worktree_updated_label(session: &Session) -> (r: String)
    ensures
        r@ == updated_label(*session),
{
    match &session.pr.last_refreshed {
        Some(label) => label.clone(),
        None => match &session.pr.summary {
            Some(summary) => {
                let chars: Vec<char> = crate::text::chars_of(summary.updated_at.as_str());
                if chars.len() <= 10 {
                    summary.updated_at.clone()
                } else {
                    assert(chars@.subrange(0, 10) =~= chars@.take(10));
                    crate::text::slice_text(&chars, 0, 10)
                }
            },
            None => crate::text::owned("-"),
        },
    }
}

fn session_before(a: &Session, b: &Session) -> (r: bool)
    ensures
        r == key_less(sort_key(*a), sort_key(*b)),
{
    let ra: u8 = worktree_priority_rank(a.visibility);
    let rb: u8 = worktree_priority_rank(b.visibility);
    if ra != rb {
        return ra < rb;
    }
    if !same(a.repo_label.as_str(), b.repo_label.as_str()) {
        return less(a.repo_label.as_str(), b.repo_label.as_str());
    }
    let na: String = worktree_sort_name(a);
    let nb: String = worktree_sort_name(b);
    less(na.as_str(), nb.as_str())
}

fn place(sessions: &Vec<Session>, list: &mut Vec<usize>, index: usize)
    requires
        index < sessions.len(),
        forall|k: int| 0 <= k < old(list).len() ==> (#[trigger] old(list)@[k]) < sessions.len(),
    ensures
        final(list)@ == placed(sessions@, old(list)@, index),
        forall|k: int| 0 <= k < final(list).len() ==> (#[trigger] final(list)@[k]) < sessions.len(),
{
    let mut at: usize = list.len();
    let ghost all = list@;
    assert(all.take(at as int) =~= all);
    assert(placed(sessions@, all, index) =~= placed(sessions@, all.take(at as int), index)
        + all.skip(at as int));
    while at > 0 && session_before(&sessions[index], &sessions[list[at - 1]])
        invariant
            at <= all.len(),
            all == list@,
            index < sessions.len(),
            forall|k: int| 0 <= k < all.len() ==> (#[trigger] all[k]) < sessions.len(),
            placed(sessions@, all, index) == placed(sessions@, all.take(at as int), index)
                + all.skip(at as int),
        decreases at,
    {
        proof {
            let head = all.take(at as int);
            assert(head.last() == all[at - 1]);
            assert(head.drop_last() =~= all.take(at - 1));
            assert(placed(sessions@, head.drop_last(), index).push(head.last()) + all.skip(
                at as int,
            ) =~= placed(sessions@, all.take(at - 1), index) + all.skip(at - 1));
        }
        at -= 1;
    }
    proof {
        let head = all.take(at as int);
        if at > 0 {
            assert(head.last() == all[at - 1]);
        }
        assert(placed(sessions@, head, index) == head.push(index));
        assert(head.push(index) + all.skip(at as int) =~= all.insert(at as int, index));
    }
    list.insert(at, index);
}

// ---------------------------------------------------------------------------
// Lists
// ---------------------------------------------------------------------------

proof fn lemma_placed_bounds(sessions: Seq<Session>, list: Seq<usize>, index: usize, bound: nat)
    requires
        index < bound,
        forall|k: int| 0 <= k < list.len() ==> (#[trigger] list[k]) < bound,
    ensures
        forall|k: int|
            0 <= k < placed(sessions, list, index).len() ==> (#[trigger] placed(
                sessions,
                list,
                index,
            )[k]) < bound,
    decreases list.len(),
{
    let result = placed(sessions, list, index);
    if list.len() > 0 && key_less(
        sort_key(sessions[index as int]),
        sort_key(sessions[list.last() as int]),
    ) {
        let init = list.drop_last();
        assert forall|k: int| 0 <= k < init.len() implies (#[trigger] init[k]) < bound by {
            assert(init[k] == list[k]);
        }
        lemma_placed_bounds(sessions, init, index, bound);
        let inner = placed(sessions, init, index);
        assert forall|k: int| 0 <= k < result.len() implies (#[trigger] result[k]) < bound by {
            if k < inner.len() {
                assert(result[k] == inner[k]);
            } else {
                assert(result[k] == list[list.len() - 1]);
            }
        }
    } else {
        assert forall|k: int| 0 <= k < result.len() implies (#[trigger] result[k]) < bound by {
            if k < list.len() {
                assert(result[k] == list[k]);
            }
        }
    }
}

/// Every listed worktree exists.
pub proof fn lemma_session_list_bounds(v: NavView, finishing: bool, n: nat)
    requires
        n <= usize::MAX,
    ensures
        forall|k: int|
            0 <= k < v.session_list_upto(finishing, n).len() ==> (
            #[trigger] v.session_list_upto(finishing, n)[k]) < n,
    decreases n,
{
    if n > 0 {
        lemma_session_list_bounds(v, finishing, (n - 1) as nat);
        let before = v.session_list_upto(finishing, (n - 1) as nat);
        assert forall|k: int| 0 <= k < before.len() implies (#[trigger] before[k]) < n by {}
        if v.shows_session(finishing, n - 1) {
            lemma_placed_bounds(v.sessions, before, (n - 1) as usize, n);
        }
    }
}

/// The list of open change requests holds exactly those that are open, in their order.
pub proof fn lemma_open_requests(summaries: Seq<PrSummary>, n: nat)
    requires
        n <= usize::MAX,
        n <= summaries.len(),
    ensures
        forall|k: int|
            0 <= k < open_requests(summaries, n).len() ==> (
            #[trigger] open_requests(summaries, n)[k]) < n
                && crate::git_actions::is_open(
                summaries[open_requests(summaries, n)[k] as int],
            ),
        forall|i: int|
            0 <= i < n && crate::git_actions::is_open(#[trigger] summaries[i]) ==> exists|k: int|
                0 <= k < open_requests(summaries, n).len()
                    && #[trigger] open_requests(summaries, n)[k] == i,
        forall|j: int, k: int|
            0 <= j < k < open_requests(summaries, n).len() ==> (
            #[trigger] open_requests(summaries, n)[j]) < (
            #[trigger] open_requests(summaries, n)[k]),
        open_requests(summaries, n).len() <= n,
    decreases n,
{
    if n > 0 {
        let list = open_requests(summaries, n);
        let before = open_requests(summaries, (n - 1) as nat);
        lemma_open_requests(summaries, (n - 1) as nat);
        assert forall|i: int|
            0 <= i < n && crate::git_actions::is_open(#[trigger] summaries[i]) implies exists|
            k: int,
        |
            0 <= k < list.len() && #[trigger] list[k] == i by {
            if i < n - 1 {
                let k = choose|k: int| 0 <= k < before.len() && #[trigger] before[k] == i;
                assert(list[k] == i);
            } else {
                assert(list[list.len() - 1] == i);
            }
        }
    }
}

/// Every change request that the selection can move to exists.
pub proof fn lemma_listed_requests(summaries: Seq<PrSummary>, n: nat)
    requires
        n <= usize::MAX,
        n <= summaries.len(),
    ensures
        forall|k: int|
            0 <= k < listed_requests(summaries, n).len() ==> (#[trigger] listed_requests(
                summaries,
                n,
            )[k]) < n && is_listed_request(summaries[listed_requests(summaries, n)[k] as int]),
        listed_requests(summaries, n).len() <= n,
    decreases n,
{
    if n > 0 {
        lemma_listed_requests(summaries, (n - 1) as nat);
    }
}

proof fn lemma_request_with_bounds(
    summaries: Seq<PrSummary>,
    list: Seq<usize>,
    identity: Seq<char>,
)
    requires
        list.len() <= usize::MAX,
    ensures
        request_with(summaries, list, identity) matches Some(at) ==> at < list.len(),
    decreases list.len(),
{
    if list.len() > 0 {
        lemma_request_with_bounds(summaries, list.drop_last(), identity);
    }
}

proof fn lemma_position_bounds(list: Seq<usize>, value: usize)
    requires
        list.len() <= usize::MAX,
    ensures
        position_of(list, value) matches Some(at) ==> at < list.len(),
    decreases list.len(),
{
    if list.len() > 0 {
        lemma_position_bounds(list.drop_last(), value);
    }
}

fn find_position(list: &Vec<usize>, value: usize) -> (r: Option<usize>)
    ensures
        r == position_of(list@, value),
{
    let mut found: Option<usize> = None;
    let mut i: usize = 0;
    while i < list.len()
        invariant
            i <= list.len(),
            found == position_of(list@.take(i as int), value),
        decreases list.len() - i,
    {
        proof {
            assert(list@.take(i + 1).drop_last() =~= list@.take(i as int));
            assert(list@.take(i + 1).last() == list@[i as int]);
        }
        if found.is_none() && list[i] == value {
            found = Some(i);
        }
        i += 1;
    }
    assert(list@.take(list.len() as int) =~= list@);
    found
}

fn holds(list: &Vec<usize>, value: usize) -> (r: bool)
    ensures
        r == list@.contains(value),
{
    let mut i: usize = 0;
    while i < list.len()
        invariant
            i <= list.len(),
            forall|k: int| 0 <= k < i ==> list@[k] != value,
        decreases list.len() - i,
    {
        if list[i] == value {
            return true;
        }
        i += 1;
    }
    false
}

fn neighbour_position(position: usize, step: Step, len: usize) -> (r: Option<usize>)
    ensures
        r == neighbour(position, step, len as nat),
{
    match step {
        Step::Next => {
            if position < len && position + 1 < len {
                Some(position + 1)
            } else {
                None
            }
        },
        Step::Previous => {
            if 1 <= position && position <= len {
                Some(position - 1)
            } else {
                None
            }
        },
    }
}

fn neighbour_in(list: &Vec<usize>, value: usize, step: Step) -> (r: Option<usize>)
    ensures
        r == next_to(list@, value, step),
{
    let at: usize = match find_position(list, value) {
        Some(found) => found,
        None => 0,
    };
    proof {
        lemma_position_bounds(list@, value);
    }
    match neighbour_position(at, step, list.len()) {
        Some(next) => Some(list[next]),
        None => None,
    }
}

fn request_is_listed(summary: &PrSummary) -> (r: bool)
    ensures
        r == is_listed_request(*summary),
{
    if summary.merged || summary.identity.is_none() {
        return false;
    }
    let bare: String = trim(summary.state.as_str());
    let state: String = to_lower(bare.as_str());
    !same(state.as_str(), "closed") && !same(state.as_str(), "merged")
}

fn listed_request_positions(summaries: &Vec<PrSummary>) -> (r: Vec<usize>)
    ensures
        r@ == listed_requests(summaries@, summaries@.len()),
        r.len() <= summaries.len(),
        forall|k: int|
            0 <= k < r.len() ==> (#[trigger] r@[k]) < summaries.len() && is_listed_request(
                summaries@[r@[k] as int],
            ),
{
    let mut out: Vec<usize> = Vec::new();
    let mut i: usize = 0;
    while i < summaries.len()
        invariant
            i <= summaries.len(),
            out@ == listed_requests(summaries@, i as nat),
        decreases summaries.len() - i,
    {
        if request_is_listed(&summaries[i]) {
            out.push(i);
        }
        i += 1;
    }
    proof {
        lemma_listed_requests(summaries@, summaries@.len());
    }
    out
}

fn find_numbered(summaries: &Vec<PrSummary>, list: &Vec<usize>, number: u64) -> (r: Option<usize>)
    requires
        forall|k: int| 0 <= k < list.len() ==> (#[trigger] list@[k]) < summaries.len(),
    ensures
        r == request_numbered(summaries@, list@, number),
        r matches Some(position) ==> list@.contains(position),
{
    let mut found: Option<usize> = None;
    let mut i: usize = 0;
    assert(list@.take(0).len() == 0);
    while i < list.len()
        invariant
            i <= list.len(),
            forall|k: int| 0 <= k < list.len() ==> (#[trigger] list@[k]) < summaries.len(),
            found == request_numbered(summaries@, list@.take(i as int), number),
            found matches Some(position) ==> list@.contains(position),
        decreases list.len() - i,
    {
        proof {
            assert(list@.take(i + 1).drop_last() =~= list@.take(i as int));
            assert(list@.take(i + 1).last() == list@[i as int]);
        }
        if found.is_none() && summaries[list[i]].number == number {
            found = Some(list[i]);
        }
        i += 1;
    }
    assert(list@.take(list.len() as int) =~= list@);
    found
}

fn find_request(summaries: &Vec<PrSummary>, list: &Vec<usize>, identity: &str) -> (r: Option<usize>)
    requires
        forall|k: int| 0 <= k < list.len() ==> (#[trigger] list@[k]) < summaries.len(),
    ensures
        r == request_with(summaries@, list@, identity@),
        r matches Some(at) ==> at < list.len(),
{
    let mut found: Option<usize> = None;
    let mut i: usize = 0;
    while i < list.len()
        invariant
            i <= list.len(),
            forall|k: int| 0 <= k < list.len() ==> (#[trigger] list@[k]) < summaries.len(),
            found == request_with(summaries@, list@.take(i as int), identity@),
            found matches Some(at) ==> at < list.len(),
        decreases list.len() - i,
    {
        proof {
            assert(list@.take(i + 1).drop_last() =~= list@.take(i as int));
            assert(list@.take(i + 1).last() == list@[i as int]);
        }
        if found.is_none() {
            match &summaries[list[i]].identity {
                Some(known) => {
                    if same(known.as_str(), identity) {
                        found = Some(i);
                    }
                },
                None => {},
            }
        }
        i += 1;
    }
    assert(list@.take(list.len() as int) =~= list@);
    found
}

impl Navigation {
    /// The state as contracts speak of it.
    pub open spec fn view(&self) -> NavView {
        NavView {
            repos: self.repos@,
            sessions: self.sessions@,
            current_repo: self.current_repo,
            selected: self.selected,
            selected_repo_root: opt_text(self.selected_repo_root),
            focused_panel: self.focused_panel,
            main_focused: self.main_focused,
            main_scroll: self.main_scroll,
            repo_main_view: self.repo_main_view,
            worktree_list_mode: self.worktree_list_mode,
            selected_comment: self.selected_comment,
            worktree_by_repo: value_texts(self.selected_worktree_by_repo@),
            pr_by_repo: value_texts(self.selected_pr_by_repo@),
            repo_filter: self.repo_filter@,
            worktree_filter: self.worktree_filter@,
        }
    }

    /// The list of repositories: those that fit the filter, in their order.
    pub fn visible_repo_indices(&self) -> (r: Vec<usize>)
        ensures
            r@ == self@.repo_list(),
            forall|k: int| 0 <= k < r.len() ==> (#[trigger] r@[k]) < self.repos.len(),
    {
        let needle: String = filter_needle(self.repo_filter.as_str());
        let needle_chars: Vec<char> = crate::text::chars_of(needle.as_str());
        let mut out: Vec<usize> = Vec::new();
        let mut i: usize = 0;
        while i < self.repos.len()
            invariant
                i <= self.repos.len(),
                needle@ == needle_of(self.repo_filter@),
                needle_chars@ == needle@,
                out@ == self@.repo_list_upto(i as nat),
                forall|k: int| 0 <= k < out.len() ==> (#[trigger] out@[k]) < self.repos.len(),
            decreases self.repos.len() - i,
        {
            let repo: &ManagedRepo = &self.repos[i];
            let by_key: bool = match repo.key {
                Some(key) => {
                    let same_key: bool = needle_chars.len() == 1 && needle_chars[0] == key;
                    assert(same_key == (seq![key] =~= needle_chars@));
                    same_key
                },
                None => false,
            };
            if needle_chars.len() == 0 || text_mentions(repo.label.as_str(), needle.as_str())
                || text_mentions(repo.repo.root.as_str(), needle.as_str()) || by_key {
                out.push(i);
            }
            i += 1;
        }
        out
    }

    fn session_is_listed(&self, finishing: bool, i: usize, needle: &str) -> (r: bool)
        requires
            i < self.sessions.len(),
            needle@ == needle_of(self.worktree_filter@),
        ensures
            r == self@.shows_session(finishing, i as int),
    {
        let session: &Session = &self.sessions[i];
        let in_merge: bool = match &session.pr.summary {
            Some(summary) => summary.finishing,
            None => false,
        };
        let in_scope: bool = match self.worktree_list_mode {
            WorktreeListMode::Global => true,
            WorktreeListMode::Repo => session.repo_index == self.current_repo,
        };
        let on_default: bool = session.repo_index < self.repos.len()
            && self.repos[session.repo_index].config.is_default_branch(session.branch.as_str());
        !session.hidden && in_merge == finishing && in_scope && !on_default && session_fits(
            session,
            needle,
        )
    }

    /// The list of worktrees, or of those that are being merged: raised ones first
    /// and lowered ones last, then by repository and by name.
    pub fn visible_session_indices_for(&self, finishing: bool) -> (r: Vec<usize>)
        ensures
            r@ == self@.session_list_for(finishing),
            forall|k: int| 0 <= k < r.len() ==> (#[trigger] r@[k]) < self.sessions.len(),
    {
        let needle: String = filter_needle(self.worktree_filter.as_str());
        let mut out: Vec<usize> = Vec::new();
        let mut i: usize = 0;
        while i < self.sessions.len()
            invariant
                i <= self.sessions.len(),
                needle@ == needle_of(self.worktree_filter@),
                out@ == self@.session_list_upto(finishing, i as nat),
                forall|k: int| 0 <= k < out.len() ==> (#[trigger] out@[k]) < self.sessions.len(),
            decreases self.sessions.len() - i,
        {
            if self.session_is_listed(finishing, i, needle.as_str()) {
                place(&self.sessions, &mut out, i);
            }
            i += 1;
        }
        out
    }

    /// The list of worktrees of the focused panel.
    pub fn visible_session_indices(&self) -> (r: Vec<usize>)
        ensures
            r@ == self@.session_list(),
            forall|k: int| 0 <= k < r.len() ==> (#[trigger] r@[k]) < self.sessions.len(),
    {
        let finishing: bool = match self.focused_panel {
            PanelFocus::Merges => true,
            _ => false,
        };
        self.visible_session_indices_for(finishing)
    }

    /// The list of worktrees that are not being merged.
    pub fn visible_worktree_indices(&self) -> (r: Vec<usize>)
        ensures
            r@ == self@.session_list_for(false),
            forall|k: int| 0 <= k < r.len() ==> (#[trigger] r@[k]) < self.sessions.len(),
    {
        self.visible_session_indices_for(false)
    }

    /// The list of worktrees that are being merged.
    pub fn visible_merge_indices(&self) -> (r: Vec<usize>)
        ensures
            r@ == self@.session_list_for(true),
            forall|k: int| 0 <= k < r.len() ==> (#[trigger] r@[k]) < self.sessions.len(),
    {
        self.visible_session_indices_for(true)
    }

    /// The selected worktree, where it is in the list.
    pub fn selected_worktree_index(&self) -> (r: Option<usize>)
        ensures
            r == self@.selected_session(),
            r matches Some(index) ==> index < self.sessions.len(),
    {
        let list: Vec<usize> = self.visible_session_indices();
        if holds(&list, self.selected) {
            Some(self.selected)
        } else {
            None
        }
    }

    /// The current repository, where there is one.
    pub fn selected_repo_context(&self) -> (r: Option<usize>)
        ensures
            r == (if self@.current_repo < self@.repos.len() {
                Some(self@.current_repo)
            } else {
                None
            }),
    {
        if self.current_repo < self.repos.len() {
            Some(self.current_repo)
        } else {
            None
        }
    }

    /// Whether the focused panel lists worktrees.
    pub fn is_worktree_session_panel(&self) -> (r: bool)
        ensures
            r == self@.in_session_panel(),
    {
        match self.focused_panel {
            PanelFocus::Worktrees => true,
            PanelFocus::Merges => true,
            _ => false,
        }
    }

    // -----------------------------------------------------------------------
    // Change requests
    // -----------------------------------------------------------------------

    /// The open change requests of the current repository, by their positions.
    pub fn current_repo_open_pr_summaries(&self) -> (r: Vec<usize>)
        ensures
            r@ == self@.current_open_requests(),
            r.len() > 0 ==> self.current_repo < self.repos.len(),
            forall|k: int|
                0 <= k < r.len() ==> (#[trigger] r@[k])
                    < self.repos@[self.current_repo as int].pr_summaries.len()
                    && crate::git_actions::is_open(
                    self.repos@[self.current_repo as int].pr_summaries@[r@[k] as int],
                ),
    {
        let mut out: Vec<usize> = Vec::new();
        if self.current_repo >= self.repos.len() {
            return out;
        }
        let summaries: &Vec<PrSummary> = &self.repos[self.current_repo].pr_summaries;
        let mut i: usize = 0;
        while i < summaries.len()
            invariant
                i <= summaries.len(),
                out@ == open_requests(summaries@, i as nat),
            decreases summaries.len() - i,
        {
            if crate::git_actions::request_is_open(&summaries[i]) {
                out.push(i);
            }
            i += 1;
        }
        proof {
            lemma_open_requests(summaries@, summaries@.len());
        }
        out
    }

    /// The number of the change request selected in the current repository.
    pub fn selected_repo_pr_number(&self) -> (r: Option<u64>)
        ensures
            r == self@.selected_number(),
    {
        let list: Vec<usize> = self.current_repo_change_request_summaries();
        match self.selected_request_position(&list) {
            Some(at) => Some(self.repos[self.current_repo].pr_summaries[list[at]].number),
            None => None,
        }
    }

    /// The position of the open change request that a review is for: the one with the selected
    /// number, or else the first.
    pub fn request_for_review(&self) -> (r: Option<usize>)
        ensures
            r == self@.request_to_review(),
            r matches Some(at) ==> self.current_repo < self.repos.len() && at
                < self.repos@[self.current_repo as int].pr_summaries.len()
                && crate::git_actions::is_open(
                self.repos@[self.current_repo as int].pr_summaries@[at as int],
            ),
    {
        let list: Vec<usize> = self.current_repo_open_pr_summaries();
        if list.len() == 0 {
            assert(self@.current_open_requests().len() == 0);
            return None;
        }
        let chosen: Option<usize> = match self.selected_repo_pr_number() {
            Some(number) => find_numbered(
                &self.repos[self.current_repo].pr_summaries,
                &list,
                number,
            ),
            None => None,
        };
        match chosen {
            Some(position) => Some(position),
            None => Some(list[0]),
        }
    }

    /// The change requests of the current repository that the selection can move to, by their
    /// positions.
    pub fn current_repo_change_request_summaries(&self) -> (r: Vec<usize>)
        ensures
            r@ == self@.current_requests(),
            r.len() > 0 ==> self.current_repo < self.repos.len(),
            forall|k: int|
                0 <= k < r.len() ==> (#[trigger] r@[k])
                    < self.repos@[self.current_repo as int].pr_summaries.len() && is_listed_request(
                    self.repos@[self.current_repo as int].pr_summaries@[r@[k] as int],
                ),
    {
        if self.current_repo < self.repos.len() {
            listed_request_positions(&self.repos[self.current_repo].pr_summaries)
        } else {
            Vec::new()
        }
    }

    /// The change request selected in the current repository, by its identity.
    pub fn selected_repo_pr_identity(&self) -> (r: Option<&String>)
        ensures
            match r {
                Some(identity) => self@.selected_identity() == Some(identity@),
                None => self@.selected_identity() is None,
            },
    {
        if self.current_repo < self.repos.len() {
            self.selected_pr_by_repo.get(
                &PathKey::new(self.repos[self.current_repo].repo.root.as_str()),
            )
        } else {
            None
        }
    }

    fn selected_request_position(&self, list: &Vec<usize>) -> (r: Option<usize>)
        requires
            list@ == self@.current_requests(),
            forall|k: int|
                0 <= k < list.len() ==> (#[trigger] list@[k])
                    < self.repos@[self.current_repo as int].pr_summaries.len(),
        ensures
            r == self@.selected_request(),
            r matches Some(at) ==> at < list.len(),
    {
        if self.current_repo >= self.repos.len() {
            return None;
        }
        match self.selected_repo_pr_identity() {
            Some(identity) => find_request(
                &self.repos[self.current_repo].pr_summaries,
                list,
                identity.as_str(),
            ),
            None => None,
        }
    }

    /// The position of the change request that the main panel acts on: the selected
    /// one, or else the first.
    pub fn selected_repo_pr_summary(&self) -> (r: Option<usize>)
        ensures
            r == self@.shown_request(),
            r matches Some(at) ==> self.current_repo < self.repos.len() && at
                < self.repos@[self.current_repo as int].pr_summaries.len() && is_listed_request(
                self.repos@[self.current_repo as int].pr_summaries@[at as int],
            ),
    {
        let list: Vec<usize> = self.current_repo_change_request_summaries();
        match self.selected_request_position(&list) {
            Some(at) => Some(list[at]),
            None => {
                if list.len() > 0 {
                    Some(list[0])
                } else {
                    None
                }
            },
        }
    }

    /// Selects a change request in the current repository, where there is one and
    /// none of those that can be is selected.
    pub fn ensure_selected_repo_pr(&mut self)
        ensures
            final(self)@ == old(self)@.with_request(),
    {
        if self.current_repo >= self.repos.len() {
            return;
        }
        let list: Vec<usize> = self.current_repo_change_request_summaries();
        let root = PathKey::new(self.repos[self.current_repo].repo.root.as_str());
        let ghost place = root@;
        if list.len() == 0 {
            let _ = self.selected_pr_by_repo.remove(&root);
            assert(self@.pr_by_repo =~= old(self)@.pr_by_repo.remove(place));
            return;
        }
        if self.selected_request_position(&list).is_some() {
            return;
        }
        match &self.repos[self.current_repo].pr_summaries[list[0]].identity {
            Some(identity) => {
                let chosen: String = identity.clone();
                self.selected_pr_by_repo.insert(root, chosen);
                assert(self@.pr_by_repo =~= old(self)@.pr_by_repo.insert(place, chosen@));
            },
            None => {},
        }
    }

    // -----------------------------------------------------------------------
    // Selections
    // -----------------------------------------------------------------------

    /// Selects a repository; one behind the last counts as the last.
    pub fn select_repo(&mut self, repo_index: usize)
        ensures
            final(self)@ == old(self)@.with_repo(repo_index),
    {
        self.main_scroll = 0;
        let last: usize = if self.repos.len() == 0 {
            0
        } else {
            self.repos.len() - 1
        };
        self.current_repo = if repo_index <= last {
            repo_index
        } else {
            last
        };
        self.selected_repo_root = if self.current_repo < self.repos.len() {
            Some(self.repos[self.current_repo].repo.root.clone())
        } else {
            None
        };
        assert(self@ =~= (NavView {
            selected_repo_root: self@.current_root(),
            current_repo: self.current_repo,
            main_scroll: 0,
            ..old(self)@
        }));
        self.ensure_selected_repo_pr();
    }

    /// Selects a worktree, remembers it for its repository, and marks its comments
    /// as seen. One that does not exist is not selected.
    pub fn select_worktree(&mut self, index: usize)
        ensures
            final(self)@ == old(self)@.with_session(index),
    {
        self.main_scroll = 0;
        if index >= self.sessions.len() {
            return;
        }
        let repo_index: usize = self.sessions[index].repo_index;
        let path: String = self.sessions[index].path.clone();
        self.selected = index;
        self.selected_comment = 0;
        if repo_index < self.repos.len() {
            let root: String = self.repos[repo_index].repo.root.clone();
            self.current_repo = repo_index;
            let key = PathKey::new(root.as_str());
            self.selected_repo_root = Some(root);
            let ghost place = key@;
            self.selected_worktree_by_repo.insert(key, path);
            assert(self@.worktree_by_repo =~= old(self)@.worktree_by_repo.insert(place, path@));
        }
        let mut session: Session = self.sessions.remove(index);
        session.unseen_comments = false;
        self.sessions.insert(index, session);
        assert(self@.sessions =~= old(self)@.sessions.update(
            index as int,
            Session { unseen_comments: false, ..old(self)@.sessions[index as int] },
        ));
    }

    fn listed_path_position(&self, list: &Vec<usize>, path: &str) -> (r: Option<usize>)
        requires
            forall|k: int| 0 <= k < list.len() ==> (#[trigger] list@[k]) < self.sessions.len(),
        ensures
            r == listed_at_path(self.sessions@, list@, path@),
    {
        let mut found: Option<usize> = None;
        let mut i: usize = 0;
        while i < list.len()
            invariant
                i <= list.len(),
                forall|k: int| 0 <= k < list.len() ==> (#[trigger] list@[k]) < self.sessions.len(),
                found == listed_at_path(self.sessions@, list@.take(i as int), path@),
            decreases list.len() - i,
        {
            proof {
                assert(list@.take(i + 1).drop_last() =~= list@.take(i as int));
                assert(list@.take(i + 1).last() == list@[i as int]);
            }
            if found.is_none() && is_same_path(self.sessions[list[i]].path.as_str(), path) {
                found = Some(list[i]);
            }
            i += 1;
        }
        assert(list@.take(list.len() as int) =~= list@);
        found
    }

    fn listed_repo_position(&self, list: &Vec<usize>) -> (r: Option<usize>)
        requires
            forall|k: int| 0 <= k < list.len() ==> (#[trigger] list@[k]) < self.sessions.len(),
        ensures
            r == listed_of_repo(self.sessions@, list@, self.current_repo),
    {
        let mut found: Option<usize> = None;
        let mut i: usize = 0;
        while i < list.len()
            invariant
                i <= list.len(),
                forall|k: int| 0 <= k < list.len() ==> (#[trigger] list@[k]) < self.sessions.len(),
                found == listed_of_repo(
                    self.sessions@,
                    list@.take(i as int),
                    self.current_repo,
                ),
            decreases list.len() - i,
        {
            proof {
                assert(list@.take(i + 1).drop_last() =~= list@.take(i as int));
                assert(list@.take(i + 1).last() == list@[i as int]);
            }
            if found.is_none() && self.sessions[list[i]].repo_index == self.current_repo {
                found = Some(list[i]);
            }
            i += 1;
        }
        assert(list@.take(list.len() as int) =~= list@);
        found
    }

    fn pick_session(&self) -> (r: usize)
        ensures
            r == self@.session_to_select(),
    {
        let list: Vec<usize> = self.visible_session_indices();
        let known: Option<usize> = if self.current_repo < self.repos.len() {
            match self.selected_worktree_by_repo.get(
                &PathKey::new(self.repos[self.current_repo].repo.root.as_str()),
            ) {
                Some(path) => self.listed_path_position(&list, path.as_str()),
                None => None,
            }
        } else {
            None
        };
        match known {
            Some(index) => index,
            None => match self.listed_repo_position(&list) {
                Some(index) => index,
                None => {
                    if list.len() > 0 {
                        list[0]
                    } else {
                        self.sessions.len()
                    }
                },
            },
        }
    }

    /// Selects the worktree to show when a list comes up.
    pub fn restore_selected_worktree_for_repo(&mut self)
        ensures
            final(self)@ == old(self)@.with_selection_restored(),
    {
        self.selected = self.pick_session();
        self.selected_comment = 0;
    }

    // -----------------------------------------------------------------------
    // Panels
    // -----------------------------------------------------------------------

    fn focus_panel(&mut self, panel: PanelFocus)
        ensures
            final(self)@ == old(self)@.with_panel(panel),
    {
        self.main_scroll = 0;
        self.focused_panel = panel;
        self.main_focused = false;
    }

    /// Focuses the panel after the focused one.
    pub fn focus_next_panel(&mut self)
        ensures
            final(self)@ == old(self)@.with_panel(panel_after(old(self)@.focused_panel)),
    {
        let next: PanelFocus = match self.focused_panel {
            PanelFocus::Status => PanelFocus::Repos,
            PanelFocus::Repos => PanelFocus::Worktrees,
            PanelFocus::Worktrees => PanelFocus::Merges,
            PanelFocus::Merges => PanelFocus::Status,
        };
        self.focus_panel(next);
    }

    /// Focuses the panel before the focused one.
    pub fn focus_previous_panel(&mut self)
        ensures
            final(self)@ == old(self)@.with_panel(panel_before(old(self)@.focused_panel)),
    {
        let previous: PanelFocus = match self.focused_panel {
            PanelFocus::Status => PanelFocus::Merges,
            PanelFocus::Repos => PanelFocus::Status,
            PanelFocus::Worktrees => PanelFocus::Repos,
            PanelFocus::Merges => PanelFocus::Worktrees,
        };
        self.focus_panel(previous);
    }

    /// Focuses the status panel.
    pub fn focus_status(&mut self)
        ensures
            final(self)@ == old(self)@.with_panel(PanelFocus::Status),
    {
        self.focus_panel(PanelFocus::Status);
    }

    /// Focuses the repositories.
    pub fn focus_repos(&mut self)
        ensures
            final(self)@ == old(self)@.with_panel(PanelFocus::Repos),
    {
        self.focus_panel(PanelFocus::Repos);
    }

    /// Focuses the worktrees and restores their selection.
    pub fn focus_worktrees(&mut self)
        ensures
            final(self)@ == old(self)@.with_session_panel(PanelFocus::Worktrees),
    {
        self.focus_panel(PanelFocus::Worktrees);
        self.restore_selected_worktree_for_repo();
    }

    /// Focuses the worktrees that are being merged and restores their selection.
    pub fn focus_merges(&mut self)
        ensures
            final(self)@ == old(self)@.with_session_panel(PanelFocus::Merges),
    {
        self.focus_panel(PanelFocus::Merges);
        self.restore_selected_worktree_for_repo();
    }

    /// Focuses the main panel.
    pub fn focus_main(&mut self)
        ensures
            final(self)@ == (NavView { main_focused: true, ..old(self)@ }).with_request(),
    {
        self.main_focused = true;
        self.ensure_selected_repo_pr();
    }
}

/// Whether a point lies in a rectangle.
pub fn point_in_rect(x: u16, y: u16, rect: Rect) -> (r: bool)
    ensures
        r == inside(x, y, rect),
{
    x >= rect.x && x < rect.x.saturating_add(rect.width) && y >= rect.y && y
        < rect.y.saturating_add(rect.height)
}

/// A snapshot of the navigation, to come back to from a session.
#[derive(Debug)]
pub struct NavigationSnapshot {
    focused_panel: PanelFocus,
    main_focused: bool,
    main_scroll: usize,
    current_repo_root: Option<String>,
    selected_worktree_path: Option<String>,
    selected_comment: usize,
    worktree_list_mode: WorktreeListMode,
}

impl NavigationSnapshot {
    /// The snapshot as contracts speak of it.
    pub closed spec fn view(&self) -> SnapView {
        SnapView {
            focused_panel: self.focused_panel,
            main_focused: self.main_focused,
            main_scroll: self.main_scroll,
            current_repo_root: opt_text(self.current_repo_root),
            selected_worktree_path: opt_text(self.selected_worktree_path),
            selected_comment: self.selected_comment,
            worktree_list_mode: self.worktree_list_mode,
        }
    }
}

/// The first repository with a root.
pub fn find_repo_at_root(repos: &Vec<ManagedRepo>, root: &str) -> (r: Option<usize>)
    ensures
        r == repo_at_root(repos@, repos@.len(), crate::text::bare_path(root@)),
        r matches Some(index) ==> index < repos.len(),
{
    let mut found: Option<usize> = None;
    let mut i: usize = 0;
    while i < repos.len()
        invariant
            i <= repos.len(),
            found == repo_at_root(repos@, i as nat, crate::text::bare_path(root@)),
            found matches Some(index) ==> index < repos.len(),
        decreases repos.len() - i,
    {
        if found.is_none() && is_same_path(repos[i].repo.root.as_str(), root) {
            found = Some(i);
        }
        i += 1;
    }
    found
}

fn find_session_at_path(sessions: &Vec<Session>, path: &str) -> (r: Option<usize>)
    ensures
        r == session_at_path(sessions@, sessions@.len(), path@),
        r matches Some(index) ==> index < sessions.len(),
{
    let mut found: Option<usize> = None;
    let mut i: usize = 0;
    while i < sessions.len()
        invariant
            i <= sessions.len(),
            found == session_at_path(sessions@, i as nat, path@),
            found matches Some(index) ==> index < sessions.len(),
        decreases sessions.len() - i,
    {
        if found.is_none() && is_same_path(sessions[i].path.as_str(), path) {
            found = Some(i);
        }
        i += 1;
    }
    found
}

impl Navigation {
    /// A dashboard of repositories and worktrees, with the repositories focused and
    /// every selection pointing at something that is there.
    pub fn new(repos: Vec<ManagedRepo>, current_repo: usize, sessions: Vec<Session>) -> (r: Self)
        ensures
            r@ == start_view(repos@, current_repo, sessions@),
    {
        let start: usize = if current_repo < repos.len() {
            current_repo
        } else if repos.len() == 0 {
            0
        } else {
            repos.len() - 1
        };
        let root: Option<String> = if start < repos.len() {
            Some(repos[start].repo.root.clone())
        } else {
            None
        };
        let mut r = Navigation {
            repos,
            sessions,
            current_repo: start,
            selected: 0,
            selected_repo_root: root,
            focused_panel: PanelFocus::Repos,
            main_focused: false,
            main_scroll: 0,
            repo_main_view: RepoMainView::ChangeRequests,
            worktree_list_mode: WorktreeListMode::Repo,
            selected_comment: 0,
            selected_worktree_by_repo: Table::new(),
            selected_pr_by_repo: Table::new(),
            repo_filter: String::new(),
            worktree_filter: String::new(),
        };
        assert(r@.worktree_by_repo =~= Map::empty());
        assert(r@.pr_by_repo =~= Map::empty());
        assert(r@.repo_filter =~= Seq::empty());
        assert(r@.worktree_filter =~= Seq::empty());
        r.ensure_navigation_valid();
        r
    }

    /// The selected worktree, where it is in the list and its repository is known.
    pub fn selected_worktree_context(&self) -> (r: Option<usize>)
        ensures
            r == self@.selected_context(),
            r matches Some(index) ==> index < self.sessions.len(),
    {
        match self.selected_worktree_index() {
            Some(index) => {
                if self.sessions[index].repo_index < self.repos.len() {
                    Some(index)
                } else {
                    None
                }
            },
            None => None,
        }
    }

    /// The worktree of the current repository's default branch.
    pub fn selected_repo_default_session_index(&self) -> (r: Option<usize>)
        ensures
            r == self@.default_session(),
            r matches Some(index) ==> index < self.sessions.len(),
    {
        if self.current_repo >= self.repos.len() {
            return None;
        }
        let config = &self.repos[self.current_repo].config;
        let mut found: Option<usize> = None;
        let mut i: usize = 0;
        while i < self.sessions.len()
            invariant
                i <= self.sessions.len(),
                self.current_repo < self.repos.len(),
                *config == self.repos@[self.current_repo as int].config,
                found == session_on_branch(
                    self.sessions@,
                    i as nat,
                    self.current_repo,
                    config.default_branch@,
                ),
                found matches Some(index) ==> index < self.sessions.len(),
            decreases self.sessions.len() - i,
        {
            if found.is_none() && self.sessions[i].repo_index == self.current_repo
                && config.is_default_branch(self.sessions[i].branch.as_str()) {
                found = Some(i);
            }
            i += 1;
        }
        found
    }

    /// What the Enter key opens.
    pub fn open_tmux_session_target(&self, plan_open: bool) -> (r: OpenTmuxSessionTarget)
        ensures
            self@.enter_opens(plan_open, r),
    {
        match self.focused_panel {
            PanelFocus::Status => OpenTmuxSessionTarget::Blocked("status has no Enter action"),
            PanelFocus::Repos => {
                if self.main_focused && self.selected_repo_pr_summary().is_some() {
                    return OpenTmuxSessionTarget::RepoPr;
                }
                match self.selected_repo_default_session_index() {
                    Some(index) => OpenTmuxSessionTarget::RepoDefaultAgent(index),
                    None => OpenTmuxSessionTarget::Blocked(
                        "selected repository has no default worktree",
                    ),
                }
            },
            PanelFocus::Worktrees => {
                if self.main_focused && plan_open {
                    return OpenTmuxSessionTarget::PlanPhaseAgent;
                }
                if self.selected_worktree_context().is_none() {
                    return OpenTmuxSessionTarget::Blocked(
                        "selected repository has no visible worktrees",
                    );
                }
                OpenTmuxSessionTarget::WorktreeAgent
            },
            PanelFocus::Merges => {
                if self.selected_worktree_context().is_none() {
                    return OpenTmuxSessionTarget::Blocked(
                        "selected repository has no visible worktrees",
                    );
                }
                OpenTmuxSessionTarget::WorktreeAgent
            },
        }
    }

    // -----------------------------------------------------------------------
    // Moves
    // -----------------------------------------------------------------------

    /// Moves to the neighbour of the current repository in the list.
    pub fn move_repo_selection(&mut self, step: Step)
        ensures
            final(self)@ == (match next_to(old(self)@.repo_list(), old(self)@.current_repo, step) {
                Some(index) => old(self)@.with_repo(index),
                None => old(self)@,
            }),
    {
        let list: Vec<usize> = self.visible_repo_indices();
        match neighbour_in(&list, self.current_repo, step) {
            Some(index) => {
                self.select_repo(index);
            },
            None => {},
        }
    }

    /// Moves to the neighbour of the selected worktree in the list.
    pub fn move_worktree_selection(&mut self, step: Step)
        ensures
            final(self)@ == (match next_to(old(self)@.session_list(), old(self)@.selected, step) {
                Some(index) => old(self)@.with_session(index),
                None => old(self)@,
            }),
    {
        let list: Vec<usize> = self.visible_session_indices();
        match neighbour_in(&list, self.selected, step) {
            Some(index) => {
                self.select_worktree(index);
            },
            None => {},
        }
    }

    /// Moves to the neighbour of the selected change request, where the main panel
    /// shows change requests; says whether it does.
    pub fn move_repo_pr_selection(&mut self, step: Step) -> (r: bool)
        ensures
            r == old(self)@.moves_requests(),
            final(self)@ == (if r {
                old(self)@.with_request_moved(step)
            } else {
                old(self)@
            }),
    {
        match (self.focused_panel, self.repo_main_view) {
            (PanelFocus::Repos, RepoMainView::ChangeRequests) => {},
            _ => {
                return false;
            },
        }
        let list: Vec<usize> = self.current_repo_change_request_summaries();
        if list.len() == 0 {
            return false;
        }
        let at: usize = match self.selected_request_position(&list) {
            Some(found) => found,
            None => 0,
        };
        match neighbour_position(at, step, list.len()) {
            Some(next) => {
                let root = PathKey::new(self.repos[self.current_repo].repo.root.as_str());
                let ghost place = root@;
                match &self.repos[self.current_repo].pr_summaries[list[next]].identity {
                    Some(identity) => {
                        let chosen: String = identity.clone();
                        self.selected_pr_by_repo.insert(root, chosen);
                        assert(self@.pr_by_repo =~= old(self)@.pr_by_repo.insert(place, chosen@));
                    },
                    None => {},
                }
            },
            None => {},
        }
        true
    }

    /// How many comments the selected worktree's change request has.
    pub fn selected_comment_rows(&self) -> (r: usize)
        ensures
            r == self@.comment_count(),
    {
        match self.selected_worktree_index() {
            Some(index) => match &self.sessions[index].pr.details {
                Some(details) => details.comment_rows.len(),
                None => 0,
            },
            None => 0,
        }
    }

    /// Moves among the comments of the selected worktree; says whether there are
    /// any to move among.
    pub fn move_comment_selection(&mut self, step: Step) -> (r: bool)
        ensures
            r == old(self)@.moves_comments(),
            final(self)@ == old(self)@.with_comment_moved(step),
    {
        if !self.is_worktree_session_panel() {
            return false;
        }
        let count: usize = self.selected_comment_rows();
        if count == 0 {
            self.selected_comment = 0;
            return false;
        }
        let current: usize = if self.selected_comment < count {
            self.selected_comment
        } else {
            count - 1
        };
        self.selected_comment = match step {
            Step::Next => {
                if current + 1 < count {
                    current + 1
                } else {
                    current
                }
            },
            Step::Previous => {
                if current > 0 {
                    current - 1
                } else {
                    0
                }
            },
        };
        true
    }

    fn scroll_main(&mut self, step: Step)
        ensures
            final(self)@ == (NavView { main_scroll: old(self)@.scroll_after(step), ..old(self)@ }),
    {
        self.main_scroll = match step {
            Step::Next => self.main_scroll.saturating_add(1),
            Step::Previous => self.main_scroll.saturating_sub(1),
        };
    }

    /// Moves in the focused list, or in the main panel where that is focused; says
    /// whether the move is left to the steps of a plan.
    fn move_cursor(&mut self, step: Step) -> (r: bool)
        ensures
            final(self)@ == old(self)@.with_move(step),
            r == (old(self)@.main_focused && !old(self)@.moves_requests()
                && !old(self)@.moves_comments()),
    {
        if self.main_focused {
            if self.move_repo_pr_selection(step) {
                return false;
            }
            let moved: bool = self.move_comment_selection(step);
            self.scroll_main(step);
            return !moved;
        }
        match self.focused_panel {
            PanelFocus::Status => {},
            PanelFocus::Repos => {
                self.move_repo_selection(step);
            },
            PanelFocus::Worktrees => {
                self.move_worktree_selection(step);
            },
            PanelFocus::Merges => {
                self.move_worktree_selection(step);
            },
        }
        false
    }

    /// Moves down; says whether the move is left to the steps of a plan.
    pub fn move_down(&mut self) -> (r: bool)
        ensures
            final(self)@ == old(self)@.with_move(Step::Next),
            r == (old(self)@.main_focused && !old(self)@.moves_requests()
                && !old(self)@.moves_comments()),
    {
        self.move_cursor(Step::Next)
    }

    /// Moves up; says whether the move is left to the steps of a plan.
    pub fn move_up(&mut self) -> (r: bool)
        ensures
            final(self)@ == old(self)@.with_move(Step::Previous),
            r == (old(self)@.main_focused && !old(self)@.moves_requests()
                && !old(self)@.moves_comments()),
    {
        self.move_cursor(Step::Previous)
    }

    /// Switches the main panel of a repository to its change requests.
    pub fn move_left(&mut self)
        ensures
            final(self)@ == old(self)@.with_main_view(RepoMainView::ChangeRequests),
    {
        if self.main_focused {
            match self.focused_panel {
                PanelFocus::Repos => {
                    self.repo_main_view = RepoMainView::ChangeRequests;
                },
                _ => {},
            }
        }
    }

    /// Switches the main panel of a repository to its board.
    pub fn move_right(&mut self)
        ensures
            final(self)@ == old(self)@.with_main_view(RepoMainView::Kanban),
    {
        if self.main_focused {
            match self.focused_panel {
                PanelFocus::Repos => {
                    self.repo_main_view = RepoMainView::Kanban;
                },
                _ => {},
            }
        }
    }

    fn select_end(&mut self, last: bool)
        ensures
            final(self)@ == old(self)@.with_end(last),
    {
        if self.main_focused {
            return;
        }
        match self.focused_panel {
            PanelFocus::Status => {},
            PanelFocus::Repos => {
                let list: Vec<usize> = self.visible_repo_indices();
                if list.len() > 0 {
                    let index: usize = if last {
                        list[list.len() - 1]
                    } else {
                        list[0]
                    };
                    self.select_repo(index);
                }
            },
            _ => {
                let list: Vec<usize> = self.visible_session_indices();
                if list.len() > 0 {
                    let index: usize = if last {
                        list[list.len() - 1]
                    } else {
                        list[0]
                    };
                    self.select_worktree(index);
                }
            },
        }
    }

    /// Selects the first of the focused list.
    pub fn select_top_visible(&mut self)
        ensures
            final(self)@ == old(self)@.with_end(false),
    {
        self.select_end(false);
    }

    /// Selects the last of the focused list.
    pub fn select_bottom_visible(&mut self)
        ensures
            final(self)@ == old(self)@.with_end(true),
    {
        self.select_end(true);
    }

    /// Switches the list between one repository and all of them; says whether the
    /// mode changed and is to be kept for the next start.
    pub fn switch_worktree_list_mode(&mut self, mode: WorktreeListMode) -> (r: bool)
        ensures
            final(self)@ == old(self)@.with_mode(mode),
            r == old(self)@.changes_mode(mode),
    {
        if !self.is_worktree_session_panel() || self.worktree_list_mode == mode {
            return false;
        }
        let selected: Option<usize> = self.selected_worktree_index();
        self.worktree_list_mode = mode;
        match mode {
            WorktreeListMode::Global => {},
            WorktreeListMode::Repo => match selected {
                Some(index) => {
                    self.select_worktree(index);
                },
                None => {
                    self.restore_selected_worktree_for_repo();
                },
            },
        }
        true
    }

    // -----------------------------------------------------------------------
    // Coming back, and staying valid
    // -----------------------------------------------------------------------

    /// What to come back to.
    pub fn navigation_snapshot(&self) -> (r: NavigationSnapshot)
        ensures
            r@ == self@.snapshot(),
    {
        let root: Option<String> = if self.current_repo < self.repos.len() {
            Some(self.repos[self.current_repo].repo.root.clone())
        } else {
            None
        };
        let path: Option<String> = match self.selected_worktree_index() {
            Some(index) => Some(self.sessions[index].path.clone()),
            None => None,
        };
        NavigationSnapshot {
            focused_panel: self.focused_panel,
            main_focused: self.main_focused,
            main_scroll: self.main_scroll,
            current_repo_root: root,
            selected_worktree_path: path,
            selected_comment: self.selected_comment,
            worktree_list_mode: self.worktree_list_mode,
        }
    }

    fn restore_snapshot_repo(&mut self, root: &Option<String>)
        ensures
            final(self)@ == old(self)@.with_snapshot_repo(opt_text(*root)),
    {
        match root {
            Some(text) => match find_repo_at_root(&self.repos, text.as_str()) {
                Some(index) => {
                    self.current_repo = index;
                    self.selected_repo_root = Some(text.clone());
                },
                None => {},
            },
            None => {},
        }
    }

    fn restore_snapshot_session(&mut self, path: &Option<String>)
        ensures
            final(self)@ == old(self)@.with_snapshot_session(opt_text(*path)),
    {
        let known: Option<usize> = match path {
            Some(text) => find_session_at_path(&self.sessions, text.as_str()),
            None => None,
        };
        match known {
            Some(index) => {
                self.selected = index;
                let repo_index: usize = self.sessions[index].repo_index;
                if repo_index < self.repos.len() {
                    let root = PathKey::new(self.repos[repo_index].repo.root.as_str());
                    let ghost place = root@;
                    let at: String = self.sessions[index].path.clone();
                    self.selected_worktree_by_repo.insert(root, at);
                    assert(self@.worktree_by_repo =~= old(self)@.worktree_by_repo.insert(
                        place,
                        at@,
                    ));
                }
            },
            None => {
                if self.selected_worktree_index().is_none() {
                    self.restore_selected_worktree_for_repo();
                }
            },
        }
    }

    /// Goes back to a snapshot, as far as what it names is still there.
    pub fn restore_navigation_snapshot(&mut self, snapshot: NavigationSnapshot)
        ensures
            final(self)@ == old(self)@.with_snapshot(snapshot@),
    {
        self.worktree_list_mode = snapshot.worktree_list_mode;
        self.restore_snapshot_repo(&snapshot.current_repo_root);
        self.restore_snapshot_session(&snapshot.selected_worktree_path);
        self.selected_comment = snapshot.selected_comment;
        self.focused_panel = snapshot.focused_panel;
        self.main_focused = snapshot.main_focused;
        self.main_scroll = snapshot.main_scroll;
    }

    /// Makes every selection point at something that is there.
    pub fn ensure_navigation_valid(&mut self)
        ensures
            final(self)@ == old(self)@.with_valid_selections(),
    {
        if self.repos.len() == 0 {
            self.current_repo = 0;
            self.selected_repo_root = None;
            self.selected = self.sessions.len();
            return;
        }
        let known: usize = match &self.selected_repo_root {
            Some(root) => match find_repo_at_root(&self.repos, root.as_str()) {
                Some(index) => index,
                None => self.current_repo,
            },
            None => self.current_repo,
        };
        let near: usize = if known < self.repos.len() {
            known
        } else {
            self.repos.len() - 1
        };
        let list: Vec<usize> = self.visible_repo_indices();
        self.current_repo = if !holds(&list, near) && list.len() > 0 {
            list[0]
        } else {
            near
        };
        self.selected_repo_root = Some(self.repos[self.current_repo].repo.root.clone());
        assert(self@ =~= (NavView {
            current_repo: old(self)@.repo_to_stand_on(),
            selected_repo_root: self@.current_root(),
            ..old(self)@
        }));
        self.ensure_selected_repo_pr();
        self.restore_selected_worktree_for_repo();
    }

    /// Selects the repository bound to a key; says whether there is one.
    pub fn select_repo_by_key(&mut self, key: char) -> (r: bool)
        ensures
            r == (repo_with_key(old(self)@.repos, old(self)@.repos.len(), key) is Some),
            final(self)@ == old(self)@.with_repo_key(key),
    {
        let mut found: Option<usize> = None;
        let mut i: usize = 0;
        while i < self.repos.len()
            invariant
                i <= self.repos.len(),
                self@ == old(self)@,
                found == repo_with_key(self.repos@, i as nat, key),
            decreases self.repos.len() - i,
        {
            if found.is_none() && self.repos[i].key == Some(key) {
                found = Some(i);
            }
            i += 1;
        }
        match found {
            Some(index) => {
                let list: Vec<usize> = self.visible_repo_indices();
                if !holds(&list, index) {
                    self.repo_filter = String::new();
                    assert(self@.repo_filter =~= Seq::empty());
                }
                self.select_repo(index);
                true
            },
            None => false,
        }
    }

    /// Applies a filter to the focused list; the status panel has none.
    pub fn apply_filter(&mut self, filter: String)
        ensures
            final(self)@ == old(self)@.with_filter(filter@),
    {
        match self.focused_panel {
            PanelFocus::Status => {},
            PanelFocus::Repos => {
                self.repo_filter = filter;
                self.ensure_navigation_valid();
            },
            _ => {
                self.worktree_filter = filter;
                self.restore_selected_worktree_for_repo();
            },
        }
    }

    // -----------------------------------------------------------------------
    // Visibility
    // -----------------------------------------------------------------------

    /// The worktree whose visibility is to change, and its new visibility.
    pub fn adjust_selected_visibility(&self, delta: i16) -> (r: Option<(usize, i16)>)
        ensures
            match self@.selected_context() {
                Some(index) => r == Some(
                    (index, adjusted(self@.sessions[index as int].visibility, delta) as i16),
                ),
                None => r is None,
            },
    {
        match self.selected_worktree_context() {
            Some(index) => {
                let sum: i32 = self.sessions[index].visibility as i32 + delta as i32;
                let visibility: i16 = if sum < -9 {
                    -9
                } else if sum > 9 {
                    9
                } else {
                    sum as i16
                };
                Some((index, visibility))
            },
            None => None,
        }
    }

    /// Sets the visibility of a worktree.
    pub fn set_visibility(&mut self, index: usize, visibility: i16)
        ensures
            final(self)@ == old(self)@.with_visibility(index, visibility),
    {
        if index < self.sessions.len() {
            let mut session: Session = self.sessions.remove(index);
            session.visibility = visibility;
            self.sessions.insert(index, session);
            assert(self@.sessions =~= old(self)@.sessions.update(
                index as int,
                Session { visibility, ..old(self)@.sessions[index as int] },
            ));
        }
    }

    // -----------------------------------------------------------------------
    // The mouse
    // -----------------------------------------------------------------------

    fn handle_mouse_click(&mut self, x: u16, y: u16, area: Rect, layout: SidebarLayout)
        ensures
            final(self)@ == old(self)@.with_click(x, y, area, layout),
    {
        let body: u16 = area.height.saturating_sub(1);
        if x >= layout.width || y >= body {
            return;
        }
        if point_in_rect(x, y, layout.repos) {
            let row: usize = y.saturating_sub(layout.repos.y).saturating_sub(1) as usize;
            let list: Vec<usize> = self.visible_repo_indices();
            if row < list.len() {
                self.select_repo(list[row]);
                self.focus_repos();
            }
            return;
        }
        if point_in_rect(x, y, layout.worktrees) {
            let row: usize = y.saturating_sub(layout.worktrees.y).saturating_sub(2) as usize;
            let list: Vec<usize> = self.visible_worktree_indices();
            if row < list.len() {
                self.select_worktree(list[row]);
                self.focus_worktrees();
            }
            return;
        }
        if point_in_rect(x, y, layout.merges) {
            let row: usize = y.saturating_sub(layout.merges.y).saturating_sub(2) as usize;
            let list: Vec<usize> = self.visible_merge_indices();
            if row < list.len() {
                self.select_worktree(list[row]);
                self.focus_merges();
            }
        }
    }

    /// Takes a mouse event; says whether it did something.
    pub fn handle_mouse_event(
        &mut self,
        kind: MouseKind,
        x: u16,
        y: u16,
        area: Rect,
        layout: SidebarLayout,
    ) -> (r: bool)
        ensures
            r == old(self)@.takes_mouse(kind, x, y, area, layout),
            final(self)@ == old(self)@.with_mouse(kind, x, y, area, layout),
    {
        match kind {
            MouseKind::LeftDown => {
                self.handle_mouse_click(x, y, area, layout);
                true
            },
            MouseKind::Unused => false,
            _ => {
                let body: u16 = area.height.saturating_sub(1);
                if x < layout.width || x >= area.width || y >= body {
                    return false;
                }
                match kind {
                    MouseKind::ScrollDown => {
                        self.scroll_main(Step::Next);
                    },
                    _ => {
                        self.scroll_main(Step::Previous);
                    },
                }
                true
            },
        }
    }
}

} // verus!
