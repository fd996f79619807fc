//! What the dashboard shows: the rows of its lists, the hints of a leader key, and the
//! picture of the selected agent's terminal.
use vstd::prelude::*;

use crate::dialog::choice_list;
use crate::dialog::ChoiceList;
use crate::dialog::ChoiceView;
use crate::dialog::KeyChoice;
use crate::git_actions::git_choice;
use crate::git_actions::GitAction;
use crate::keys::GenerationView;
use crate::keys::PathKey;
use crate::keys::WorktreeGeneration;
use crate::keys::WorktreeSessionKey;
use crate::model::AgentState;
use crate::model::ManagedRepo;
use crate::model::PrCache;
use crate::model::PrSummary;
use crate::model::Session;
use crate::model::WtColumn;
use crate::navigation::worktree_updated_label;
use crate::navigation::NavView;
use crate::navigation::Navigation;
use crate::navigation::PanelFocus;
use crate::run_book::BookView;
use crate::run_book::RunBook;
use crate::runs::AutoRunStatus;
use crate::runs::PlanRunStatus;
use crate::status::repo_health_label;
use crate::status::HealthIcons;
use crate::table::Key;
use crate::text::copy_texts;
use crate::text::owned;
use crate::text::same;
use crate::tracker::JobTracker;
use crate::tracker::TrackerView;

verus! {

/// A row of the repository list.
#[derive(Debug)]
pub struct RepoRow {
    pub label: String,
    pub root: String,
    pub key: Option<char>,
    pub health: String,
    pub selected: bool,
}

/// A row of the repository list, as contracts speak of it.
#[verifier::ext_equal]
pub struct RepoRowView {
    pub label: Seq<char>,
    pub root: Seq<char>,
    pub key: Option<char>,
    pub health: Seq<char>,
    pub selected: bool,
}

impl RepoRow {
    /// The row as contracts speak of it.
    pub open spec fn view(&self) -> RepoRowView {
        RepoRowView {
            label: self.label@,
            root: self.root@,
            key: self.key,
            health: self.health@,
            selected: self.selected,
        }
    }
}

/// The rows as contracts speak of them.
pub open spec fn repo_row_views(rows: Seq<RepoRow>) -> Seq<RepoRowView> {
    Seq::new(rows.len(), |i: int| rows[i]@)
}

/// The row of a repository.
pub open spec fn repo_row(nav: NavView, icons: HealthIcons, index: usize) -> RepoRowView {
    let repo = nav.repos[index as int];
    RepoRowView {
        label: repo.label@,
        root: repo.repo.root@,
        key: repo.key,
        health: crate::status::health_text(
            crate::status::figures_upto(nav, Some(index), nav.sessions.len()),
            icons,
        ),
        selected: index == nav.current_repo,
    }
}

/// The rows of the repository list.
pub open spec fn repo_rows_of(nav: NavView, icons: HealthIcons) -> Seq<RepoRowView> {
    Seq::new(nav.repo_list().len(), |i: int| repo_row(nav, icons, nav.repo_list()[i]))
}

/// The rows of the repository list.
pub fn repo_rows(navigation: &Navigation, icons: &HealthIcons) -> (r: Vec<RepoRow>)
    ensures
        repo_row_views(r@) == repo_rows_of(navigation@, *icons),
{
    let list: Vec<usize> = navigation.visible_repo_indices();
    let ghost wanted = repo_rows_of(navigation@, *icons);
    let mut out: Vec<RepoRow> = Vec::new();
    let mut i: usize = 0;
    assert(repo_row_views(out@) =~= wanted.take(0));
    while i < list.len()
        invariant
            i <= list.len(),
            list@ == navigation@.repo_list(),
            forall|k: int| 0 <= k < list.len() ==> (#[trigger] list@[k]) < navigation.repos.len(),
            wanted == repo_rows_of(navigation@, *icons),
            repo_row_views(out@) == wanted.take(i as int),
        decreases list.len() - i,
    {
        let ghost before = repo_row_views(out@);
        let index: usize = list[i];
        let repo: &ManagedRepo = &navigation.repos[index];
        out.push(
            RepoRow {
                label: repo.label.clone(),
                root: repo.repo.root.clone(),
                key: repo.key,
                health: repo_health_label(navigation, index, icons),
                selected: index == navigation.current_repo,
            },
        );
        assert(repo_row_views(out@) =~= before.push(wanted[i as int]));
        assert(repo_row_views(out@) =~= wanted.take(i + 1));
        i += 1;
    }
    assert(wanted.take(list.len() as int) =~= wanted);
    out
}

/// What a worktree is.
#[derive(Clone, Copy, Debug, PartialEq, Eq, Structural)]
pub enum WorktreeKind {
    DefaultBranch,
    Detached,
    FeatureWorktree,
}

/// A row of the worktree list.
#[derive(Debug)]
pub struct WorktreeRow<'a> {
    pub session_index: usize,
    pub repo_label: String,
    pub repo_root: String,
    pub worktree_path: String,
    pub branch: String,
    pub visibility: i16,
    pub kind: WorktreeKind,
    pub agent_state: AgentState,
    pub status_label: String,
    pub pr: &'a PrCache,
    pub wt_columns: &'a Vec<WtColumn>,
    pub auto_status: Option<AutoRunStatus>,
    pub plan_status: Option<PlanRunStatus>,
    pub updated_label: String,
    pub unseen_comments: bool,
    pub prompt_summary: String,
    pub classification: String,
    pub selected: bool,
}

/// A row of the worktree list, as contracts speak of it.
#[verifier::ext_equal]
pub struct WorktreeRowView {
    pub session_index: usize,
    pub repo_label: Seq<char>,
    pub repo_root: Seq<char>,
    pub worktree_path: Seq<char>,
    pub branch: Seq<char>,
    pub visibility: i16,
    pub kind: WorktreeKind,
    pub agent_state: AgentState,
    pub status_label: Seq<char>,
    pub pr: PrCache,
    pub wt_columns: Seq<WtColumn>,
    pub auto_status: Option<AutoRunStatus>,
    pub plan_status: Option<PlanRunStatus>,
    pub updated_label: Seq<char>,
    pub unseen_comments: bool,
    pub prompt_summary: Seq<char>,
    pub classification: Seq<char>,
    pub selected: bool,
}

impl<'a> WorktreeRow<'a> {
    /// The row as contracts speak of it.
    pub open spec fn view(&self) -> WorktreeRowView {
        WorktreeRowView {
            session_index: self.session_index,
            repo_label: self.repo_label@,
            repo_root: self.repo_root@,
            worktree_path: self.worktree_path@,
            branch: self.branch@,
            visibility: self.visibility,
            kind: self.kind,
            agent_state: self.agent_state,
            status_label: self.status_label@,
            pr: *self.pr,
            wt_columns: self.wt_columns@,
            auto_status: self.auto_status,
            plan_status: self.plan_status,
            updated_label: self.updated_label@,
            unseen_comments: self.unseen_comments,
            prompt_summary: self.prompt_summary@,
            classification: self.classification@,
            selected: self.selected,
        }
    }
}

/// The rows as contracts speak of them.
pub open spec fn worktree_row_views(rows: Seq<WorktreeRow<'_>>) -> Seq<WorktreeRowView> {
    Seq::new(rows.len(), |i: int| rows[i]@)
}

/// What a worktree is.
pub open spec fn kind_of(nav: NavView, session: Session) -> WorktreeKind {
    if crate::status::is_on_default(nav, session) {
        WorktreeKind::DefaultBranch
    } else if session.branch@ == crate::git_actions::detached() {
        WorktreeKind::Detached
    } else {
        WorktreeKind::FeatureWorktree
    }
}

/// The status of the run of automatic work of a worktree, where one is known.
pub open spec fn auto_status_at(book: BookView, path: Seq<char>) -> Option<AutoRunStatus> {
    match book.auto_run_at(path) {
        Some(id) => Some(book.auto_runs[id].status),
        None => None,
    }
}

/// The status of the run of a plan that is shown for a worktree, where it is known.
pub open spec fn plan_status_at(book: BookView, path: Seq<char>) -> Option<PlanRunStatus> {
    match crate::run_book::value_at(book.active_plan_runs, crate::text::bare_path(path)) {
        Some(id) => if book.plan_runs.dom().contains(id) {
            Some(book.plan_runs[id].status)
        } else {
            None
        },
        None => None,
    }
}

/// The row of a worktree.
pub open spec fn worktree_row(nav: NavView, book: BookView, index: usize) -> WorktreeRowView {
    let session = nav.sessions[index as int];
    let known = session.repo_index < nav.repos.len();
    WorktreeRowView {
        session_index: index,
        repo_label: if known {
            nav.repos[session.repo_index as int].label@
        } else {
            session.repo_label@
        },
        repo_root: if known {
            nav.repos[session.repo_index as int].repo.root@
        } else {
            Seq::empty()
        },
        worktree_path: session.path_display@,
        branch: session.branch@,
        visibility: session.visibility,
        kind: kind_of(nav, session),
        agent_state: session.agent_state,
        status_label: session.status_label@,
        pr: session.pr,
        wt_columns: session.wt_columns@,
        auto_status: auto_status_at(book, session.path@),
        plan_status: plan_status_at(book, session.path@),
        updated_label: crate::navigation::updated_label(session),
        unseen_comments: session.unseen_comments,
        prompt_summary: session.prompt_summary@,
        classification: session.classification@,
        selected: nav.selected_session() == Some(index),
    }
}

/// The rows of the worktree list.
pub open spec fn worktree_rows_of(nav: NavView, book: BookView) -> Seq<WorktreeRowView> {
    Seq::new(nav.session_list().len(), |i: int| worktree_row(nav, book, nav.session_list()[i]))
}

fn auto_status_of(book: &RunBook, path: &str) -> (r: Option<AutoRunStatus>)
    ensures
        r == auto_status_at(book@, path@),
{
    let key = PathKey::new(path);
    match book.active_auto_runs.get(&key) {
        Some(id) => {
            assert(book@.active_auto_runs[key@] == id@);
            match book.auto_runs.get(id) {
                Some(run) => {
                    assert(book@.auto_runs[id@] == run@);
                    Some(run.status)
                },
                None => None,
            }
        },
        None => None,
    }
}

fn plan_status_of(book: &RunBook, path: &str) -> (r: Option<PlanRunStatus>)
    ensures
        r == plan_status_at(book@, path@),
{
    let key = PathKey::new(path);
    match book.active_plan_runs.get(&key) {
        Some(id) => {
            assert(book@.active_plan_runs[key@] == id@);
            match book.plan_runs.get(id) {
                Some(run) => {
                    assert(book@.plan_runs[id@] == run@);
                    Some(run.status)
                },
                None => None,
            }
        },
        None => None,
    }
}

fn is_selected(navigation: &Navigation, index: usize) -> (r: bool)
    ensures
        r == (navigation@.selected_session() == Some(index)),
{
    match navigation.selected_worktree_index() {
        Some(selected) => selected == index,
        None => false,
    }
}

fn row_of<'a>(navigation: &'a Navigation, book: &RunBook, index: usize) -> (r: WorktreeRow<'a>)
    requires
        index < navigation.sessions.len(),
    ensures
        r@ == worktree_row(navigation@, book@, index),
{
    let session: &Session = &navigation.sessions[index];
    let known: bool = session.repo_index < navigation.repos.len();
    let repo_label: String = if known {
        navigation.repos[session.repo_index].label.clone()
    } else {
        session.repo_label.clone()
    };
    let repo_root: String = if known {
        navigation.repos[session.repo_index].repo.root.clone()
    } else {
        String::new()
    };
    assert(!known ==> repo_root@ =~= Seq::<char>::empty());
    let kind: WorktreeKind = if known
        && navigation.repos[session.repo_index].config.is_default_branch(session.branch.as_str()) {
        WorktreeKind::DefaultBranch
    } else if same(session.branch.as_str(), "(detached)") {
        WorktreeKind::Detached
    } else {
        WorktreeKind::FeatureWorktree
    };
    WorktreeRow {
        session_index: index,
        repo_label,
        repo_root,
        worktree_path: session.path_display.clone(),
        branch: session.branch.clone(),
        visibility: session.visibility,
        kind,
        agent_state: session.agent_state,
        status_label: session.status_label.clone(),
        pr: &session.pr,
        wt_columns: &session.wt_columns,
        auto_status: auto_status_of(book, session.path.as_str()),
        plan_status: plan_status_of(book, session.path.as_str()),
        updated_label: worktree_updated_label(session),
        unseen_comments: session.unseen_comments,
        prompt_summary: session.prompt_summary.clone(),
        classification: session.classification.clone(),
        selected: is_selected(navigation, index),
    }
}

/// The rows of the worktree list.
pub fn worktree_rows<'a>(navigation: &'a Navigation, book: &RunBook) -> (r: Vec<WorktreeRow<'a>>)
    ensures
        worktree_row_views(r@) == worktree_rows_of(navigation@, book@),
{
    let list: Vec<usize> = navigation.visible_session_indices();
    let ghost wanted = worktree_rows_of(navigation@, book@);
    let mut out: Vec<WorktreeRow<'a>> = Vec::new();
    let mut i: usize = 0;
    assert(worktree_row_views(out@) =~= wanted.take(0));
    while i < list.len()
        invariant
            i <= list.len(),
            list@ == navigation@.session_list(),
            forall|k: int|
                0 <= k < list.len() ==> (#[trigger] list@[k]) < navigation.sessions.len(),
            wanted == worktree_rows_of(navigation@, book@),
            worktree_row_views(out@) == wanted.take(i as int),
        decreases list.len() - i,
    {
        let ghost before = worktree_row_views(out@);
        out.push(row_of(navigation, book, list[i]));
        assert(worktree_row_views(out@) =~= before.push(wanted[i as int]));
        assert(worktree_row_views(out@) =~= wanted.take(i + 1));
        i += 1;
    }
    assert(wanted.take(list.len() as int) =~= wanted);
    out
}

/// A row of the list of a repository's change requests.
#[derive(Debug)]
pub struct RepoPrRow<'a> {
    /// The position of the change request among those of the repository.
    pub position: usize,
    pub repo_label: String,
    pub summary: &'a PrSummary,
    pub has_worktree: bool,
    pub selected: bool,
}

/// A row of the list of change requests, as contracts speak of it.
#[verifier::ext_equal]
pub struct RepoPrRowView {
    pub position: usize,
    pub repo_label: Seq<char>,
    pub summary: PrSummary,
    pub has_worktree: bool,
    pub selected: bool,
}

impl<'a> RepoPrRow<'a> {
    /// The row as contracts speak of it.
    pub open spec fn view(&self) -> RepoPrRowView {
        RepoPrRowView {
            position: self.position,
            repo_label: self.repo_label@,
            summary: *self.summary,
            has_worktree: self.has_worktree,
            selected: self.selected,
        }
    }
}

/// The rows as contracts speak of them.
pub open spec fn request_row_views(rows: Seq<RepoPrRow<'_>>) -> Seq<RepoPrRowView> {
    Seq::new(rows.len(), |i: int| rows[i]@)
}

/// Whether a worktree of a repository belongs to a change request.
pub open spec fn has_worktree(nav: NavView, repo_index: usize, number: u64) -> bool {
    exists|i: int|
        0 <= i < nav.sessions.len() && (#[trigger] nav.sessions[i]).repo_index == repo_index
            && nav.sessions[i].pr.summary is Some && nav.sessions[i].pr.summary->0.number == number
}

/// The row of a change request of the current repository.
pub open spec fn request_row(nav: NavView, position: usize) -> RepoPrRowView {
    let repo = nav.repos[nav.current_repo as int];
    let summary = repo.pr_summaries@[position as int];
    RepoPrRowView {
        position,
        repo_label: repo.label@,
        summary,
        has_worktree: has_worktree(nav, nav.current_repo, summary.number),
        selected: nav.selected_number() == Some(summary.number),
    }
}

/// The rows of the open change requests of the current repository.
pub open spec fn request_rows_of(nav: NavView) -> Seq<RepoPrRowView> {
    Seq::new(
        nav.current_open_requests().len(),
        |i: int| request_row(nav, nav.current_open_requests()[i]),
    )
}

/// The rows of change requests are exactly those of the open ones, in their order.
pub proof fn law_open_requests_have_rows(nav: NavView, position: int)
    requires
        nav.current_repo < nav.repos.len(),
        0 <= position < nav.repos[nav.current_repo as int].pr_summaries@.len(),
    ensures
        crate::git_actions::is_open(
            nav.repos[nav.current_repo as int].pr_summaries@[position],
        ) <==> exists|k: int|
            0 <= k < request_rows_of(nav).len() && (#[trigger] request_rows_of(nav)[k]).position
                == position,
        forall|j: int, k: int|
            0 <= j < k < request_rows_of(nav).len() ==> (#[trigger] request_rows_of(
                nav,
            )[j]).position < (#[trigger] request_rows_of(nav)[k]).position,
{
    let summaries = nav.repos[nav.current_repo as int].pr_summaries@;
    let list = nav.current_open_requests();
    assert(summaries.len() == nav.repos[nav.current_repo as int].pr_summaries.len());
    crate::navigation::lemma_open_requests(summaries, summaries.len());
    assert forall|k: int| 0 <= k < list.len() implies (#[trigger] request_rows_of(nav)[k]).position
        == list[k] by {}
    if crate::git_actions::is_open(summaries[position]) {
        let k = choose|k: int| 0 <= k < list.len() && #[trigger] list[k] == position;
        assert(request_rows_of(nav)[k].position == position);
    }
}

fn request_has_worktree(navigation: &Navigation, number: u64) -> (r: bool)
    ensures
        r == has_worktree(navigation@, navigation@.current_repo, number),
{
    let mut i: usize = 0;
    while i < navigation.sessions.len()
        invariant
            i <= navigation.sessions.len(),
            forall|k: int|
                0 <= k < i ==> !((#[trigger] navigation@.sessions[k]).repo_index
                    == navigation@.current_repo && navigation@.sessions[k].pr.summary is Some
                    && navigation@.sessions[k].pr.summary->0.number == number),
        decreases navigation.sessions.len() - i,
    {
        let session: &Session = &navigation.sessions[i];
        let matched: bool = match &session.pr.summary {
            Some(summary) => summary.number == number,
            None => false,
        };
        assert(navigation@.sessions[i as int] == *session);
        if matched && session.repo_index == navigation.current_repo {
            return true;
        }
        i += 1;
    }
    false
}

/// The rows of the open change requests of the current repository.
pub fn repo_pr_rows(navigation: &Navigation) -> (r: Vec<RepoPrRow<'_>>)
    ensures
        request_row_views(r@) == request_rows_of(navigation@),
{
    let list: Vec<usize> = navigation.current_repo_open_pr_summaries();
    let selected: Option<u64> = navigation.selected_repo_pr_number();
    let ghost wanted = request_rows_of(navigation@);
    let mut out: Vec<RepoPrRow<'_>> = Vec::new();
    let mut i: usize = 0;
    assert(request_row_views(out@) =~= wanted.take(0));
    while i < list.len()
        invariant
            i <= list.len(),
            list@ == navigation@.current_open_requests(),
            selected == navigation@.selected_number(),
            list.len() > 0 ==> navigation.current_repo < navigation.repos.len(),
            forall|k: int|
                0 <= k < list.len() ==> (#[trigger] list@[k])
                    < navigation.repos@[navigation.current_repo as int].pr_summaries.len(),
            wanted == request_rows_of(navigation@),
            request_row_views(out@) == wanted.take(i as int),
        decreases list.len() - i,
    {
        let ghost before = request_row_views(out@);
        let position: usize = list[i];
        let summary: &PrSummary = &navigation.repos[navigation.current_repo].pr_summaries[position];
        out.push(
            RepoPrRow {
                position,
                repo_label: navigation.repos[navigation.current_repo].label.clone(),
                summary,
                has_worktree: request_has_worktree(navigation, summary.number),
                selected: selected == Some(summary.number),
            },
        );
        assert(request_row_views(out@) =~= before.push(wanted[i as int]));
        assert(request_row_views(out@) =~= wanted.take(i + 1));
        i += 1;
    }
    assert(wanted.take(list.len() as int) =~= wanted);
    out
}

/// Which hint the dashboard shows after a leader key.
#[derive(Clone, Copy, Debug, PartialEq, Eq, Structural)]
pub enum LeaderHint {
    Root,
    Git,
    Workflow,
}

/// Which of the programs that actions need are there.
#[derive(Clone, Copy, Debug)]
pub struct Programs {
    pub lazygit: bool,
    pub gh: bool,
}

/// The hints after the leader key.
pub open spec fn root_hints(panel: PanelFocus) -> Seq<ChoiceView> {
    match panel {
        PanelFocus::Status => seq![
            crate::dialog::choice("g"@, "git actions"@),
            crate::dialog::choice("p"@, "plan actions"@),
            crate::dialog::choice("0"@, "focus main"@),
        ],
        PanelFocus::Repos => seq![
            crate::dialog::choice("g"@, "git actions"@),
            crate::dialog::choice("C"@, "open remote PR"@),
            crate::dialog::choice("W"@, "worktree columns"@),
            crate::dialog::choice("0"@, "focus main"@),
            crate::dialog::choice("space/enter"@, "open default tmux"@),
        ],
        _ => seq![
            crate::dialog::choice("g"@, "git actions"@),
            crate::dialog::choice("p"@, "plan actions"@),
            crate::dialog::choice("0"@, "focus main"@),
            crate::dialog::choice("enter"@, "terminal"@),
            crate::dialog::choice("space"@, "agent if valid"@),
        ],
    }
}

/// The hints after the leader key for actions on branches and change requests.
pub open spec fn git_hints(nav: NavView, programs: Programs) -> Seq<ChoiceView> {
    match nav.focused_panel {
        PanelFocus::Status => seq![
            crate::git_actions::choice_for(
                nav,
                GitAction::LazyGit,
                programs.lazygit,
                "g"@,
                "lazygit after focusing repos/worktrees"@,
            ),
        ],
        PanelFocus::Repos => seq![
            crate::git_actions::choice_for(
                nav,
                GitAction::LazyGit,
                programs.lazygit,
                "g"@,
                "lazygit"@,
            ),
            crate::git_actions::choice_for(
                nav,
                GitAction::SubmitReview,
                programs.gh,
                "v"@,
                "review selected PR"@,
            ),
            crate::dialog::choice("p"@, "pull default branch"@),
        ],
        _ => seq![
            crate::dialog::choice("a"@, "auto flow"@),
            crate::git_actions::choice_for(
                nav,
                GitAction::LazyGit,
                programs.lazygit,
                "g"@,
                "lazygit"@,
            ),
            crate::git_actions::choice_for(
                nav,
                GitAction::Push,
                programs.lazygit,
                "P"@,
                "push/create PR"@,
            ),
            crate::git_actions::choice_for(
                nav,
                GitAction::OpenPr,
                programs.lazygit,
                "o"@,
                "open PR"@,
            ),
            crate::git_actions::choice_for(nav, GitAction::Merge, programs.lazygit, "M"@, "merge"@),
            crate::git_actions::choice_for(
                nav,
                GitAction::CiFix,
                programs.lazygit,
                "c"@,
                "CI repair"@,
            ),
            crate::git_actions::choice_for(
                nav,
                GitAction::ReviewFix,
                programs.lazygit,
                "f"@,
                "review repair"@,
            ),
            crate::git_actions::choice_for(
                nav,
                GitAction::ResolveAllComments,
                programs.lazygit,
                "R"@,
                "resolve all comments"@,
            ),
        ],
    }
}

fn git_list(choices: Vec<KeyChoice>) -> (r: ChoiceList)
    ensures
        r.title@ == "Git Actions"@,
        r.options() == Seq::new(choices@.len(), |i: int| choices@[i]@),
{
    ChoiceList { title: owned("Git Actions"), choices }
}

/// The hints that the dashboard shows after a leader key.
pub fn leader_hint_model(
    navigation: &Navigation,
    hint: Option<LeaderHint>,
    programs: Programs,
) -> (r: Option<ChoiceList>)
    ensures
        match hint {
            Some(LeaderHint::Root) => r matches Some(list) && list.title@ == "Shortcuts"@
                && list.options() == root_hints(navigation@.focused_panel),
            Some(LeaderHint::Git) => r matches Some(list) && list.title@ == "Git Actions"@
                && list.options() == git_hints(navigation@, programs),
            Some(LeaderHint::Workflow) => r is None,
            None => r is None,
        },
{
    match hint {
        Some(LeaderHint::Root) => {
            let mut pairs: Vec<(&str, &str)> = Vec::new();
            pairs.push(("g", "git actions"));
            if navigation.focused_panel == PanelFocus::Repos {
                pairs.push(("C", "open remote PR"));
                pairs.push(("W", "worktree columns"));
                pairs.push(("0", "focus main"));
                pairs.push(("space/enter", "open default tmux"));
            } else {
                pairs.push(("p", "plan actions"));
                pairs.push(("0", "focus main"));
                if navigation.focused_panel != PanelFocus::Status {
                    pairs.push(("enter", "terminal"));
                    pairs.push(("space", "agent if valid"));
                }
            }
            let list: ChoiceList = choice_list("Shortcuts", &pairs);
            assert(list.options() =~= root_hints(navigation@.focused_panel));
            Some(list)
        },
        Some(LeaderHint::Git) => {
            let mut choices: Vec<KeyChoice> = Vec::new();
            let lazygit: bool = programs.lazygit;
            if navigation.focused_panel == PanelFocus::Status {
                choices.push(
                    git_choice(
                        navigation,
                        GitAction::LazyGit,
                        lazygit,
                        "g",
                        "lazygit after focusing repos/worktrees",
                    ),
                );
            } else if navigation.focused_panel == PanelFocus::Repos {
                choices.push(git_choice(navigation, GitAction::LazyGit, lazygit, "g", "lazygit"));
                choices.push(
                    git_choice(
                        navigation,
                        GitAction::SubmitReview,
                        programs.gh,
                        "v",
                        "review selected PR",
                    ),
                );
                choices.push(KeyChoice::new("p", "pull default branch"));
            } else {
                choices.push(KeyChoice::new("a", "auto flow"));
                choices.push(git_choice(navigation, GitAction::LazyGit, lazygit, "g", "lazygit"));
                choices.push(
                    git_choice(navigation, GitAction::Push, lazygit, "P", "push/create PR"),
                );
                choices.push(git_choice(navigation, GitAction::OpenPr, lazygit, "o", "open PR"));
                choices.push(git_choice(navigation, GitAction::Merge, lazygit, "M", "merge"));
                choices.push(git_choice(navigation, GitAction::CiFix, lazygit, "c", "CI repair"));
                choices.push(
                    git_choice(navigation, GitAction::ReviewFix, lazygit, "f", "review repair"),
                );
                choices.push(
                    git_choice(
                        navigation,
                        GitAction::ResolveAllComments,
                        lazygit,
                        "R",
                        "resolve all comments",
                    ),
                );
            }
            let list: ChoiceList = git_list(choices);
            assert(list.options() =~= git_hints(navigation@, programs));
            Some(list)
        },
        Some(LeaderHint::Workflow) => None,
        None => None,
    }
}

/// A picture of the terminal of an agent, or why there is none.
#[derive(Debug)]
pub struct TmuxPortalCapture {
    pub key: WorktreeGeneration,
    pub result: Result<Vec<String>, String>,
}

/// The terminal that is looked at, with the last picture that was taken.
#[derive(Debug)]
pub struct TmuxPortalSnapshot {
    pub key: WorktreeGeneration,
    pub capture: Option<TmuxPortalCapture>,
}

/// What is shown of an agent's terminal.
#[derive(Debug)]
pub enum TmuxPortalState {
    Loading,
    Unavailable,
    Ready(Vec<String>),
}

/// What is shown of an agent's terminal, as contracts speak of it.
#[verifier::ext_equal]
pub enum PortalStateView {
    Loading,
    Unavailable,
    Ready(Seq<Seq<char>>),
}

/// The picture of an agent's terminal under the name of its branch.
#[derive(Debug)]
pub struct TmuxPortalModel {
    pub branch: String,
    pub state: TmuxPortalState,
}

/// The picture of an agent's terminal, as contracts speak of it.
#[verifier::ext_equal]
pub struct PortalView {
    pub branch: Seq<char>,
    pub state: PortalStateView,
}

impl TmuxPortalModel {
    /// The picture as contracts speak of it.
    pub open spec fn view(&self) -> PortalView {
        PortalView {
            branch: self.branch@,
            state: match self.state {
                TmuxPortalState::Loading => PortalStateView::Loading,
                TmuxPortalState::Unavailable => PortalStateView::Unavailable,
                TmuxPortalState::Ready(lines) => PortalStateView::Ready(
                    crate::text::texts(lines@),
                ),
            },
        }
    }
}

/// The terminal that the selected worktree's picture is of.
pub open spec fn portal_key(nav: NavView, tracker: TrackerView) -> Option<GenerationView> {
    if nav.focused_panel is Worktrees {
        match nav.selected_context() {
            Some(index) => {
                let session = nav.sessions[index as int];
                let worktree = crate::keys::identity_view(
                    nav.repos[session.repo_index as int].repo.root@,
                    session,
                );
                if tracker.tmux_generations.dom().contains(worktree) {
                    Some(
                        GenerationView {
                            worktree,
                            generation: tracker.tmux_generations[worktree],
                        },
                    )
                } else {
                    None
                }
            },
            None => None,
        }
    } else {
        None
    }
}

/// The picture that is shown: the last one that was taken, under the branch that it was
/// taken of, until the picture of the selected worktree is there. A picture that could not
/// be taken counts only for the selected worktree.
pub open spec fn portal_of(key: GenerationView, capture: Option<TmuxPortalCapture>) -> PortalView {
    match capture {
        Some(taken) => match taken.result {
            Ok(lines) => PortalView {
                branch: taken.key@.worktree.branch,
                state: PortalStateView::Ready(crate::text::texts(lines@)),
            },
            Err(_) => PortalView {
                branch: key.worktree.branch,
                state: if taken.key@ == key {
                    PortalStateView::Unavailable
                } else {
                    PortalStateView::Loading
                },
            },
        },
        None => PortalView { branch: key.worktree.branch, state: PortalStateView::Loading },
    }
}

/// The picture of the selected agent's terminal.
pub fn tmux_portal_model(
    navigation: &Navigation,
    tracker: &JobTracker,
    portal: &Option<TmuxPortalSnapshot>,
) -> (r: Option<TmuxPortalModel>)
    ensures
        match r {
            Some(model) => match portal_key(navigation@, tracker@) {
                Some(key) => model@ == portal_of(
                    key,
                    match *portal {
                        Some(snapshot) => snapshot.capture,
                        None => None,
                    },
                ),
                None => false,
            },
            None => portal_key(navigation@, tracker@) is None,
        },
{
    if navigation.focused_panel != PanelFocus::Worktrees {
        return None;
    }
    let index: usize = match navigation.selected_worktree_context() {
        Some(index) => index,
        None => {
            return None;
        },
    };
    let session: &Session = &navigation.sessions[index];
    let root: &str = navigation.repos[session.repo_index].repo.root.as_str();
    let worktree: WorktreeSessionKey = crate::keys::identity_key(root, session);
    let generation: u64 = match tracker.tmux_generations.get(&worktree) {
        Some(generation) => *generation,
        None => {
            return None;
        },
    };
    let key = WorktreeGeneration { worktree, generation };
    let loading: TmuxPortalModel = TmuxPortalModel {
        branch: session.branch.clone(),
        state: TmuxPortalState::Loading,
    };
    match portal {
        Some(snapshot) => match &snapshot.capture {
            Some(taken) => match &taken.result {
                Ok(lines) => Some(
                    TmuxPortalModel {
                        branch: taken.key.worktree.branch.clone(),
                        state: TmuxPortalState::Ready(copy_texts(lines)),
                    },
                ),
                Err(_) => if taken.key.same_key(&key) {
                    Some(
                        TmuxPortalModel {
                            branch: session.branch.clone(),
                            state: TmuxPortalState::Unavailable,
                        },
                    )
                } else {
                    Some(loading)
                },
            },
            None => Some(loading),
        },
        None => Some(loading),
    }
}

/// A picture that was taken stays in view, whatever worktree is selected next, until
/// another picture takes its place.
pub proof fn law_last_picture_stays_in_view(
    first: GenerationView,
    second: GenerationView,
    capture: TmuxPortalCapture,
)
    requires
        capture.result is Ok,
    ensures
        portal_of(first, Some(capture)) == portal_of(second, Some(capture)),
        portal_of(first, Some(capture)).state is Ready,
{
}

/// A picture of another generation that could not be taken is not held against the
/// selected worktree.
pub proof fn law_failed_picture_counts_only_for_its_own(
    key: GenerationView,
    capture: TmuxPortalCapture,
)
    requires
        capture.result is Err,
    ensures
        portal_of(key, Some(capture)).state is Unavailable <==> capture.key@ == key,
        portal_of(key, Some(capture)).branch == key.worktree.branch,
{
}

} // verus!
