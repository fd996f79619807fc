//! The figures of the dashboard: how many worktrees, agents, change requests and runs are
//! in which state.
use vstd::prelude::*;

use crate::model::AgentState;
use crate::model::Session;
use crate::navigation::NavView;
use crate::navigation::Navigation;
use crate::run_book::BookView;
use crate::run_book::RunBook;
use crate::runs::AutoRunStatus;
use crate::runs::PlanRunStatus;
use crate::text::decimal;
use crate::text::join2;
use crate::text::owned;
use crate::text::same;

verus! {

/// Figures of some worktrees.
#[derive(Clone, Copy, Debug, PartialEq, Eq, Structural)]
pub struct Figures {
    pub running: u64,
    pub attention: u64,
    pub prs: u64,
    pub ci_failed: u64,
    pub ci_running: u64,
    pub dirty: u64,
    pub behind: u64,
}

/// One more, where something is so.
pub open spec fn plus_one(n: u64, is_so: bool) -> u64 {
    if is_so && n < u64::MAX {
        (n + 1) as u64
    } else {
        n
    }
}

/// A sum, within the numbers that fit.
pub open spec fn plus(n: u64, m: u64) -> u64 {
    if n + m > u64::MAX {
        u64::MAX
    } else {
        (n + m) as u64
    }
}

/// Whether someone has to look at a worktree.
pub open spec fn needs_attention(session: Session) -> bool {
    session.agent_state is NeedsInput || session.agent_state is NeedsRestart
        || session.agent_state is ExitedError || session.unseen_comments
}

/// Whether the checks of a worktree's change request have a status.
pub open spec fn checks_are(session: Session, status: Seq<char>) -> bool {
    match session.pr.summary {
        Some(summary) => summary.check_status@ == status,
        None => false,
    }
}

/// Whether a worktree is on the default branch of a managed repository.
pub open spec fn is_on_default(nav: NavView, session: Session) -> bool {
    session.repo_index < nav.repos.len() && session.branch@
        == nav.repos[session.repo_index as int].config.default_branch@
}

/// Figures with one more worktree.
pub open spec fn counted(nav: NavView, before: Figures, session: Session) -> Figures {
    Figures {
        running: plus_one(
            before.running,
            session.agent_state is Attached || session.agent_state is Running,
        ),
        attention: plus_one(before.attention, needs_attention(session)),
        prs: plus_one(before.prs, session.pr.summary is Some),
        ci_failed: plus_one(before.ci_failed, checks_are(session, "failed"@)),
        ci_running: plus_one(before.ci_running, checks_are(session, "running"@)),
        dirty: plus_one(before.dirty, session.dirty_files is Some),
        behind: if is_on_default(nav, session) {
            plus(
                before.behind,
                match session.behind_commits {
                    Some(count) => count,
                    None => 0,
                },
            )
        } else {
            before.behind
        },
    }
}

/// Figures of no worktree.
pub open spec fn no_figures() -> Figures {
    Figures {
        running: 0,
        attention: 0,
        prs: 0,
        ci_failed: 0,
        ci_running: 0,
        dirty: 0,
        behind: 0,
    }
}

/// The figures of the first `n` worktrees, of one repository where one is given.
pub open spec fn figures_upto(nav: NavView, repo: Option<usize>, n: nat) -> Figures
    decreases n,
{
    if n == 0 {
        no_figures()
    } else {
        let before = figures_upto(nav, repo, (n - 1) as nat);
        let session = nav.sessions[n - 1];
        if repo is None || repo == Some(session.repo_index) {
            counted(nav, before, session)
        } else {
            before
        }
    }
}

fn add_one(n: u64, is_so: bool) -> (r: u64)
    ensures
        r == plus_one(n, is_so),
{
    if is_so {
        n.saturating_add(1)
    } else {
        n
    }
}

fn count_session(navigation: &Navigation, before: Figures, session: &Session) -> (r: Figures)
    ensures
        r == counted(navigation@, before, *session),
{
    let running: bool = matches!(session.agent_state, AgentState::Attached | AgentState::Running);
    let attention: bool = matches!(
        session.agent_state,
        AgentState::NeedsInput | AgentState::NeedsRestart | AgentState::ExitedError
    ) || session.unseen_comments;
    let failed: bool = match &session.pr.summary {
        Some(summary) => same(summary.check_status.as_str(), "failed"),
        None => false,
    };
    let checking: bool = match &session.pr.summary {
        Some(summary) => same(summary.check_status.as_str(), "running"),
        None => false,
    };
    let behind: u64 = if session.repo_index < navigation.repos.len()
        && navigation.repos[session.repo_index].config.is_default_branch(session.branch.as_str()) {
        match session.behind_commits {
            Some(count) => before.behind.saturating_add(count),
            None => before.behind,
        }
    } else {
        before.behind
    };
    Figures {
        running: add_one(before.running, running),
        attention: add_one(before.attention, attention),
        prs: add_one(before.prs, session.pr.summary.is_some()),
        ci_failed: add_one(before.ci_failed, failed),
        ci_running: add_one(before.ci_running, checking),
        dirty: add_one(before.dirty, session.dirty_files.is_some()),
        behind,
    }
}

/// The figures of the worktrees, of one repository where one is given.
pub fn session_figures(navigation: &Navigation, repo: Option<usize>) -> (r: Figures)
    ensures
        r == figures_upto(navigation@, repo, navigation@.sessions.len()),
{
    let mut figures = Figures {
        running: 0,
        attention: 0,
        prs: 0,
        ci_failed: 0,
        ci_running: 0,
        dirty: 0,
        behind: 0,
    };
    let mut i: usize = 0;
    while i < navigation.sessions.len()
        invariant
            i <= navigation.sessions.len(),
            figures == figures_upto(navigation@, repo, i as nat),
        decreases navigation.sessions.len() - i,
    {
        let session: &Session = &navigation.sessions[i];
        let counts: bool = match repo {
            Some(index) => index == session.repo_index,
            None => true,
        };
        if counts {
            figures = count_session(navigation, figures, session);
        }
        i += 1;
    }
    figures
}

/// The icons of the figures of a repository.
#[derive(Debug)]
pub struct HealthIcons {
    pub attention: String,
    pub pull_requests: String,
    pub ci_failed: String,
    pub ci_running: String,
    pub behind: String,
}

/// A figure behind its icon.
pub open spec fn figure(icon: Seq<char>, count: u64) -> Seq<char> {
    icon + crate::text::decimal_text(count as nat)
}

/// The figures of a repository in words: that all is well, or each figure behind its icon.
pub open spec fn health_text(figures: Figures, icons: HealthIcons) -> Seq<char> {
    if figures.attention == 0 && figures.prs == 0 && figures.ci_failed == 0 && figures.ci_running
        == 0 && figures.behind == 0 {
        "ok"@
    } else {
        figure(icons.attention@, figures.attention) + " "@ + figure(
            icons.pull_requests@,
            figures.prs,
        ) + " "@ + figure(icons.ci_failed@, figures.ci_failed) + " "@ + figure(
            icons.ci_running@,
            figures.ci_running,
        ) + " "@ + figure(icons.behind@, figures.behind)
    }
}

fn figure_text(icon: &str, count: u64) -> (r: String)
    ensures
        r@ == figure(icon@, count),
{
    let digits: String = decimal(count);
    join2(icon, digits.as_str())
}

/// The figures of a repository in words.
pub fn repo_health_label(navigation: &Navigation, repo_index: usize, icons: &HealthIcons) -> (r:
    String)
    ensures
        r@ == health_text(
            figures_upto(navigation@, Some(repo_index), navigation@.sessions.len()),
            *icons,
        ),
{
    let figures: Figures = session_figures(navigation, Some(repo_index));
    if figures.attention == 0 && figures.prs == 0 && figures.ci_failed == 0 && figures.ci_running
        == 0 && figures.behind == 0 {
        return owned("ok");
    }
    let mut text: String = figure_text(icons.attention.as_str(), figures.attention);
    text.append(" ");
    let prs: String = figure_text(icons.pull_requests.as_str(), figures.prs);
    text.append(prs.as_str());
    text.append(" ");
    let failed: String = figure_text(icons.ci_failed.as_str(), figures.ci_failed);
    text.append(failed.as_str());
    text.append(" ");
    let running: String = figure_text(icons.ci_running.as_str(), figures.ci_running);
    text.append(running.as_str());
    text.append(" ");
    let behind: String = figure_text(icons.behind.as_str(), figures.behind);
    text.append(behind.as_str());
    text
}

/// Whether a run of automatic work is not over.
pub open spec fn auto_is_active(status: AutoRunStatus) -> bool {
    status is Queued || status is Running || status is Paused
}

/// Whether a run of automatic work went wrong.
pub open spec fn auto_is_failed(status: AutoRunStatus) -> bool {
    status is Failed || status is Aborted
}

/// Whether a run of a plan is not over.
pub open spec fn plan_is_active(status: PlanRunStatus) -> bool {
    status is Queued || status is Running || status is Paused
}

/// Whether a run of a plan went wrong.
pub open spec fn plan_is_failed(status: PlanRunStatus) -> bool {
    status is Failed || status is Aborted
}

/// Which runs are counted.
#[derive(Clone, Copy, Debug, PartialEq, Eq, Structural)]
pub enum RunGroup {
    ActiveAuto,
    FailedAuto,
    ActivePlan,
    FailedPlan,
}

/// The runs of a group.
pub open spec fn group(book: BookView, which: RunGroup) -> Set<Seq<char>> {
    match which {
        RunGroup::ActiveAuto => book.auto_runs.dom().filter(
            |id: Seq<char>| auto_is_active(book.auto_runs[id].status),
        ),
        RunGroup::FailedAuto => book.auto_runs.dom().filter(
            |id: Seq<char>| auto_is_failed(book.auto_runs[id].status),
        ),
        RunGroup::ActivePlan => book.plan_runs.dom().filter(
            |id: Seq<char>| plan_is_active(book.plan_runs[id].status),
        ),
        RunGroup::FailedPlan => book.plan_runs.dom().filter(
            |id: Seq<char>| plan_is_failed(book.plan_runs[id].status),
        ),
    }
}

fn in_group(book: &RunBook, id: &String, which: RunGroup) -> (r: bool)
    ensures
        r == group(book@, which).contains(id@),
{
    match which {
        RunGroup::ActiveAuto => match book.auto_runs.get(id) {
            Some(run) => matches!(
                run.status,
                AutoRunStatus::Queued | AutoRunStatus::Running | AutoRunStatus::Paused
            ),
            None => false,
        },
        RunGroup::FailedAuto => match book.auto_runs.get(id) {
            Some(run) => matches!(run.status, AutoRunStatus::Failed | AutoRunStatus::Aborted),
            None => false,
        },
        RunGroup::ActivePlan => match book.plan_runs.get(id) {
            Some(run) => matches!(
                run.status,
                PlanRunStatus::Queued | PlanRunStatus::Running | PlanRunStatus::Paused
            ),
            None => false,
        },
        RunGroup::FailedPlan => match book.plan_runs.get(id) {
            Some(run) => matches!(run.status, PlanRunStatus::Failed | PlanRunStatus::Aborted),
            None => false,
        },
    }
}

/// How many runs are in a group.
pub fn count_runs(book: &RunBook, which: RunGroup) -> (r: usize)
    ensures
        r == group(book@, which).len(),
        group(book@, which).finite(),
{
    let keys: Vec<String> = if which == RunGroup::ActiveAuto || which == RunGroup::FailedAuto {
        book.auto_runs.keys()
    } else {
        book.plan_runs.keys()
    };
    let ghost all = crate::table::key_views(keys@);
    let ghost mut found: Set<Seq<char>> = Set::empty();
    let mut count: usize = 0;
    let mut i: usize = 0;
    assert forall|id: Seq<char>| #[trigger] group(book@, which).contains(id) implies all.contains(
        id,
    ) by {
        if which == RunGroup::ActiveAuto || which == RunGroup::FailedAuto {
            assert(book.auto_runs@.dom().contains(id));
        } else {
            assert(book.plan_runs@.dom().contains(id));
        }
    }
    while i < keys.len()
        invariant
            i <= keys.len(),
            all == crate::table::key_views(keys@),
            crate::table::in_order::<String>(all),
            count <= i,
            found.finite(),
            found.len() == count,
            forall|id: Seq<char>| #[trigger]
                found.contains(id) <==> group(book@, which).contains(id)
                    && crate::run_book::id_among(all, i as int, id),
        decreases keys.len() - i,
    {
        let ghost id = all[i as int];
        assert(id == keys@[i as int]@);
        proof {
            if crate::run_book::id_among(all, i as int, id) {
                let k = choose|k: int| 0 <= k < i && #[trigger] all[k] == id;
                <String as crate::table::Key>::order_is_total(all[k], all[i as int]);
            }
            assert(!found.contains(id));
        }
        if in_group(book, &keys[i], which) {
            count += 1;
            proof {
                found = found.insert(id);
            }
        }
        proof {
            assert forall|other: Seq<char>| #[trigger]
                found.contains(other) <==> group(book@, which).contains(other)
                    && crate::run_book::id_among(all, i + 1, other) by {
                if crate::run_book::id_among(all, i as int, other) {
                    let k = choose|k: int| 0 <= k < i && #[trigger] all[k] == other;
                    assert(0 <= k < i + 1 && all[k] == other);
                }
                if other == id {
                    assert(0 <= i < i + 1 && all[i as int] == other);
                }
            }
        }
        i += 1;
    }
    proof {
        assert forall|id: Seq<char>| #[trigger]
            found.contains(id) <==> group(book@, which).contains(id) by {
            if group(book@, which).contains(id) {
                assert(all.contains(id));
                let k = choose|k: int| 0 <= k < all.len() && all[k] == id;
                assert(0 <= k < i && all[k] == id);
            }
        }
        assert(found =~= group(book@, which));
    }
    count
}

/// A line of the status panel.
#[derive(Debug)]
pub struct StatusRow {
    pub label: String,
    pub value: String,
    pub attention: bool,
}

/// A line of the status panel, as contracts speak of it.
#[verifier::ext_equal]
pub struct StatusRowView {
    pub label: Seq<char>,
    pub value: Seq<char>,
    pub attention: bool,
}

impl StatusRow {
    /// The line as contracts speak of it.
    pub open spec fn view(&self) -> StatusRowView {
        StatusRowView { label: self.label@, value: self.value@, attention: self.attention }
    }
}

/// The lines as contracts speak of them.
pub open spec fn status_row_views(rows: Seq<StatusRow>) -> Seq<StatusRowView> {
    Seq::new(rows.len(), |i: int| rows[i]@)
}

/// A line with a figure. A figure that someone has to look at asks for attention unless
/// it is zero.
pub open spec fn row(label: Seq<char>, count: nat, matters: bool) -> StatusRowView {
    StatusRowView {
        label,
        value: crate::text::decimal_text(count),
        attention: matters && count > 0,
    }
}

/// The lines of the status panel.
pub open spec fn status_lines(nav: NavView, book: BookView) -> Seq<StatusRowView> {
    let figures = figures_upto(nav, None, nav.sessions.len());
    seq![
        row("repos"@, nav.repos.len(), false),
        row("worktrees"@, nav.sessions.len(), false),
        row("dirty"@, figures.dirty as nat, true),
        row("agents"@, figures.running as nat, true),
        row("auto"@, group(book, RunGroup::ActiveAuto).len(), true),
        row("auto fail"@, group(book, RunGroup::FailedAuto).len(), true),
        row("plans"@, group(book, RunGroup::ActivePlan).len(), true),
        row("plan fail"@, group(book, RunGroup::FailedPlan).len(), true),
        row("attention"@, figures.attention as nat, true),
        row("open prs"@, figures.prs as nat, false),
        row("ci failed"@, figures.ci_failed as nat, true),
        row("ci running"@, figures.ci_running as nat, true),
        row("behind"@, figures.behind as nat, true),
    ]
}

fn add_row(rows: &mut Vec<StatusRow>, label: &str, count: u64, matters: bool)
    ensures
        status_row_views(final(rows)@) == status_row_views(old(rows)@).push(
            row(label@, count as nat, matters),
        ),
{
    rows.push(
        StatusRow {
            label: owned(label),
            value: decimal(count),
            attention: matters && count > 0,
        },
    );
    assert(status_row_views(rows@) =~= status_row_views(old(rows)@).push(
        row(label@, count as nat, matters),
    ));
}

/// The lines of the status panel.
pub fn status_rows(navigation: &Navigation, book: &RunBook) -> (r: Vec<StatusRow>)
    ensures
        status_row_views(r@) == status_lines(navigation@, book@),
{
    let figures: Figures = session_figures(navigation, None);
    let active_auto: usize = count_runs(book, RunGroup::ActiveAuto);
    let failed_auto: usize = count_runs(book, RunGroup::FailedAuto);
    let active_plans: usize = count_runs(book, RunGroup::ActivePlan);
    let failed_plans: usize = count_runs(book, RunGroup::FailedPlan);
    let mut rows: Vec<StatusRow> = Vec::new();
    add_row(&mut rows, "repos", navigation.repos.len() as u64, false);
    add_row(&mut rows, "worktrees", navigation.sessions.len() as u64, false);
    add_row(&mut rows, "dirty", figures.dirty, true);
    add_row(&mut rows, "agents", figures.running, true);
    add_row(&mut rows, "auto", active_auto as u64, true);
    add_row(&mut rows, "auto fail", failed_auto as u64, true);
    add_row(&mut rows, "plans", active_plans as u64, true);
    add_row(&mut rows, "plan fail", failed_plans as u64, true);
    add_row(&mut rows, "attention", figures.attention, true);
    add_row(&mut rows, "open prs", figures.prs, false);
    add_row(&mut rows, "ci failed", figures.ci_failed, true);
    add_row(&mut rows, "ci running", figures.ci_running, true);
    add_row(&mut rows, "behind", figures.behind, true);
    assert(status_row_views(rows@) =~= status_lines(navigation@, book@));
    rows
}

/// No figure that counts worktrees is higher than the number of worktrees.
pub proof fn law_figures_count_worktrees(nav: NavView, repo: Option<usize>, n: nat)
    requires
        n <= nav.sessions.len(),
        n <= u64::MAX,
    ensures
        figures_upto(nav, repo, n).running <= n,
        figures_upto(nav, repo, n).attention <= n,
        figures_upto(nav, repo, n).prs <= n,
        figures_upto(nav, repo, n).ci_failed + figures_upto(nav, repo, n).ci_running
            <= figures_upto(nav, repo, n).prs,
        figures_upto(nav, repo, n).dirty <= n,
    decreases n,
{
    if n > 0 {
        law_figures_count_worktrees(nav, repo, (n - 1) as nat);
        reveal_strlit("failed");
        reveal_strlit("running");
        assert("failed"@.len() != "running"@.len());
    }
}

} // verus!
