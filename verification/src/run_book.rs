//! What the dashboard knows of runs: which are shown, which steps are selected, and the
//! output of their steps.
use vstd::prelude::*;

use crate::keys::DashboardOutputKey;
use crate::keys::PathKey;
use crate::keys::OutputView;
use crate::keys::WorktreeRepositoryKey;
use crate::navigation::NavView;
use crate::navigation::Navigation;
use crate::runs::plan_run_status_sort_key;
use crate::runs::preferred_plan_step;
use crate::runs::run_has_step;
use crate::runs::AutoPlace;
use crate::runs::AutoPlaceView;
use crate::runs::AutoRun;
use crate::runs::AutoStep;
use crate::runs::AutoStepView;
use crate::runs::AutoView;
use crate::runs::PlanRun;
use crate::runs::PlanRunStatus;
use crate::runs::PlanView;
use crate::runs::RunPlace;
use crate::runs::RunPlaceView;
use crate::table::Key;
use crate::table::KeySet;
use crate::table::Table;
use crate::text::copy_texts;
use crate::text::same;
use crate::text::same_texts;
use crate::tracker::JobTracker;
use crate::tracker::TrackerView;

verus! {

/// How long the output of a step, or what is known of a repository's runs, stays fresh.
pub const POLL_INTERVAL_MS: u64 = 1000;

/// How often stored runs are tidied up.
pub const WORKFLOW_MAINTENANCE_INTERVAL_MS: u64 = 3600000;

/// Where the viewer of an output stands.
#[derive(Debug)]
pub struct OutputState {
    pub cursor: usize,
    /// Whether the viewer stays at the end.
    pub follow: bool,
    pub expanded_blocks: Vec<usize>,
}

/// Where the viewer stands, as contracts speak of it.
#[verifier::ext_equal]
pub struct StateView {
    pub cursor: usize,
    pub follow: bool,
    pub expanded_blocks: Seq<usize>,
}

impl OutputState {
    /// The state as contracts speak of it.
    pub open spec fn view(&self) -> StateView {
        StateView {
            cursor: self.cursor,
            follow: self.follow,
            expanded_blocks: self.expanded_blocks@,
        }
    }
}

/// The last position of a list, zero where it is empty.
pub open spec fn last_of(lines: nat) -> usize {
    if lines == 0 {
        0
    } else {
        (lines - 1) as usize
    }
}

/// Where the viewer of some lines stands: at the end while it follows, and never behind
/// the end.
pub open spec fn shown_state(state: Option<StateView>, lines: nat) -> StateView {
    match state {
        None => StateView { cursor: last_of(lines), follow: true, expanded_blocks: Seq::empty() },
        Some(state) => if state.follow {
            StateView { cursor: last_of(lines), ..state }
        } else if lines > 0 && state.cursor > last_of(lines) {
            StateView { cursor: last_of(lines), ..state }
        } else {
            state
        },
    }
}

fn viewer_state(state: Option<&OutputState>, lines: usize) -> (r: OutputState)
    ensures
        r@ == shown_state(
            match state {
                Some(state) => Some(state@),
                None => None,
            },
            lines as nat,
        ),
{
    let last: usize = if lines == 0 {
        0
    } else {
        lines - 1
    };
    match state {
        None => {
            let r = OutputState { cursor: last, follow: true, expanded_blocks: Vec::new() };
            assert(r.expanded_blocks@ =~= Seq::<usize>::empty());
            r
        },
        Some(state) => {
            let mut blocks: Vec<usize> = Vec::new();
            let mut i: usize = 0;
            while i < state.expanded_blocks.len()
                invariant
                    i <= state.expanded_blocks.len(),
                    blocks@ == state.expanded_blocks@.take(i as int),
                decreases state.expanded_blocks.len() - i,
            {
                blocks.push(state.expanded_blocks[i]);
                assert(blocks@ =~= state.expanded_blocks@.take(i + 1));
                i += 1;
            }
            assert(blocks@ =~= state.expanded_blocks@);
            let cursor: usize = if state.follow || (lines > 0 && state.cursor > last) {
                last
            } else {
                state.cursor
            };
            OutputState { cursor, follow: state.follow, expanded_blocks: blocks }
        },
    }
}

/// A step of a run of a plan, by which its output is found.
#[derive(Debug)]
pub struct PlanStepKey {
    pub run_id: String,
    pub step: usize,
}

impl View for PlanStepKey {
    type V = (Seq<char>, usize);

    open spec fn view(&self) -> (Seq<char>, usize) {
        (self.run_id@, self.step)
    }
}

impl Key for PlanStepKey {
    open spec fn before(a: (Seq<char>, usize), b: (Seq<char>, usize)) -> bool {
        crate::order::text_less(a.0, b.0) || (a.0 == b.0 && a.1 < b.1)
    }

    proof fn order_is_total(a: (Seq<char>, usize), b: (Seq<char>, usize)) {
        crate::order::law_text_order_is_total(a.0, b.0);
    }

    proof fn order_is_transitive(
        a: (Seq<char>, usize),
        b: (Seq<char>, usize),
        c: (Seq<char>, usize),
    ) {
        if crate::order::text_less(a.0, b.0) && crate::order::text_less(b.0, c.0) {
            crate::order::law_text_order_is_transitive(a.0, b.0, c.0);
        }
    }

    fn comes_before(&self, other: &Self) -> (r: bool) {
        crate::order::less(self.run_id.as_str(), other.run_id.as_str()) || (same(
            self.run_id.as_str(),
            other.run_id.as_str(),
        ) && self.step < other.step)
    }

    fn same_key(&self, other: &Self) -> (r: bool) {
        same(self.run_id.as_str(), other.run_id.as_str()) && self.step == other.step
    }

    fn copy_key(&self) -> (r: Self) {
        PlanStepKey { run_id: self.run_id.clone(), step: self.step }
    }
}

/// A step of a run of automatic work, by which its output is found.
#[derive(Debug)]
pub struct AutoStepKey {
    pub root: String,
    pub step_run_id: i64,
}

impl View for AutoStepKey {
    type V = (Seq<char>, i64);

    open spec fn view(&self) -> (Seq<char>, i64) {
        (crate::text::bare_path(self.root@), self.step_run_id)
    }
}

impl Key for AutoStepKey {
    open spec fn before(a: (Seq<char>, i64), b: (Seq<char>, i64)) -> bool {
        crate::order::path_less(a.0, b.0) || (a.0 == b.0 && a.1 < b.1)
    }

    proof fn order_is_total(a: (Seq<char>, i64), b: (Seq<char>, i64)) {
        crate::order::law_path_order_is_total(a.0, b.0);
    }

    proof fn order_is_transitive(a: (Seq<char>, i64), b: (Seq<char>, i64), c: (Seq<char>, i64)) {
        if crate::order::path_less(a.0, b.0) && crate::order::path_less(b.0, c.0) {
            crate::order::law_path_order_is_transitive(a.0, b.0, c.0);
        }
    }

    fn comes_before(&self, other: &Self) -> (r: bool) {
        crate::order::path_before(self.root.as_str(), other.root.as_str()) || (crate::text::is_same_path(
            self.root.as_str(),
            other.root.as_str(),
        ) && self.step_run_id < other.step_run_id)
    }

    fn same_key(&self, other: &Self) -> (r: bool) {
        crate::text::is_same_path(self.root.as_str(), other.root.as_str()) && self.step_run_id == other.step_run_id
    }

    fn copy_key(&self) -> (r: Self) {
        AutoStepKey { root: self.root.clone(), step_run_id: self.step_run_id }
    }
}

/// What the dashboard knows of runs.
pub struct RunBook {
    pub plan_runs: Table<String, PlanRun>,
    /// The run of a plan that is shown for each worktree.
    pub active_plan_runs: Table<PathKey, String>,
    pub selected_plan_step_by_run: Table<String, usize>,
    /// The runs whose selected step was chosen by hand.
    pub manual_plan_steps: KeySet<String>,
    pub plan_output_state_by_run: Table<String, OutputState>,
    pub plan_output: Table<PlanStepKey, Vec<String>>,
    pub auto_runs: Table<String, AutoRun>,
    /// The run of automatic work of each worktree.
    pub active_auto_runs: Table<PathKey, String>,
    pub selected_auto_run: Option<String>,
    pub selected_auto_step_by_run: Table<String, i64>,
    pub auto_output_state_by_run: Table<String, OutputState>,
    pub auto_output: Table<AutoStepKey, Vec<String>>,
    /// The runs of plans that runs of automatic work refer to.
    pub linked_plan_runs: Table<String, PlanRun>,
    pub workflow_last_polled: Table<WorktreeRepositoryKey, u64>,
    pub output_last_polled: Table<DashboardOutputKey, u64>,
    pub maintenance_due: bool,
    pub maintenance_last_started_ms: u64,
}

/// What the dashboard knows of runs, as contracts speak of it.
#[verifier::ext_equal]
pub struct BookView {
    pub plan_runs: Map<Seq<char>, PlanView>,
    pub active_plan_runs: Map<Seq<char>, Seq<char>>,
    pub selected_plan_step_by_run: Map<Seq<char>, usize>,
    pub manual_plan_steps: Set<Seq<char>>,
    pub plan_output_state_by_run: Map<Seq<char>, StateView>,
    pub plan_output: Map<(Seq<char>, usize), Seq<Seq<char>>>,
    pub auto_runs: Map<Seq<char>, AutoView>,
    pub active_auto_runs: Map<Seq<char>, Seq<char>>,
    pub selected_auto_run: Option<Seq<char>>,
    pub selected_auto_step_by_run: Map<Seq<char>, i64>,
    pub auto_output_state_by_run: Map<Seq<char>, StateView>,
    pub auto_output: Map<(Seq<char>, i64), Seq<Seq<char>>>,
    pub linked_plan_runs: Map<Seq<char>, PlanView>,
    pub workflow_last_polled: Map<Seq<char>, u64>,
    pub output_last_polled: Map<OutputView, u64>,
    pub maintenance_due: bool,
    pub maintenance_last_started_ms: u64,
}

/// What a map of runs of plans stands for.
pub open spec fn plan_map(map: Map<Seq<char>, PlanRun>) -> Map<Seq<char>, PlanView> {
    map.map_values(|run: PlanRun| run@)
}

/// What a map of runs of automatic work stands for.
pub open spec fn auto_map(map: Map<Seq<char>, AutoRun>) -> Map<Seq<char>, AutoView> {
    map.map_values(|run: AutoRun| run@)
}

/// What a map of names stands for.
pub open spec fn name_map(map: Map<Seq<char>, String>) -> Map<Seq<char>, Seq<char>> {
    map.map_values(|name: String| name@)
}

/// What a map of viewers stands for.
pub open spec fn state_map(map: Map<Seq<char>, OutputState>) -> Map<Seq<char>, StateView> {
    map.map_values(|state: OutputState| state@)
}

/// What a map of lines stands for.
pub open spec fn line_map<K>(map: Map<K, Vec<String>>) -> Map<K, Seq<Seq<char>>> {
    map.map_values(|lines: Vec<String>| crate::text::texts(lines@))
}

/// The value of a key, where it has one.
pub open spec fn value_at<K, V>(map: Map<K, V>, key: K) -> Option<V> {
    if map.dom().contains(key) {
        Some(map[key])
    } else {
        None
    }
}

/// The lines of a step, none where its output is not known.
pub open spec fn lines_at<K>(map: Map<K, Seq<Seq<char>>>, key: K) -> Seq<Seq<char>> {
    if map.dom().contains(key) {
        map[key]
    } else {
        Seq::empty()
    }
}

/// The ids of some places.
pub open spec fn place_ids(places: Seq<RunPlaceView>) -> Seq<Seq<char>> {
    Seq::new(places.len(), |i: int| places[i].id)
}

/// The first step of automatic work with an id.
pub open spec fn auto_step_with(steps: Seq<AutoStepView>, id: Option<i64>) -> Option<AutoStepView>
    decreases steps.len(),
{
    if steps.len() == 0 {
        None
    } else {
        match auto_step_with(steps.drop_last(), id) {
            Some(step) => Some(step),
            None => if steps.last().id == id {
                Some(steps.last())
            } else {
                None
            },
        }
    }
}

/// The step that a run of automatic work shows when none was chosen.
pub open spec fn own_auto_step(run: AutoView) -> Option<i64> {
    match run.selected_step_run_id {
        Some(step) => Some(step),
        None => if run.steps.len() > 0 {
            run.steps[0].id
        } else {
            None
        },
    }
}

/// A repository and a worktree of it.
#[verifier::ext_equal]
pub struct ScopeView {
    pub root: Seq<char>,
    pub path: Seq<char>,
}

/// The worktree whose runs of plans are looked at: the selected one, while the worktree
/// list has the focus.
pub open spec fn plan_scope(nav: NavView) -> Option<ScopeView> {
    if nav.focused_panel is Worktrees {
        match nav.selected_context() {
            Some(index) => Some(
                ScopeView {
                    root: nav.repos[nav.sessions[index as int].repo_index as int].repo.root@,
                    path: nav.sessions[index as int].path@,
                },
            ),
            None => None,
        }
    } else {
        None
    }
}

/// A line of the list of a worktree's runs, as contracts speak of it.
#[verifier::ext_equal]
pub struct SummaryView {
    pub id: Seq<char>,
    pub plan_display: Seq<char>,
    pub scope_path: Seq<char>,
    pub status: PlanRunStatus,
    pub updated_unix_ms: u64,
    pub selected: bool,
}

/// What is shown of a run of a plan, as contracts speak of it.
#[verifier::ext_equal]
pub struct PlanDashboardView {
    pub run: PlanView,
    pub runs: Seq<SummaryView>,
    pub output_lines: Seq<Seq<char>>,
    pub output_state: StateView,
}

/// What is shown of a run of automatic work, as contracts speak of it.
#[verifier::ext_equal]
pub struct AutoDashboardView {
    pub run: AutoView,
    pub linked_plan_dashboard: Option<PlanDashboardView>,
    pub output_lines: Seq<Seq<char>>,
    pub output_state: StateView,
}

impl BookView {
    /// The step of a run that is shown: the one that was chosen by hand, as long as the run
    /// has it, else the preferred one.
    pub open spec fn resolved_step(self, run: PlanView) -> usize {
        if self.manual_plan_steps.contains(run.id) && self.selected_plan_step_by_run.dom().contains(
            run.id,
        ) && crate::runs::has_step(run.steps, self.selected_plan_step_by_run[run.id]) {
            self.selected_plan_step_by_run[run.id]
        } else {
            crate::runs::preferred(run)
        }
    }

    /// Whether a run is news.
    pub open spec fn plan_run_is_new(self, run: PlanView) -> bool {
        !(self.plan_runs.dom().contains(run.id) && self.plan_runs[run.id].plain() == run.plain())
    }

    /// Whether the run that is shown for a worktree is known, or is a given one.
    pub open spec fn shown_run_is_known(self, path: Seq<char>, id: Seq<char>) -> bool {
        self.active_plan_runs.dom().contains(path) && (self.active_plan_runs[path] == id
            || self.plan_runs.dom().contains(self.active_plan_runs[path]))
    }

    /// The book with a run of a plan taken over. It becomes the run that is shown for its
    /// worktree, where none is shown that is known.
    pub open spec fn with_plan_run(self, run: PlanView) -> BookView {
        BookView {
            selected_plan_step_by_run: self.selected_plan_step_by_run.insert(
                run.id,
                self.resolved_step(run),
            ),
            active_plan_runs: if self.shown_run_is_known(
                crate::text::bare_path(run.scope_path),
                run.id,
            ) {
                self.active_plan_runs
            } else {
                self.active_plan_runs.insert(crate::text::bare_path(run.scope_path), run.id)
            },
            plan_runs: self.plan_runs.insert(run.id, run),
            ..self
        }
    }

    /// Whether a run of automatic work is news.
    pub open spec fn auto_run_is_new(self, run: AutoView) -> bool {
        !(self.auto_runs.dom().contains(run.id) && self.auto_runs[run.id].plain() == run.plain())
    }

    /// The step of a run of automatic work that is shown.
    pub open spec fn auto_step(self, id: Seq<char>, run: AutoView) -> Option<i64> {
        match value_at(self.selected_auto_step_by_run, id) {
            Some(step) => Some(step),
            None => own_auto_step(run),
        }
    }

    /// The book with a run of automatic work taken over. It becomes the run of its
    /// worktree.
    pub open spec fn with_auto_run(self, run: AutoView) -> BookView {
        BookView {
            selected_auto_step_by_run: match self.auto_step(run.id, run) {
                Some(step) => self.selected_auto_step_by_run.insert(run.id, step),
                None => self.selected_auto_step_by_run,
            },
            active_auto_runs: self.active_auto_runs.insert(
                crate::text::bare_path(run.worktree_path),
                run.id,
            ),
            selected_auto_run: match self.selected_auto_run {
                Some(id) => Some(id),
                None => Some(run.id),
            },
            auto_runs: self.auto_runs.insert(run.id, run),
            ..self
        }
    }

    /// Whether a run of a plan belongs to a worktree and is not archived.
    pub open spec fn in_scope(self, scope: ScopeView, id: Seq<char>) -> bool {
        &&& self.plan_runs.dom().contains(id)
        &&& self.plan_runs[id].repo_root == scope.root
        &&& crate::text::same_path(self.plan_runs[id].scope_path, scope.path)
        &&& self.plan_runs[id].archived_unix_ms is None
    }

    /// The places of a worktree's runs.
    pub open spec fn scope_places(self, scope: ScopeView) -> Set<RunPlaceView> {
        Set::new(
            |place: RunPlaceView|
                self.in_scope(scope, place.id) && place.rank == crate::runs::status_rank(
                    self.plan_runs[place.id].status,
                ) && place.updated_unix_ms == self.plan_runs[place.id].updated_unix_ms,
        )
    }

    /// The runs of a worktree: those under way first, and of those with the same status
    /// the one that changed last.
    pub open spec fn scope_runs(self, scope: ScopeView) -> Seq<Seq<char>> {
        place_ids(crate::table::ordered::<RunPlace>(self.scope_places(scope)))
    }

    /// The run of a plan that is shown for a worktree: the chosen one, as long as it is in
    /// the list, else the first one.
    pub open spec fn scope_run(self, scope: ScopeView) -> Option<Seq<char>> {
        let ids = self.scope_runs(scope);
        let path = crate::text::bare_path(scope.path);
        if self.active_plan_runs.dom().contains(path) && ids.contains(
            self.active_plan_runs[path],
        ) {
            Some(self.active_plan_runs[path])
        } else if ids.len() > 0 {
            Some(ids[0])
        } else {
            None
        }
    }

    /// The list of a worktree's runs, with one marked.
    pub open spec fn summaries(self, scope: ScopeView, marked: Seq<char>) -> Seq<SummaryView> {
        let ids = self.scope_runs(scope);
        Seq::new(
            ids.len(),
            |i: int|
                SummaryView {
                    id: self.plan_runs[ids[i]].id,
                    plan_display: self.plan_runs[ids[i]].plan_display,
                    scope_path: self.plan_runs[ids[i]].scope_path,
                    status: self.plan_runs[ids[i]].status,
                    updated_unix_ms: self.plan_runs[ids[i]].updated_unix_ms,
                    selected: marked == ids[i],
                },
        )
    }

    /// What is shown of a run of a plan.
    pub open spec fn dashboard_of(
        self,
        root: Seq<char>,
        id: Seq<char>,
        run: PlanView,
    ) -> PlanDashboardView {
        let step = self.resolved_step(run);
        let lines = lines_at(self.plan_output, (run.id, step));
        PlanDashboardView {
            run: PlanView { selected_step: step, ..run },
            runs: self.summaries(ScopeView { root, path: run.scope_path }, id),
            output_lines: lines,
            output_state: shown_state(
                value_at(self.plan_output_state_by_run, run.id),
                lines.len(),
            ),
        }
    }

    /// The run of a plan that the dashboard shows.
    pub open spec fn plan_dashboard(self, nav: NavView) -> Option<PlanDashboardView> {
        match plan_scope(nav) {
            Some(scope) => match self.scope_run(scope) {
                Some(id) => Some(self.dashboard_of(scope.root, id, self.plan_runs[id])),
                None => None,
            },
            None => None,
        }
    }

    /// A run of a plan that a run of automatic work refers to.
    pub open spec fn linked_run(self, id: Seq<char>) -> Option<PlanView> {
        match value_at(self.plan_runs, id) {
            Some(run) => Some(run),
            None => value_at(self.linked_plan_runs, id),
        }
    }

    /// Whether a run is the run of automatic work of some worktree.
    pub open spec fn is_active_auto(self, id: Seq<char>) -> bool {
        exists|path: Seq<char>| #[trigger]
            self.active_auto_runs.dom().contains(path) && self.active_auto_runs[path] == id
    }

    /// The places of the worktrees with a known run of automatic work.
    pub open spec fn auto_places(self) -> Set<AutoPlaceView> {
        Set::new(
            |place: AutoPlaceView|
                self.active_auto_runs.dom().contains(place.path) && self.auto_runs.dom().contains(
                    self.active_auto_runs[place.path],
                ) && place.updated_unix_ms
                    == self.auto_runs[self.active_auto_runs[place.path]].updated_unix_ms,
        )
    }

    /// The run of automatic work that the status panel shows: the selected one, as long as
    /// it is the run of a worktree, else the one that changed last.
    pub open spec fn status_auto_run(self) -> Option<Seq<char>> {
        let places = crate::table::ordered::<AutoPlace>(self.auto_places());
        let latest = if places.len() > 0 {
            Some(self.active_auto_runs[places.last().path])
        } else {
            None
        };
        match self.selected_auto_run {
            Some(id) => if self.auto_runs.dom().contains(id) && self.is_active_auto(id) {
                Some(id)
            } else {
                latest
            },
            None => latest,
        }
    }

    /// The worktree whose run of automatic work is looked at: the selected one while the
    /// worktree list has the focus, and that of the shown run while the status panel has it.
    pub open spec fn auto_scope(self, nav: NavView) -> Option<ScopeView> {
        if nav.focused_panel is Worktrees {
            plan_scope(nav)
        } else if nav.focused_panel is Status {
            match self.status_auto_run() {
                Some(id) => match value_at(self.auto_runs, id) {
                    Some(run) => Some(
                        ScopeView { root: run.repo_root, path: run.worktree_path },
                    ),
                    None => None,
                },
                None => None,
            }
        } else {
            None
        }
    }

    /// The known run of automatic work of a worktree.
    pub open spec fn auto_run_at(self, path: Seq<char>) -> Option<Seq<char>> {
        match value_at(self.active_auto_runs, crate::text::bare_path(path)) {
            Some(id) => if self.auto_runs.dom().contains(id) {
                Some(id)
            } else {
                None
            },
            None => None,
        }
    }

    /// What is shown of a run of automatic work.
    pub open spec fn auto_dashboard_of(self, root: Seq<char>, id: Seq<char>) -> AutoDashboardView {
        let stored = self.auto_runs[id];
        let run = match value_at(self.selected_auto_step_by_run, id) {
            Some(step) => AutoView { selected_step_run_id: Some(step), ..stored },
            None => stored,
        };
        let selected = own_auto_step(run);
        let lines = match selected {
            Some(step) => lines_at(self.auto_output, (crate::text::bare_path(root), step)),
            None => Seq::empty(),
        };
        AutoDashboardView {
            run,
            linked_plan_dashboard: self.linked_dashboard(root, run, selected),
            output_lines: lines,
            output_state: shown_state(
                value_at(self.auto_output_state_by_run, run.id),
                lines.len(),
            ),
        }
    }

    /// What is shown of the run of a plan that a step of automatic work refers to.
    pub open spec fn linked_dashboard(
        self,
        root: Seq<char>,
        run: AutoView,
        selected: Option<i64>,
    ) -> Option<PlanDashboardView> {
        match auto_step_with(run.steps, selected) {
            Some(step) => match step.plan_run_id {
                Some(plan_id) => match self.linked_run(plan_id) {
                    Some(plan) => Some(self.dashboard_of(root, plan_id, plan)),
                    None => None,
                },
                None => None,
            },
            None => None,
        }
    }

    /// The run of automatic work that the dashboard shows.
    pub open spec fn auto_dashboard(self, nav: NavView) -> Option<AutoDashboardView> {
        match self.auto_scope(nav) {
            Some(scope) => match self.auto_run_at(scope.path) {
                Some(id) => Some(self.auto_dashboard_of(scope.root, id)),
                None => None,
            },
            None => None,
        }
    }
}

impl RunBook {
    /// The book as contracts speak of it.
    pub open spec fn view(&self) -> BookView {
        BookView {
            plan_runs: plan_map(self.plan_runs@),
            active_plan_runs: name_map(self.active_plan_runs@),
            selected_plan_step_by_run: self.selected_plan_step_by_run@,
            manual_plan_steps: self.manual_plan_steps@,
            plan_output_state_by_run: state_map(self.plan_output_state_by_run@),
            plan_output: line_map(self.plan_output@),
            auto_runs: auto_map(self.auto_runs@),
            active_auto_runs: name_map(self.active_auto_runs@),
            selected_auto_run: crate::text::opt_text(self.selected_auto_run),
            selected_auto_step_by_run: self.selected_auto_step_by_run@,
            auto_output_state_by_run: state_map(self.auto_output_state_by_run@),
            auto_output: line_map(self.auto_output@),
            linked_plan_runs: plan_map(self.linked_plan_runs@),
            workflow_last_polled: self.workflow_last_polled@,
            output_last_polled: self.output_last_polled@,
            maintenance_due: self.maintenance_due,
            maintenance_last_started_ms: self.maintenance_last_started_ms,
        }
    }

    /// A book without runs.
    pub fn new(now_ms: u64) -> (r: Self)
        ensures
            r@ == empty_book(now_ms),
    {
        let r = RunBook {
            plan_runs: Table::new(),
            active_plan_runs: Table::new(),
            selected_plan_step_by_run: Table::new(),
            manual_plan_steps: KeySet::new(),
            plan_output_state_by_run: Table::new(),
            plan_output: Table::new(),
            auto_runs: Table::new(),
            active_auto_runs: Table::new(),
            selected_auto_run: None,
            selected_auto_step_by_run: Table::new(),
            auto_output_state_by_run: Table::new(),
            auto_output: Table::new(),
            linked_plan_runs: Table::new(),
            workflow_last_polled: Table::new(),
            output_last_polled: Table::new(),
            maintenance_due: false,
            maintenance_last_started_ms: now_ms,
        };
        assert(r@ =~= empty_book(now_ms));
        r
    }

    /// The step of a run that is shown.
    pub fn resolved_plan_step_selection(&self, run: &PlanRun) -> (r: usize)
        ensures
            r == self@.resolved_step(run@),
    {
        if self.manual_plan_steps.contains(&run.id) {
            match self.selected_plan_step_by_run.get(&run.id) {
                Some(selected) => {
                    if run_has_step(&run.steps, *selected) {
                        return *selected;
                    }
                },
                None => {},
            }
        }
        preferred_plan_step(run)
    }

    /// Takes over a run of a plan; says whether it is news.
    pub fn remember_plan_run_snapshot(&mut self, run: PlanRun) -> (r: bool)
        ensures
            r == old(self)@.plan_run_is_new(run@),
            final(self)@ == old(self)@.with_plan_run(run@),
    {
        let ghost was = self@;
        let ghost value = run@;
        let id: String = run.id.clone();
        let selected: usize = self.resolved_plan_step_selection(&run);
        self.selected_plan_step_by_run.insert(id.clone(), selected);
        let path = PathKey::new(run.scope_path.as_str());
        let known: bool = match self.active_plan_runs.get(&path) {
            Some(active) => same(active.as_str(), id.as_str()) || self.plan_runs.contains(active),
            None => false,
        };
        assert(known == was.shown_run_is_known(path@, id@));
        if !known {
            self.active_plan_runs.insert(path, id.clone());
        }
        let changed: bool = match self.plan_runs.get(&id) {
            Some(stored) => !stored.is(&run),
            None => true,
        };
        self.plan_runs.insert(id, run);
        proof {
            let wanted = was.with_plan_run(value);
            assert(self@.active_plan_runs =~= wanted.active_plan_runs);
            assert(self@.plan_runs =~= wanted.plan_runs);
            assert(self@.selected_plan_step_by_run =~= wanted.selected_plan_step_by_run);
        }
        changed
    }

    /// Takes over a run of automatic work; says whether it is news.
    pub fn remember_auto_run_snapshot(&mut self, run: AutoRun) -> (r: bool)
        ensures
            r == old(self)@.auto_run_is_new(run@),
            final(self)@ == old(self)@.with_auto_run(run@),
    {
        let ghost was = self@;
        let ghost value = run@;
        let id: String = run.id.clone();
        let selected: Option<i64> = self.selected_auto_step(&id, &run);
        match selected {
            Some(step) => {
                self.selected_auto_step_by_run.insert(id.clone(), step);
            },
            None => {},
        }
        self.active_auto_runs.insert(PathKey::new(run.worktree_path.as_str()), id.clone());
        if self.selected_auto_run.is_none() {
            self.selected_auto_run = Some(id.clone());
        }
        let changed: bool = match self.auto_runs.get(&id) {
            Some(stored) => !stored.is(&run),
            None => true,
        };
        self.auto_runs.insert(id, run);
        proof {
            let wanted = was.with_auto_run(value);
            assert(self@.active_auto_runs =~= wanted.active_auto_runs);
            assert(self@.auto_runs =~= wanted.auto_runs);
            assert(self@.selected_auto_step_by_run =~= wanted.selected_auto_step_by_run);
        }
        changed
    }

    fn selected_auto_step(&self, id: &String, run: &AutoRun) -> (r: Option<i64>)
        ensures
            r == self@.auto_step(id@, run@),
    {
        match self.selected_auto_step_by_run.get(id) {
            Some(step) => Some(*step),
            None => first_choice(run),
        }
    }
}

fn first_choice(run: &AutoRun) -> (r: Option<i64>)
    ensures
        r == own_auto_step(run@),
{
    match run.selected_step_run_id {
        Some(step) => Some(step),
        None => {
            if run.steps.len() > 0 {
                assert(run@.steps[0] == run.steps@[0]@);
                run.steps[0].id
            } else {
                None
            }
        },
    }
}

/// A book without runs.
pub open spec fn empty_book(now_ms: u64) -> BookView {
    BookView {
        plan_runs: Map::empty(),
        active_plan_runs: Map::empty(),
        selected_plan_step_by_run: Map::empty(),
        manual_plan_steps: Set::empty(),
        plan_output_state_by_run: Map::empty(),
        plan_output: Map::empty(),
        auto_runs: Map::empty(),
        active_auto_runs: Map::empty(),
        selected_auto_run: None,
        selected_auto_step_by_run: Map::empty(),
        auto_output_state_by_run: Map::empty(),
        auto_output: Map::empty(),
        linked_plan_runs: Map::empty(),
        workflow_last_polled: Map::empty(),
        output_last_polled: Map::empty(),
        maintenance_due: false,
        maintenance_last_started_ms: now_ms,
    }
}

/// A repository and a worktree of it.
#[derive(Debug)]
pub struct Scope {
    pub root: String,
    pub path: String,
}

impl Scope {
    /// The scope as contracts speak of it.
    pub open spec fn view(&self) -> ScopeView {
        ScopeView { root: self.root@, path: self.path@ }
    }
}

/// What an optional scope stands for.
pub open spec fn scope_view(scope: Option<Scope>) -> Option<ScopeView> {
    match scope {
        Some(scope) => Some(scope@),
        None => None,
    }
}

/// The worktree whose runs of plans are looked at.
pub fn selected_plan_scope(navigation: &Navigation) -> (r: Option<Scope>)
    ensures
        scope_view(r) == plan_scope(navigation@),
{
    if navigation.focused_panel != crate::navigation::PanelFocus::Worktrees {
        return None;
    }
    match navigation.selected_worktree_context() {
        Some(index) => {
            let session = &navigation.sessions[index];
            Some(
                Scope {
                    root: navigation.repos[session.repo_index].repo.root.clone(),
                    path: session.path.clone(),
                },
            )
        },
        None => None,
    }
}

/// A line of the list of a worktree's runs.
#[derive(Debug)]
pub struct PlanRunSummary {
    pub id: String,
    pub plan_display: String,
    pub scope_path: String,
    pub status: PlanRunStatus,
    pub updated_unix_ms: u64,
    pub selected: bool,
}

impl PlanRunSummary {
    /// The line as contracts speak of it.
    pub open spec fn view(&self) -> SummaryView {
        SummaryView {
            id: self.id@,
            plan_display: self.plan_display@,
            scope_path: self.scope_path@,
            status: self.status,
            updated_unix_ms: self.updated_unix_ms,
            selected: self.selected,
        }
    }
}

/// The lines as contracts speak of them.
pub open spec fn summary_views(summaries: Seq<PlanRunSummary>) -> Seq<SummaryView> {
    Seq::new(summaries.len(), |i: int| summaries[i]@)
}

/// What is shown of a run of a plan.
#[derive(Debug)]
pub struct PlanDashboard {
    pub run: PlanRun,
    pub runs: Vec<PlanRunSummary>,
    pub output_lines: Vec<String>,
    pub output_state: OutputState,
}

impl PlanDashboard {
    /// The dashboard as contracts speak of it.
    pub open spec fn view(&self) -> PlanDashboardView {
        PlanDashboardView {
            run: self.run@,
            runs: summary_views(self.runs@),
            output_lines: crate::text::texts(self.output_lines@),
            output_state: self.output_state@,
        }
    }
}

/// What an optional dashboard stands for.
pub open spec fn plan_dashboard_view(dashboard: Option<PlanDashboard>) -> Option<
    PlanDashboardView,
> {
    match dashboard {
        Some(dashboard) => Some(dashboard@),
        None => None,
    }
}

/// What is shown of a run of automatic work.
#[derive(Debug)]
pub struct AutoDashboard {
    pub run: AutoRun,
    pub linked_plan_dashboard: Option<PlanDashboard>,
    pub output_lines: Vec<String>,
    pub output_state: OutputState,
}

impl AutoDashboard {
    /// The dashboard as contracts speak of it.
    pub open spec fn view(&self) -> AutoDashboardView {
        AutoDashboardView {
            run: self.run@,
            linked_plan_dashboard: plan_dashboard_view(self.linked_plan_dashboard),
            output_lines: crate::text::texts(self.output_lines@),
            output_state: self.output_state@,
        }
    }
}

/// What an optional dashboard stands for.
pub open spec fn auto_dashboard_view(dashboard: Option<AutoDashboard>) -> Option<
    AutoDashboardView,
> {
    match dashboard {
        Some(dashboard) => Some(dashboard@),
        None => None,
    }
}

impl RunBook {
    /// The runs of a worktree, in the order of the list.
    pub fn plan_run_ids_for_scope(&self, root: &str, path: &str) -> (r: Vec<String>)
        ensures
            crate::text::texts(r@) == self@.scope_runs((ScopeView { root: root@, path: path@ })),
            forall|i: int|
                0 <= i < r.len() ==> self@.in_scope(
                    (ScopeView { root: root@, path: path@ }),
                    (#[trigger] r@[i])@,
                ),
    {
        let ghost scope = ScopeView { root: root@, path: path@ };
        let ghost wanted = self@.scope_places(scope);
        let mut places: KeySet<RunPlace> = KeySet::new();
        let keys: Vec<String> = self.plan_runs.keys();
        let ghost all = crate::table::key_views(keys@);
        let mut i: usize = 0;
        while i < keys.len()
            invariant
                i <= keys.len(),
                all == crate::table::key_views(keys@),
                crate::table::lists::<String>(all, self.plan_runs@.dom()),
                scope == (ScopeView { root: root@, path: path@ }),
                wanted == self@.scope_places(scope),
                forall|place: RunPlaceView| #[trigger]
                    places@.contains(place) <==> wanted.contains(place) && id_among(
                        all,
                        i as int,
                        place.id,
                    ),
            decreases keys.len() - i,
        {
            let ghost id = all[i as int];
            assert(id == keys@[i as int]@);
            assert(all.contains(id));
            match self.plan_runs.get(&keys[i]) {
                Some(run) => {
                    assert(self@.plan_runs[id] == run@);
                    if same(run.repo_root.as_str(), root) && crate::text::is_same_path(
                        run.scope_path.as_str(),
                        path,
                    )
                        && run.archived_unix_ms.is_none() {
                        let place = RunPlace {
                            rank: plan_run_status_sort_key(run.status),
                            updated_unix_ms: run.updated_unix_ms,
                            id: keys[i].clone(),
                        };
                        places.insert(place);
                    }
                },
                None => {},
            }
            proof {
                assert forall|place: RunPlaceView| #[trigger]
                    places@.contains(place) <==> wanted.contains(place) && id_among(
                        all,
                        i + 1,
                        place.id,
                    ) by {
                    lemma_id_among_step(all, i as int, place.id);
                }
            }
            i += 1;
        }
        proof {
            assert forall|place: RunPlaceView| #[trigger]
                places@.contains(place) <==> wanted.contains(place) by {
                if wanted.contains(place) {
                    assert(all.contains(place.id));
                    let k = choose|k: int| 0 <= k < all.len() && all[k] == place.id;
                    assert(0 <= k < i && all[k] == place.id);
                }
            }
            assert(places@ =~= wanted);
        }
        let list: Vec<RunPlace> = places.keys();
        let ghost listed = crate::table::key_views(list@);
        let mut out: Vec<String> = Vec::new();
        let mut k: usize = 0;
        assert(crate::text::texts(out@) =~= Seq::<Seq<char>>::empty());
        while k < list.len()
            invariant
                k <= list.len(),
                scope == (ScopeView { root: root@, path: path@ }),
                wanted == self@.scope_places(scope),
                listed == crate::table::key_views(list@),
                crate::table::lists::<RunPlace>(listed, wanted),
                crate::text::texts(out@) == place_ids(listed).take(k as int),
                out.len() == k,
                forall|i: int| 0 <= i < out.len() ==> self@.in_scope(scope, (#[trigger] out@[i])@),
            decreases list.len() - k,
        {
            let ghost before = crate::text::texts(out@);
            assert(listed[k as int] == list@[k as int]@);
            assert(listed.contains(listed[k as int]));
            assert(wanted.contains(listed[k as int]));
            out.push(list[k].id.clone());
            assert(crate::text::texts(out@) =~= before.push(listed[k as int].id));
            assert(crate::text::texts(out@) =~= place_ids(listed).take(k + 1));
            k += 1;
        }
        assert(place_ids(listed).take(list.len() as int) =~= place_ids(listed));
        out
    }

    fn run_for_scope(&self, root: &str, path: &str) -> (r: Option<String>)
        ensures
            crate::text::opt_text(r) == self@.scope_run((ScopeView { root: root@, path: path@ })),
            match r {
                Some(id) => self@.in_scope((ScopeView { root: root@, path: path@ }), id@),
                None => true,
            },
    {
        let ids: Vec<String> = self.plan_run_ids_for_scope(root, path);
        let ghost all = crate::text::texts(ids@);
        let key = PathKey::new(path);
        match self.active_plan_runs.get(&key) {
            Some(active) => {
                if crate::text::has_item(&ids, active.as_str()) {
                    proof {
                        let k = choose|k: int| 0 <= k < all.len() && all[k] == active@;
                        assert(ids@[k]@ == active@);
                    }
                    return Some(active.clone());
                }
            },
            None => {},
        }
        if ids.len() > 0 {
            assert(all[0] == ids@[0]@);
            Some(ids[0].clone())
        } else {
            None
        }
    }

    /// The run of a plan that is shown for the selected worktree, with the root of its
    /// repository.
    pub fn selected_plan_run_id(&self, navigation: &Navigation) -> (r: Option<(String, String)>)
        ensures
            match r {
                Some((root, id)) => match plan_scope(navigation@) {
                    Some(scope) => root@ == scope.root && self@.scope_run(scope) == Some(id@)
                        && self@.in_scope(scope, id@),
                    None => false,
                },
                None => match plan_scope(navigation@) {
                    Some(scope) => self@.scope_run(scope) is None,
                    None => true,
                },
            },
    {
        match selected_plan_scope(navigation) {
            Some(scope) => {
                match self.run_for_scope(scope.root.as_str(), scope.path.as_str()) {
                    Some(id) => Some((scope.root, id)),
                    None => None,
                }
            },
            None => None,
        }
    }

    fn plan_run_summaries_for_scope(&self, root: &str, path: &str, marked: &str) -> (r: Vec<
        PlanRunSummary,
    >)
        ensures
            summary_views(r@) == self@.summaries(
                (ScopeView { root: root@, path: path@ }),
                marked@,
            ),
    {
        let ghost scope = ScopeView { root: root@, path: path@ };
        let ids: Vec<String> = self.plan_run_ids_for_scope(root, path);
        let ghost all = crate::text::texts(ids@);
        let ghost wanted = self@.summaries(scope, marked@);
        let mut out: Vec<PlanRunSummary> = Vec::new();
        let mut i: usize = 0;
        assert(summary_views(out@) =~= Seq::<SummaryView>::empty());
        assert(wanted.take(0) =~= Seq::<SummaryView>::empty());
        while i < ids.len()
            invariant
                i <= ids.len(),
                all == crate::text::texts(ids@),
                all == self@.scope_runs(scope),
                wanted == self@.summaries(scope, marked@),
                forall|k: int| 0 <= k < ids.len() ==> self@.in_scope(scope, (#[trigger] ids@[k])@),
                summary_views(out@) == wanted.take(i as int),
            decreases ids.len() - i,
        {
            let ghost before = summary_views(out@);
            assert(all[i as int] == ids@[i as int]@);
            assert(self@.in_scope(scope, ids@[i as int]@));
            match self.plan_runs.get(&ids[i]) {
                Some(run) => {
                    assert(self@.plan_runs[all[i as int]] == run@);
                    out.push(
                        PlanRunSummary {
                            id: run.id.clone(),
                            plan_display: run.plan_display.clone(),
                            scope_path: run.scope_path.clone(),
                            status: run.status,
                            updated_unix_ms: run.updated_unix_ms,
                            selected: same(marked, ids[i].as_str()),
                        },
                    );
                    assert(summary_views(out@) =~= before.push(wanted[i as int]));
                },
                None => {},
            }
            assert(summary_views(out@) =~= wanted.take(i + 1));
            i += 1;
        }
        assert(wanted.take(ids.len() as int) =~= wanted);
        out
    }

    fn dashboard_for(&self, root: &str, id: &str, run: &PlanRun) -> (r: PlanDashboard)
        ensures
            r@ == self@.dashboard_of(root@, id@, run@),
    {
        let step: usize = self.resolved_plan_step_selection(run);
        let mut shown: PlanRun = run.copy();
        shown.selected_step = step;
        let key = PlanStepKey { run_id: run.id.clone(), step };
        let lines: Vec<String> = match self.plan_output.get(&key) {
            Some(lines) => copy_texts(lines),
            None => Vec::new(),
        };
        assert(crate::text::texts(lines@) =~= lines_at(self@.plan_output, (run.id@, step)));
        let state: OutputState = viewer_state(
            self.plan_output_state_by_run.get(&run.id),
            lines.len(),
        );
        let runs: Vec<PlanRunSummary> = self.plan_run_summaries_for_scope(
            root,
            run.scope_path.as_str(),
            id,
        );
        PlanDashboard { run: shown, runs, output_lines: lines, output_state: state }
    }

    /// The run of a plan that the dashboard shows.
    pub fn current_plan_dashboard(&self, navigation: &Navigation) -> (r: Option<PlanDashboard>)
        ensures
            plan_dashboard_view(r) == self@.plan_dashboard(navigation@),
    {
        match self.selected_plan_run_id(navigation) {
            Some((root, id)) => {
                match self.plan_runs.get(&id) {
                    Some(run) => {
                        assert(self@.plan_runs[id@] == run@);
                        Some(self.dashboard_for(root.as_str(), id.as_str(), run))
                    },
                    None => None,
                }
            },
            None => None,
        }
    }

    /// The run of automatic work that the status panel shows.
    pub fn selected_status_auto_run_id(&self) -> (r: Option<String>)
        ensures
            crate::text::opt_text(r) == self@.status_auto_run(),
    {
        match &self.selected_auto_run {
            Some(id) => {
                if self.auto_runs.contains(id) && self.is_run_of_a_worktree(id) {
                    return Some(id.clone());
                }
            },
            None => {},
        }
        let ghost wanted = self@.auto_places();
        let mut places: KeySet<AutoPlace> = KeySet::new();
        let keys: Vec<PathKey> = self.active_auto_runs.keys();
        let ghost all = crate::table::key_views(keys@);
        let mut i: usize = 0;
        while i < keys.len()
            invariant
                i <= keys.len(),
                all == crate::table::key_views(keys@),
                crate::table::lists::<PathKey>(all, self.active_auto_runs@.dom()),
                wanted == self@.auto_places(),
                forall|place: AutoPlaceView| #[trigger]
                    places@.contains(place) <==> wanted.contains(place) && id_among(
                        all,
                        i as int,
                        place.path,
                    ),
            decreases keys.len() - i,
        {
            let ghost path = all[i as int];
            assert(path == keys@[i as int]@);
            assert(all.contains(path));
            match self.active_auto_runs.get(&keys[i]) {
                Some(id) => {
                    assert(self@.active_auto_runs[path] == id@);
                    match self.auto_runs.get(id) {
                        Some(run) => {
                            assert(self@.auto_runs[id@] == run@);
                            let place = AutoPlace {
                                updated_unix_ms: run.updated_unix_ms,
                                path: keys[i].text.clone(),
                            };
                            places.insert(place);
                        },
                        None => {},
                    }
                },
                None => {},
            }
            proof {
                assert forall|place: AutoPlaceView| #[trigger]
                    places@.contains(place) <==> wanted.contains(place) && id_among(
                        all,
                        i + 1,
                        place.path,
                    ) by {
                    lemma_id_among_step(all, i as int, place.path);
                }
            }
            i += 1;
        }
        proof {
            assert forall|place: AutoPlaceView| #[trigger]
                places@.contains(place) <==> wanted.contains(place) by {
                if wanted.contains(place) {
                    assert(all.contains(place.path));
                    let k = choose|k: int| 0 <= k < all.len() && all[k] == place.path;
                    assert(0 <= k < i && all[k] == place.path);
                }
            }
            assert(places@ =~= wanted);
        }
        let list: Vec<AutoPlace> = places.keys();
        let ghost listed = crate::table::key_views(list@);
        if list.len() == 0 {
            return None;
        }
        let last: usize = list.len() - 1;
        assert(listed[last as int] == list@[last as int]@);
        assert(listed.contains(listed[last as int]));
        assert(wanted.contains(listed[last as int]));
        match self.active_auto_runs.get(&PathKey::new(list[last].path.as_str())) {
            Some(id) => Some(id.clone()),
            None => None,
        }
    }

    fn is_run_of_a_worktree(&self, id: &String) -> (r: bool)
        ensures
            r == self@.is_active_auto(id@),
    {
        let keys: Vec<PathKey> = self.active_auto_runs.keys();
        let ghost all = crate::table::key_views(keys@);
        let mut i: usize = 0;
        while i < keys.len()
            invariant
                i <= keys.len(),
                all == crate::table::key_views(keys@),
                crate::table::lists::<PathKey>(all, self.active_auto_runs@.dom()),
                forall|k: int|
                    0 <= k < i ==> self@.active_auto_runs[#[trigger] all[k]] != id@,
            decreases keys.len() - i,
        {
            let ghost path = all[i as int];
            assert(path == keys@[i as int]@);
            assert(all.contains(path));
            match self.active_auto_runs.get(&keys[i]) {
                Some(active) => {
                    assert(self@.active_auto_runs[path] == active@);
                    if same(active.as_str(), id.as_str()) {
                        assert(self@.active_auto_runs.dom().contains(path));
                        return true;
                    }
                },
                None => {},
            }
            i += 1;
        }
        proof {
            assert forall|path: Seq<char>| #[trigger]
                self@.active_auto_runs.dom().contains(path) implies self@.active_auto_runs[path]
                != id@ by {
                assert(all.contains(path));
                let k = choose|k: int| 0 <= k < all.len() && all[k] == path;
                assert(self@.active_auto_runs[all[k]] != id@);
            }
        }
        false
    }

    /// The worktree whose run of automatic work is looked at.
    pub fn selected_auto_scope(&self, navigation: &Navigation) -> (r: Option<Scope>)
        ensures
            scope_view(r) == self@.auto_scope(navigation@),
    {
        if navigation.focused_panel == crate::navigation::PanelFocus::Worktrees {
            return selected_plan_scope(navigation);
        }
        if navigation.focused_panel != crate::navigation::PanelFocus::Status {
            return None;
        }
        match self.selected_status_auto_run_id() {
            Some(id) => match self.auto_runs.get(&id) {
                Some(run) => {
                    assert(self@.auto_runs[id@] == run@);
                    Some(Scope { root: run.repo_root.clone(), path: run.worktree_path.clone() })
                },
                None => None,
            },
            None => None,
        }
    }

    fn auto_run_of(&self, path: &str) -> (r: Option<String>)
        ensures
            crate::text::opt_text(r) == self@.auto_run_at(path@),
    {
        match self.active_auto_runs.get(&PathKey::new(path)) {
            Some(id) => if self.auto_runs.contains(id) {
                Some(id.clone())
            } else {
                None
            },
            None => None,
        }
    }

    /// What is shown of the run of a plan that a step of automatic work refers to.
    pub fn linked_plan_dashboard(&self, root: &str, plan_run_id: &String) -> (r: Option<
        PlanDashboard,
    >)
        ensures
            plan_dashboard_view(r) == (match self@.linked_run(plan_run_id@) {
                Some(plan) => Some(self@.dashboard_of(root@, plan_run_id@, plan)),
                None => None,
            }),
    {
        match self.plan_runs.get(plan_run_id) {
            Some(run) => {
                assert(self@.plan_runs[plan_run_id@] == run@);
                Some(self.dashboard_for(root, plan_run_id.as_str(), run))
            },
            None => match self.linked_plan_runs.get(plan_run_id) {
                Some(run) => {
                    assert(self@.linked_plan_runs[plan_run_id@] == run@);
                    Some(self.dashboard_for(root, plan_run_id.as_str(), run))
                },
                None => None,
            },
        }
    }

    /// The run of automatic work that the dashboard shows.
    pub fn current_auto_dashboard(&self, navigation: &Navigation) -> (r: Option<AutoDashboard>)
        ensures
            auto_dashboard_view(r) == self@.auto_dashboard(navigation@),
    {
        let scope: Scope = match self.selected_auto_scope(navigation) {
            Some(scope) => scope,
            None => {
                return None;
            },
        };
        let id: String = match self.auto_run_of(scope.path.as_str()) {
            Some(id) => id,
            None => {
                return None;
            },
        };
        let mut run: AutoRun = match self.auto_runs.get(&id) {
            Some(run) => run.copy(),
            None => {
                return None;
            },
        };
        assert(self@.auto_runs[id@] == run@);
        match self.selected_auto_step_by_run.get(&id) {
            Some(step) => {
                run.selected_step_run_id = Some(*step);
            },
            None => {},
        }
        let selected: Option<i64> = first_choice(&run);
        let lines: Vec<String> = match selected {
            Some(step) => {
                let key = AutoStepKey { root: scope.root.clone(), step_run_id: step };
                match self.auto_output.get(&key) {
                    Some(lines) => copy_texts(lines),
                    None => Vec::new(),
                }
            },
            None => Vec::new(),
        };
        assert(crate::text::texts(lines@) =~= (match selected {
            Some(step) => lines_at(
                self@.auto_output,
                (crate::text::bare_path(scope.root@), step),
            ),
            None => Seq::empty(),
        }));
        let state: OutputState = viewer_state(
            self.auto_output_state_by_run.get(&run.id),
            lines.len(),
        );
        let linked: Option<PlanDashboard> = match find_auto_step(&run.steps, selected) {
            Some(step) => match &step.plan_run_id {
                Some(plan_id) => self.linked_plan_dashboard(scope.root.as_str(), plan_id),
                None => None,
            },
            None => None,
        };
        Some(
            AutoDashboard {
                run,
                linked_plan_dashboard: linked,
                output_lines: lines,
                output_state: state,
            },
        )
    }
}

fn find_auto_step(steps: &Vec<AutoStep>, id: Option<i64>) -> (r: Option<&AutoStep>)
    ensures
        match r {
            Some(step) => auto_step_with(crate::runs::auto_step_views(steps@), id) == Some(step@),
            None => auto_step_with(crate::runs::auto_step_views(steps@), id) is None,
        },
{
    let ghost all = crate::runs::auto_step_views(steps@);
    let mut found: Option<usize> = None;
    let mut i: usize = 0;
    assert(all.take(0) =~= Seq::<AutoStepView>::empty());
    while i < steps.len()
        invariant
            i <= steps.len(),
            all == crate::runs::auto_step_views(steps@),
            match found {
                Some(at) => at < i && auto_step_with(all.take(i as int), id) == Some(all[at as int]),
                None => auto_step_with(all.take(i as int), id) is None,
            },
        decreases steps.len() - i,
    {
        assert(all.take(i + 1).drop_last() =~= all.take(i as int));
        assert(all.take(i + 1).last() == steps@[i as int]@);
        let matched: bool = match (steps[i].id, id) {
            (Some(a), Some(b)) => a == b,
            (None, None) => true,
            _ => false,
        };
        if found.is_none() && matched {
            found = Some(i);
        }
        i += 1;
    }
    assert(all.take(all.len() as int) =~= all);
    match found {
        Some(at) => Some(&steps[at]),
        None => None,
    }
}

/// Whether a name is among the first `n` of a list.
pub open spec fn id_among(all: Seq<Seq<char>>, n: int, id: Seq<char>) -> bool {
    exists|k: int| 0 <= k < n && #[trigger] all[k] == id
}

proof fn lemma_id_among_step(all: Seq<Seq<char>>, n: int, id: Seq<char>)
    requires
        0 <= n,
    ensures
        id_among(all, n + 1, id) <==> id_among(all, n, id) || id == all[n],
{
    if id_among(all, n, id) {
        let k = choose|k: int| 0 <= k < n && #[trigger] all[k] == id;
        assert(0 <= k < n + 1 && all[k] == id);
    }
    if id == all[n] {
        assert(0 <= n < n + 1 && all[n] == id);
    }
}

/// The position of the first item with a name.
pub open spec fn name_position(ids: Seq<Seq<char>>, id: Seq<char>, n: nat) -> Option<int>
    decreases n,
{
    if n == 0 {
        None
    } else {
        match name_position(ids, id, (n - 1) as nat) {
            Some(at) => Some(at),
            None => if ids[n - 1] == id {
                Some(n - 1)
            } else {
                None
            },
        }
    }
}

/// The position of the first step with a number.
pub open spec fn step_position(
    steps: Seq<crate::runs::PlanStep>,
    number: usize,
    n: nat,
) -> Option<int>
    decreases n,
{
    if n == 0 {
        None
    } else {
        match step_position(steps, number, (n - 1) as nat) {
            Some(at) => Some(at),
            None => if steps[n - 1].step == number {
                Some(n - 1)
            } else {
                None
            },
        }
    }
}

/// The position that a move in a list of runs leads to: back from the first one comes the
/// last one, and on from the last one the first.
pub open spec fn moved_position(at: int, direction: int, len: int) -> int {
    if direction < 0 {
        if at == 0 {
            len - 1
        } else if at + direction < 0 {
            0
        } else {
            at + direction
        }
    } else {
        (at + direction) % len
    }
}

/// A position, zero where there is none.
pub open spec fn or_first(position: Option<int>) -> int {
    match position {
        Some(at) => at,
        None => 0,
    }
}

impl BookView {
    /// Whether there is another run to move to.
    pub open spec fn can_move_run(self, nav: NavView) -> bool {
        match plan_scope(nav) {
            Some(scope) => self.scope_run(scope) is Some && self.scope_runs(scope).len() >= 2,
            None => false,
        }
    }

    /// The book after a move in the list of the selected worktree's runs.
    pub open spec fn with_run_moved(self, nav: NavView, direction: int) -> BookView {
        if self.can_move_run(nav) {
            let scope = plan_scope(nav)->0;
            let ids = self.scope_runs(scope);
            let at = or_first(name_position(ids, self.scope_run(scope)->0, ids.len()));
            BookView {
                active_plan_runs: self.active_plan_runs.insert(
                    crate::text::bare_path(scope.path),
                    ids[moved_position(at, direction, ids.len() as int)],
                ),
                ..self
            }
        } else {
            self
        }
    }

    /// The book after a move in the list of the shown run's steps. The step stays where
    /// there is none to move to; either way it counts as chosen by hand from now on.
    pub open spec fn with_step_moved(self, nav: NavView, direction: int) -> BookView {
        match self.plan_dashboard(nav) {
            Some(dashboard) => {
                let id = dashboard.run.id;
                let steps = dashboard.run.steps;
                let current = match value_at(self.selected_plan_step_by_run, id) {
                    Some(step) => step,
                    None => dashboard.run.selected_step,
                };
                let next = or_first(step_position(steps, current, steps.len())) + direction;
                BookView {
                    manual_plan_steps: self.manual_plan_steps.insert(id),
                    selected_plan_step_by_run: if 0 <= next < steps.len() {
                        self.selected_plan_step_by_run.insert(id, steps[next].step)
                    } else {
                        self.selected_plan_step_by_run
                    },
                    ..self
                }
            },
            None => self,
        }
    }

    /// The output of the run of a plan that is shown.
    pub open spec fn wants_plan(self, nav: NavView, key: OutputView) -> bool {
        match plan_scope(nav) {
            Some(scope) => match self.scope_run(scope) {
                Some(id) => key == (OutputView::Plan {
                    root: crate::text::bare_path(scope.root),
                    run_id: id,
                    step: self.resolved_step(self.plan_runs[id]),
                }),
                None => false,
            },
            None => false,
        }
    }

    /// The output of the run of automatic work that is shown, and that of the run of a plan
    /// that its step refers to.
    pub open spec fn wants_auto(self, nav: NavView, key: OutputView) -> bool {
        match self.auto_scope(nav) {
            Some(scope) => match self.auto_run_at(scope.path) {
                Some(id) => match self.auto_step(id, self.auto_runs[id]) {
                    Some(step) => {
                        ||| key == (OutputView::Auto {
                            root: crate::text::bare_path(scope.root),
                            step_run_id: step,
                        })
                        ||| self.wants_linked(scope.root, self.auto_runs[id], step, key)
                    },
                    None => false,
                },
                None => false,
            },
            None => false,
        }
    }

    /// The output of the run of a plan that a step of automatic work refers to.
    pub open spec fn wants_linked(
        self,
        root: Seq<char>,
        run: AutoView,
        step: i64,
        key: OutputView,
    ) -> bool {
        match auto_step_with(run.steps, Some(step)) {
            Some(found) => match found.plan_run_id {
                Some(plan_id) => match self.linked_run(plan_id) {
                    Some(plan) => key == (OutputView::Plan {
                        root: crate::text::bare_path(root),
                        run_id: plan_id,
                        step: self.resolved_step(plan),
                    }),
                    None => false,
                },
                None => false,
            },
            None => false,
        }
    }

    /// The outputs that the dashboard shows.
    pub open spec fn wanted_outputs(self, nav: NavView) -> Set<OutputView> {
        Set::new(|key: OutputView| self.wants_plan(nav, key) || self.wants_auto(nav, key))
    }

    /// The outputs that are to be read: those that are shown, are not being read, and were
    /// not read just before.
    pub open spec fn due_outputs(
        self,
        nav: NavView,
        tracker: TrackerView,
        now_ms: u64,
    ) -> Set<OutputView> {
        Set::new(
            |key: OutputView|
                self.wanted_outputs(nav).contains(key)
                    && !tracker.dashboard_outputs_in_flight.contains(key) && !is_fresh(
                    self.output_last_polled,
                    key,
                    now_ms,
                ),
        )
    }
}

/// Whether something was read less than the interval ago.
pub open spec fn is_fresh<K>(polled: Map<K, u64>, key: K, now_ms: u64) -> bool {
    polled.dom().contains(key) && now_ms - polled[key] < POLL_INTERVAL_MS
}

impl RunBook {
    /// Moves in the list of the selected worktree's runs; says whether there was another
    /// one.
    pub fn move_plan_run_selection(&mut self, navigation: &Navigation, direction: isize) -> (r:
        bool)
        ensures
            r == old(self)@.can_move_run(navigation@),
            final(self)@ == old(self)@.with_run_moved(navigation@, direction as int),
    {
        let ghost was = self@;
        let scope: Scope = match selected_plan_scope(navigation) {
            Some(scope) => scope,
            None => {
                return false;
            },
        };
        let selected: String = match self.run_for_scope(scope.root.as_str(), scope.path.as_str()) {
            Some(id) => id,
            None => {
                return false;
            },
        };
        let ids: Vec<String> = self.plan_run_ids_for_scope(
            scope.root.as_str(),
            scope.path.as_str(),
        );
        let ghost all = crate::text::texts(ids@);
        if ids.len() < 2 {
            return false;
        }
        let mut found: Option<usize> = None;
        let mut i: usize = 0;
        while i < ids.len()
            invariant
                i <= ids.len(),
                all == crate::text::texts(ids@),
                match found {
                    Some(at) => at < i && name_position(all, selected@, i as nat) == Some(
                        at as int,
                    ),
                    None => name_position(all, selected@, i as nat) is None,
                },
            decreases ids.len() - i,
        {
            assert(all[i as int] == ids@[i as int]@);
            if found.is_none() && same(ids[i].as_str(), selected.as_str()) {
                found = Some(i);
            }
            i += 1;
        }
        let current: usize = match found {
            Some(at) => at,
            None => 0,
        };
        let next: usize = if direction < 0 {
            if current == 0 {
                ids.len() - 1
            } else {
                let target: i128 = current as i128 + direction as i128;
                if target < 0 {
                    0
                } else {
                    target as usize
                }
            }
        } else {
            let target: u128 = (current as u128 + direction as u128) % (ids.len() as u128);
            target as usize
        };
        assert(next == moved_position(current as int, direction as int, ids.len() as int));
        let key = PathKey::new(scope.path.as_str());
        let ghost path = key@;
        self.active_plan_runs.insert(key, ids[next].clone());
        assert(all[next as int] == ids@[next as int]@);
        assert(self@.active_plan_runs =~= was.active_plan_runs.insert(path, all[next as int]));
        true
    }

    /// Moves in the list of the shown run's steps; says whether a run is shown.
    pub fn move_plan_step_selection(&mut self, navigation: &Navigation, direction: isize) -> (r:
        bool)
        ensures
            r == (old(self)@.plan_dashboard(navigation@) is Some),
            final(self)@ == old(self)@.with_step_moved(navigation@, direction as int),
    {
        let ghost was = self@;
        let dashboard: PlanDashboard = match self.current_plan_dashboard(navigation) {
            Some(dashboard) => dashboard,
            None => {
                return false;
            },
        };
        let run: PlanRun = dashboard.run;
        let ghost id = run.id@;
        let current_step: usize = match self.selected_plan_step_by_run.get(&run.id) {
            Some(step) => *step,
            None => run.selected_step,
        };
        let mut found: Option<usize> = None;
        let mut i: usize = 0;
        while i < run.steps.len()
            invariant
                i <= run.steps.len(),
                match found {
                    Some(at) => at < i && step_position(run.steps@, current_step, i as nat) == Some(
                        at as int,
                    ),
                    None => step_position(run.steps@, current_step, i as nat) is None,
                },
            decreases run.steps.len() - i,
        {
            if found.is_none() && run.steps[i].step == current_step {
                found = Some(i);
            }
            i += 1;
        }
        let current: usize = match found {
            Some(at) => at,
            None => 0,
        };
        self.manual_plan_steps.insert(run.id.clone());
        let next: i128 = current as i128 + direction as i128;
        if next >= 0 && next < run.steps.len() as i128 {
            let step: usize = run.steps[next as usize].step;
            self.selected_plan_step_by_run.insert(run.id, step);
        }
        true
    }

    /// The outputs that the dashboard shows.
    pub fn dashboard_output_requests(&self, navigation: &Navigation) -> (r: KeySet<
        DashboardOutputKey,
    >)
        ensures
            r@ == self@.wanted_outputs(navigation@),
    {
        let mut requests: KeySet<DashboardOutputKey> = KeySet::new();
        match self.selected_plan_run_id(navigation) {
            Some((root, id)) => {
                match self.plan_runs.get(&id) {
                    Some(run) => {
                        assert(self@.plan_runs[id@] == run@);
                        let step: usize = self.resolved_plan_step_selection(run);
                        requests.insert(
                            DashboardOutputKey::Plan {
                                repository: WorktreeRepositoryKey::new(root),
                                run_id: id,
                                step,
                            },
                        );
                    },
                    None => {},
                }
            },
            None => {},
        }
        assert forall|key: OutputView| #[trigger]
            requests@.contains(key) <==> self@.wants_plan(navigation@, key) by {}
        match self.selected_auto_scope(navigation) {
            Some(scope) => {
                match self.auto_run_of(scope.path.as_str()) {
                    Some(id) => {
                        match self.auto_runs.get(&id) {
                            Some(run) => {
                                assert(self@.auto_runs[id@] == run@);
                                match self.selected_auto_step(&id, run) {
                                    Some(step) => {
                                        requests.insert(
                                            DashboardOutputKey::Auto {
                                                repository: WorktreeRepositoryKey::new(
                                                    scope.root.clone(),
                                                ),
                                                step_run_id: step,
                                            },
                                        );
                                        self.request_linked(
                                            &mut requests,
                                            scope.root.as_str(),
                                            run,
                                            step,
                                        );
                                    },
                                    None => {},
                                }
                            },
                            None => {},
                        }
                    },
                    None => {},
                }
            },
            None => {},
        }
        assert(requests@ =~= self@.wanted_outputs(navigation@));
        requests
    }

    fn request_linked(
        &self,
        requests: &mut KeySet<DashboardOutputKey>,
        root: &str,
        run: &AutoRun,
        step: i64,
    )
        ensures
            forall|key: OutputView| #[trigger]
                final(requests)@.contains(key) <==> old(requests)@.contains(key)
                    || self@.wants_linked(root@, run@, step, key),
    {
        match find_auto_step(&run.steps, Some(step)) {
            Some(found) => match &found.plan_run_id {
                Some(plan_id) => {
                    let resolved: Option<usize> = match self.plan_runs.get(plan_id) {
                        Some(plan) => {
                            assert(self@.plan_runs[plan_id@] == plan@);
                            Some(self.resolved_plan_step_selection(plan))
                        },
                        None => match self.linked_plan_runs.get(plan_id) {
                            Some(plan) => {
                                assert(self@.linked_plan_runs[plan_id@] == plan@);
                                Some(self.resolved_plan_step_selection(plan))
                            },
                            None => None,
                        },
                    };
                    match resolved {
                        Some(plan_step) => {
                            requests.insert(
                                DashboardOutputKey::Plan {
                                    repository: WorktreeRepositoryKey::new(
                                        crate::text::owned(root),
                                    ),
                                    run_id: plan_id.clone(),
                                    step: plan_step,
                                },
                            );
                        },
                        None => {},
                    }
                },
                None => {},
            },
            None => {},
        }
    }

    /// Begins to read the outputs that are to be read; gives them back in their order.
    pub fn start_dashboard_outputs(
        &mut self,
        tracker: &mut JobTracker,
        navigation: &Navigation,
        now_ms: u64,
    ) -> (r: Vec<DashboardOutputKey>)
        ensures
            ({
                let due = old(self)@.due_outputs(navigation@, old(tracker)@, now_ms);
                &&& crate::table::key_views(r@) == crate::table::ordered::<DashboardOutputKey>(due)
                &&& crate::table::lists::<DashboardOutputKey>(crate::table::key_views(r@), due)
                &&& final(tracker)@ == (TrackerView {
                    dashboard_outputs_in_flight: old(
                        tracker,
                    )@.dashboard_outputs_in_flight.union(due),
                    ..old(tracker)@
                })
                &&& final(self)@ == (BookView {
                    output_last_polled: polled_now(old(self)@.output_last_polled, due, now_ms),
                    ..old(self)@
                })
            }),
    {
        let ghost due = self@.due_outputs(navigation@, tracker@, now_ms);
        let wanted: KeySet<DashboardOutputKey> = self.dashboard_output_requests(navigation);
        let keys: Vec<DashboardOutputKey> = wanted.keys();
        let ghost all = crate::table::key_views(keys@);
        let mut ready: KeySet<DashboardOutputKey> = KeySet::new();
        let mut i: usize = 0;
        while i < keys.len()
            invariant
                i <= keys.len(),
                all == crate::table::key_views(keys@),
                crate::table::lists::<DashboardOutputKey>(all, self@.wanted_outputs(navigation@)),
                due == self@.due_outputs(navigation@, tracker@, now_ms),
                forall|key: OutputView| #[trigger]
                    ready@.contains(key) <==> due.contains(key) && output_among(
                        all,
                        i as int,
                        key,
                    ),
            decreases keys.len() - i,
        {
            let ghost name = all[i as int];
            assert(name == keys@[i as int]@);
            assert(all.contains(name));
            let fresh: bool = match self.output_last_polled.get(&keys[i]) {
                Some(last) => now_ms.saturating_sub(*last) < POLL_INTERVAL_MS,
                None => false,
            };
            if !tracker.dashboard_outputs_in_flight.contains(&keys[i]) && !fresh {
                ready.insert(keys[i].copy_key());
            }
            proof {
                assert forall|key: OutputView| #[trigger]
                    ready@.contains(key) <==> due.contains(key) && output_among(all, i + 1, key) by {
                    if output_among(all, i as int, key) {
                        let k = choose|k: int| 0 <= k < i && #[trigger] all[k] == key;
                        assert(0 <= k < i + 1 && all[k] == key);
                    }
                    if key == name {
                        assert(0 <= i < i + 1 && all[i as int] == key);
                    }
                }
            }
            i += 1;
        }
        proof {
            assert forall|key: OutputView| #[trigger]
                ready@.contains(key) <==> due.contains(key) by {
                if due.contains(key) {
                    assert(all.contains(key));
                    let k = choose|k: int| 0 <= k < all.len() && all[k] == key;
                    assert(0 <= k < i && all[k] == key);
                }
            }
            assert(ready@ =~= due);
        }
        let list: Vec<DashboardOutputKey> = ready.keys();
        let ghost listed = crate::table::key_views(list@);
        let ghost was = self@;
        let ghost flying = tracker@;
        let mut k: usize = 0;
        while k < list.len()
            invariant
                k <= list.len(),
                listed == crate::table::key_views(list@),
                self@ == (BookView { output_last_polled: self@.output_last_polled, ..was }),
                tracker@ == (TrackerView {
                    dashboard_outputs_in_flight: tracker@.dashboard_outputs_in_flight,
                    ..flying
                }),
                forall|key: OutputView| #[trigger]
                    tracker@.dashboard_outputs_in_flight.contains(key)
                        <==> flying.dashboard_outputs_in_flight.contains(key) || output_among(
                        listed,
                        k as int,
                        key,
                    ),
                forall|key: OutputView| #[trigger]
                    self@.output_last_polled.dom().contains(key)
                        <==> was.output_last_polled.dom().contains(key) || output_among(
                        listed,
                        k as int,
                        key,
                    ),
                forall|key: OutputView| #[trigger]
                    self@.output_last_polled.dom().contains(key) ==> self@.output_last_polled[key]
                        == (if output_among(listed, k as int, key) {
                        now_ms
                    } else {
                        was.output_last_polled[key]
                    }),
            decreases list.len() - k,
        {
            let ghost name = listed[k as int];
            assert(name == list@[k as int]@);
            tracker.dashboard_outputs_in_flight.insert(list[k].copy_key());
            self.output_last_polled.insert(list[k].copy_key(), now_ms);
            proof {
                assert forall|key: OutputView| #[trigger]
                    output_among(listed, k + 1, key) <==> output_among(listed, k as int, key)
                        || key == name by {
                    if output_among(listed, k as int, key) {
                        let j = choose|j: int| 0 <= j < k && #[trigger] listed[j] == key;
                        assert(0 <= j < k + 1 && listed[j] == key);
                    }
                    if key == name {
                        assert(0 <= k < k + 1 && listed[k as int] == key);
                    }
                }
            }
            k += 1;
        }
        proof {
            assert forall|key: OutputView| #[trigger]
                output_among(listed, listed.len() as int, key) <==> due.contains(key) by {
                assert(listed.contains(key) <==> due.contains(key));
                if listed.contains(key) {
                    let j = choose|j: int| 0 <= j < listed.len() && listed[j] == key;
                    assert(0 <= j < listed.len() && listed[j] == key);
                }
            }
            assert(tracker@.dashboard_outputs_in_flight
                =~= flying.dashboard_outputs_in_flight.union(due));
            assert(self@.output_last_polled =~= polled_now(was.output_last_polled, due, now_ms));
        }
        list
    }

    /// Takes over the output of a step of a run of a plan; says whether it is news.
    pub fn accept_plan_output(&mut self, run_id: &str, step: usize, lines: Vec<String>) -> (r: bool)
        ensures
            r == (value_at(old(self)@.plan_output, (run_id@, step)) != Some(
                crate::text::texts(lines@),
            )),
            final(self)@ == (BookView {
                plan_output: old(self)@.plan_output.insert(
                    (run_id@, step),
                    crate::text::texts(lines@),
                ),
                ..old(self)@
            }),
    {
        let key = PlanStepKey { run_id: crate::text::owned(run_id), step };
        let changed: bool = match self.plan_output.get(&key) {
            Some(known) => !same_texts(known, &lines),
            None => true,
        };
        let ghost value = crate::text::texts(lines@);
        self.plan_output.insert(key, lines);
        assert(self@.plan_output =~= old(self)@.plan_output.insert((run_id@, step), value));
        changed
    }

    /// Takes over the output of a step of automatic work; says whether it is news.
    pub fn accept_auto_output(&mut self, root: &str, step_run_id: i64, lines: Vec<String>) -> (r:
        bool)
        ensures
            r == (value_at(
                old(self)@.auto_output,
                (crate::text::bare_path(root@), step_run_id),
            ) != Some(
                crate::text::texts(lines@),
            )),
            final(self)@ == (BookView {
                auto_output: old(self)@.auto_output.insert(
                    (crate::text::bare_path(root@), step_run_id),
                    crate::text::texts(lines@),
                ),
                ..old(self)@
            }),
    {
        let key = AutoStepKey { root: crate::text::owned(root), step_run_id };
        let changed: bool = match self.auto_output.get(&key) {
            Some(known) => !same_texts(known, &lines),
            None => true,
        };
        let ghost value = crate::text::texts(lines@);
        self.auto_output.insert(key, lines);
        assert(self@.auto_output =~= old(self)@.auto_output.insert(
            (crate::text::bare_path(root@), step_run_id),
            value,
        ));
        changed
    }
}

/// Whether an output is among the first `n` of a list.
pub open spec fn output_among(all: Seq<OutputView>, n: int, key: OutputView) -> bool {
    exists|k: int| 0 <= k < n && #[trigger] all[k] == key
}

/// The times of the last polls, with some polled now.
pub open spec fn polled_now<K>(polled: Map<K, u64>, due: Set<K>, now_ms: u64) -> Map<K, u64> {
    Map::new(
        |key: K| polled.dom().contains(key) || due.contains(key),
        |key: K|
            if due.contains(key) {
                now_ms
            } else {
                polled[key]
            },
    )
}

/// What a poll of a repository's runs brought. Each part can fail on its own.
#[derive(Debug)]
pub struct WorkflowPollSnapshot {
    pub plan_runs: Result<Vec<PlanRun>, String>,
    pub auto_runs: Result<Vec<AutoRun>, String>,
    pub linked_plan_runs: Result<Vec<PlanRun>, String>,
}

impl BookView {
    /// The book with the first `n` of some runs of plans taken over.
    pub open spec fn with_plan_runs(self, runs: Seq<PlanRun>, n: nat) -> BookView
        decreases n,
    {
        if n == 0 {
            self
        } else {
            self.with_plan_runs(runs, (n - 1) as nat).with_plan_run(runs[n - 1]@)
        }
    }

    /// Whether one of the first `n` of some runs of plans is news when it is taken over.
    pub open spec fn plan_runs_are_new(self, runs: Seq<PlanRun>, n: nat) -> bool
        decreases n,
    {
        n > 0 && (self.plan_runs_are_new(runs, (n - 1) as nat) || self.with_plan_runs(
            runs,
            (n - 1) as nat,
        ).plan_run_is_new(runs[n - 1]@))
    }

    /// The book with the first `n` of some runs of automatic work taken over.
    pub open spec fn with_auto_runs(self, runs: Seq<AutoRun>, n: nat) -> BookView
        decreases n,
    {
        if n == 0 {
            self
        } else {
            self.with_auto_runs(runs, (n - 1) as nat).with_auto_run(runs[n - 1]@)
        }
    }

    /// Whether one of the first `n` of some runs of automatic work is news when it is taken
    /// over.
    pub open spec fn auto_runs_are_new(self, runs: Seq<AutoRun>, n: nat) -> bool
        decreases n,
    {
        n > 0 && (self.auto_runs_are_new(runs, (n - 1) as nat) || self.with_auto_runs(
            runs,
            (n - 1) as nat,
        ).auto_run_is_new(runs[n - 1]@))
    }

    /// The book with a run of a plan that automatic work refers to.
    pub open spec fn with_linked_run(self, run: PlanView) -> BookView {
        BookView { linked_plan_runs: self.linked_plan_runs.insert(run.id, run), ..self }
    }

    /// The book with the first `n` of some runs that automatic work refers to.
    pub open spec fn with_linked_runs(self, runs: Seq<PlanRun>, n: nat) -> BookView
        decreases n,
    {
        if n == 0 {
            self
        } else {
            self.with_linked_runs(runs, (n - 1) as nat).with_linked_run(runs[n - 1]@)
        }
    }

    /// Whether one of the first `n` of some runs that automatic work refers to is news when
    /// it is taken over.
    pub open spec fn linked_runs_are_new(self, runs: Seq<PlanRun>, n: nat) -> bool
        decreases n,
    {
        n > 0 && (self.linked_runs_are_new(runs, (n - 1) as nat) || match value_at(
            self.with_linked_runs(runs, (n - 1) as nat).linked_plan_runs,
            runs[n - 1]@.id,
        ) {
            Some(known) => known.plain() != runs[n - 1]@.plain(),
            None => true,
        })
    }

    /// The book with the runs of plans of a poll, where the poll brought them.
    pub open spec fn with_polled_plans(self, snapshot: WorkflowPollSnapshot) -> BookView {
        match snapshot.plan_runs {
            Ok(runs) => self.with_plan_runs(runs@, runs@.len()),
            Err(_) => self,
        }
    }

    /// The book with the runs of automatic work of a poll, where the poll brought them.
    pub open spec fn with_polled_autos(self, snapshot: WorkflowPollSnapshot) -> BookView {
        match snapshot.auto_runs {
            Ok(runs) => self.with_auto_runs(runs@, runs@.len()),
            Err(_) => self,
        }
    }

    /// The book with what a poll brought.
    pub open spec fn with_poll(self, snapshot: WorkflowPollSnapshot) -> BookView {
        let before = self.with_polled_plans(snapshot).with_polled_autos(snapshot);
        match snapshot.linked_plan_runs {
            Ok(runs) => before.with_linked_runs(runs@, runs@.len()),
            Err(_) => before,
        }
    }

    /// Whether a poll brought news.
    pub open spec fn poll_is_new(self, snapshot: WorkflowPollSnapshot) -> bool {
        let plans = self.with_polled_plans(snapshot);
        let autos = plans.with_polled_autos(snapshot);
        ||| snapshot.plan_runs matches Ok(runs) && self.plan_runs_are_new(runs@, runs@.len())
        ||| snapshot.auto_runs matches Ok(runs) && plans.auto_runs_are_new(runs@, runs@.len())
        ||| snapshot.linked_plan_runs matches Ok(runs) && autos.linked_runs_are_new(
            runs@,
            runs@.len(),
        )
    }

    /// Whether the runs of a repository are to be read.
    pub open spec fn poll_is_due(
        self,
        nav: NavView,
        tracker: TrackerView,
        i: int,
        force: bool,
        now_ms: u64,
    ) -> bool {
        let root = crate::text::bare_path(nav.repos[i].repo.root@);
        !tracker.workflow_polls_in_flight.contains(root) && (force || !is_fresh(
            self.workflow_last_polled,
            root,
            now_ms,
        ))
    }

    /// The positions of the repositories whose runs are to be read, among the first `n`.
    pub open spec fn due_polls(
        self,
        nav: NavView,
        tracker: TrackerView,
        force: bool,
        now_ms: u64,
        n: nat,
    ) -> Seq<usize>
        decreases n,
    {
        if n == 0 {
            Seq::empty()
        } else {
            let before = self.due_polls(nav, tracker, force, now_ms, (n - 1) as nat);
            if self.poll_is_due(nav, tracker, n - 1, force, now_ms) {
                before.push((n - 1) as usize)
            } else {
                before
            }
        }
    }
}

/// The roots of some repositories.
pub open spec fn roots_of(nav: NavView, positions: Seq<usize>, n: nat) -> Set<Seq<char>>
    decreases n,
{
    if n == 0 {
        Set::empty()
    } else {
        roots_of(nav, positions, (n - 1) as nat).insert(
            crate::text::bare_path(nav.repos[positions[n - 1] as int].repo.root@),
        )
    }
}

/// Whether stored runs are to be tidied up now.
pub open spec fn maintenance_is_due(book: BookView, in_flight: bool, now_ms: u64) -> bool {
    !in_flight && (book.maintenance_due || now_ms - book.maintenance_last_started_ms
        >= WORKFLOW_MAINTENANCE_INTERVAL_MS)
}

impl RunBook {
    fn take_plan_runs(&mut self, runs: Vec<PlanRun>) -> (r: bool)
        ensures
            r == old(self)@.plan_runs_are_new(runs@, runs@.len()),
            final(self)@ == old(self)@.with_plan_runs(runs@, runs@.len()),
    {
        let mut changed: bool = false;
        let mut i: usize = 0;
        while i < runs.len()
            invariant
                i <= runs.len(),
                changed == old(self)@.plan_runs_are_new(runs@, i as nat),
                self@ == old(self)@.with_plan_runs(runs@, i as nat),
            decreases runs.len() - i,
        {
            let news: bool = self.remember_plan_run_snapshot(runs[i].copy());
            changed = changed || news;
            i += 1;
        }
        changed
    }

    fn take_auto_runs(&mut self, runs: Vec<AutoRun>) -> (r: bool)
        ensures
            r == old(self)@.auto_runs_are_new(runs@, runs@.len()),
            final(self)@ == old(self)@.with_auto_runs(runs@, runs@.len()),
    {
        let mut changed: bool = false;
        let mut i: usize = 0;
        while i < runs.len()
            invariant
                i <= runs.len(),
                changed == old(self)@.auto_runs_are_new(runs@, i as nat),
                self@ == old(self)@.with_auto_runs(runs@, i as nat),
            decreases runs.len() - i,
        {
            let news: bool = self.remember_auto_run_snapshot(runs[i].copy());
            changed = changed || news;
            i += 1;
        }
        changed
    }

    fn take_linked_runs(&mut self, runs: Vec<PlanRun>) -> (r: bool)
        ensures
            r == old(self)@.linked_runs_are_new(runs@, runs@.len()),
            final(self)@ == old(self)@.with_linked_runs(runs@, runs@.len()),
    {
        let mut changed: bool = false;
        let mut i: usize = 0;
        while i < runs.len()
            invariant
                i <= runs.len(),
                changed == old(self)@.linked_runs_are_new(runs@, i as nat),
                self@ == old(self)@.with_linked_runs(runs@, i as nat),
            decreases runs.len() - i,
        {
            let ghost before = self@;
            let news: bool = match self.linked_plan_runs.get(&runs[i].id) {
                Some(known) => !known.is(&runs[i]),
                None => true,
            };
            self.linked_plan_runs.insert(runs[i].id.clone(), runs[i].copy());
            assert(self@.linked_plan_runs =~= before.linked_plan_runs.insert(
                runs@[i as int]@.id,
                runs@[i as int]@,
            ));
            changed = changed || news;
            i += 1;
        }
        changed
    }

    /// Takes over what a poll of a repository's runs brought, unless something changed
    /// since the poll began; says whether it is news.
    pub fn apply_workflow_poll(
        &mut self,
        current_revision: u64,
        revision: u64,
        snapshot: Result<WorkflowPollSnapshot, String>,
    ) -> (r: bool)
        ensures
            match snapshot {
                Ok(brought) => if revision == current_revision {
                    r == old(self)@.poll_is_new(brought) && final(self)@ == old(self)@.with_poll(
                        brought,
                    )
                } else {
                    !r && final(self)@ == old(self)@
                },
                Err(_) => !r && final(self)@ == old(self)@,
            },
    {
        if revision != current_revision {
            return false;
        }
        match snapshot {
            Ok(brought) => {
                let plans: bool = match brought.plan_runs {
                    Ok(runs) => self.take_plan_runs(runs),
                    Err(_) => false,
                };
                let autos: bool = match brought.auto_runs {
                    Ok(runs) => self.take_auto_runs(runs),
                    Err(_) => false,
                };
                let linked: bool = match brought.linked_plan_runs {
                    Ok(runs) => self.take_linked_runs(runs),
                    Err(_) => false,
                };
                plans || autos || linked
            },
            Err(_) => false,
        }
    }

    /// Begins to read the runs of the repositories that are due; gives back their
    /// positions.
    pub fn start_workflow_polls(
        &mut self,
        tracker: &mut JobTracker,
        navigation: &Navigation,
        force: bool,
        now_ms: u64,
    ) -> (r: Vec<usize>)
        ensures
            r@ == old(self)@.due_polls(
                navigation@,
                old(tracker)@,
                force,
                now_ms,
                navigation@.repos.len(),
            ),
            ({
                let due = roots_of(navigation@, r@, r@.len());
                &&& final(tracker)@ == (TrackerView {
                    workflow_polls_in_flight: old(tracker)@.workflow_polls_in_flight.union(due),
                    ..old(tracker)@
                })
                &&& final(self)@ == (BookView {
                    workflow_last_polled: polled_now(old(self)@.workflow_last_polled, due, now_ms),
                    ..old(self)@
                })
            }),
    {
        let mut due: Vec<usize> = Vec::new();
        let mut i: usize = 0;
        while i < navigation.repos.len()
            invariant
                i <= navigation.repos.len(),
                due@ == self@.due_polls(navigation@, tracker@, force, now_ms, i as nat),
                forall|k: int| 0 <= k < due.len() ==> (#[trigger] due@[k]) < i,
            decreases navigation.repos.len() - i,
        {
            let key = WorktreeRepositoryKey::new(navigation.repos[i].repo.root.clone());
            let fresh: bool = match self.workflow_last_polled.get(&key) {
                Some(last) => now_ms.saturating_sub(*last) < POLL_INTERVAL_MS,
                None => false,
            };
            if !tracker.workflow_polls_in_flight.contains(&key) && (force || !fresh) {
                due.push(i);
            }
            i += 1;
        }
        let ghost was = self@;
        let ghost flying = tracker@;
        let mut k: usize = 0;
        proof {
            let none = roots_of(navigation@, due@, 0);
            assert(flying.workflow_polls_in_flight =~= flying.workflow_polls_in_flight.union(none));
            assert(was.workflow_last_polled =~= polled_now(was.workflow_last_polled, none, now_ms));
        }
        while k < due.len()
            invariant
                k <= due.len(),
                forall|j: int|
                    0 <= j < due.len() ==> (#[trigger] due@[j]) < navigation.repos.len(),
                self@ == (BookView {
                    workflow_last_polled: polled_now(
                        was.workflow_last_polled,
                        roots_of(navigation@, due@, k as nat),
                        now_ms,
                    ),
                    ..was
                }),
                tracker@ == (TrackerView {
                    workflow_polls_in_flight: flying.workflow_polls_in_flight.union(
                        roots_of(navigation@, due@, k as nat),
                    ),
                    ..flying
                }),
            decreases due.len() - k,
        {
            let at: usize = due[k];
            let key = WorktreeRepositoryKey::new(navigation.repos[at].repo.root.clone());
            tracker.workflow_polls_in_flight.insert(key.copy_key());
            self.workflow_last_polled.insert(key, now_ms);
            proof {
                let roots = roots_of(navigation@, due@, k as nat + 1);
                assert(tracker@.workflow_polls_in_flight
                    =~= flying.workflow_polls_in_flight.union(roots));
                assert(self@.workflow_last_polled =~= polled_now(
                    was.workflow_last_polled,
                    roots,
                    now_ms,
                ));
            }
            k += 1;
        }
        due
    }

    /// Asks for stored runs to be tidied up.
    pub fn request_workflow_maintenance(&mut self)
        ensures
            final(self)@ == (BookView { maintenance_due: true, ..old(self)@ }),
    {
        self.maintenance_due = true;
    }

    /// Begins to tidy up stored runs where that was asked for or the interval is over,
    /// unless it is under way; says whether it did.
    pub fn poll_workflow_maintenance(&mut self, tracker: &mut JobTracker, now_ms: u64) -> (r: bool)
        ensures
            r == maintenance_is_due(old(self)@, old(tracker)@.workflow_maintenance_in_flight, now_ms),
            r == (!old(tracker)@.workflow_maintenance_in_flight && (old(self)@.maintenance_due
                || now_ms - old(self)@.maintenance_last_started_ms
                >= WORKFLOW_MAINTENANCE_INTERVAL_MS)),
            final(self)@ == (if r {
                BookView {
                    maintenance_due: false,
                    maintenance_last_started_ms: now_ms,
                    ..old(self)@
                }
            } else {
                old(self)@
            }),
            final(tracker)@ == (if r {
                TrackerView { workflow_maintenance_in_flight: true, ..old(tracker)@ }
            } else {
                old(tracker)@
            }),
    {
        let due: bool = self.maintenance_due || now_ms.saturating_sub(
            self.maintenance_last_started_ms,
        ) >= WORKFLOW_MAINTENANCE_INTERVAL_MS;
        if tracker.workflow_maintenance_in_flight || !due {
            return false;
        }
        tracker.workflow_maintenance_in_flight = true;
        self.maintenance_due = false;
        self.maintenance_last_started_ms = now_ms;
        true
    }
}

/// The list of a worktree's runs holds exactly its runs that are not archived, each once,
/// those under way before the others and, of those with the same status, the one that
/// changed last before the others.
pub proof fn law_run_list_is_exact(book: BookView, scope: ScopeView)
    requires
        book.plan_runs.dom().finite(),
    ensures
        forall|id: Seq<char>| #[trigger]
            book.scope_runs(scope).contains(id) <==> book.in_scope(scope, id),
        forall|i: int, j: int|
            #![trigger book.scope_runs(scope)[i], book.scope_runs(scope)[j]]
            0 <= i < j < book.scope_runs(scope).len() ==> {
                let a = book.plan_runs[book.scope_runs(scope)[i]];
                let b = book.plan_runs[book.scope_runs(scope)[j]];
                &&& book.scope_runs(scope)[i] != book.scope_runs(scope)[j]
                &&& crate::runs::status_rank(a.status) <= crate::runs::status_rank(b.status)
                &&& a.status == b.status ==> a.updated_unix_ms >= b.updated_unix_ms
            },
{
    lemma_places_are_listed(book, scope);
    let places = crate::table::ordered::<RunPlace>(book.scope_places(scope));
    let ids = book.scope_runs(scope);
    assert forall|id: Seq<char>| #[trigger] ids.contains(id) <==> book.in_scope(scope, id) by {
        if ids.contains(id) {
            let i = choose|i: int| 0 <= i < ids.len() && ids[i] == id;
            assert(places.contains(places[i]));
            assert(book.scope_places(scope).contains(places[i]));
        }
        if book.in_scope(scope, id) {
            let place = place_of(book, id);
            assert(book.scope_places(scope).contains(place));
            assert(places.contains(place));
            let i = choose|i: int| 0 <= i < places.len() && places[i] == place;
            assert(ids[i] == id);
        }
    }
    assert forall|i: int, j: int| 0 <= i < j < ids.len() implies {
        let a = book.plan_runs[#[trigger] ids[i]];
        let b = book.plan_runs[#[trigger] ids[j]];
        &&& ids[i] != ids[j]
        &&& crate::runs::status_rank(a.status) <= crate::runs::status_rank(b.status)
        &&& a.status == b.status ==> a.updated_unix_ms >= b.updated_unix_ms
    } by {
        assert(places.contains(places[i]));
        assert(places.contains(places[j]));
        assert(book.scope_places(scope).contains(places[i]));
        assert(book.scope_places(scope).contains(places[j]));
        assert(RunPlace::before(places[i], places[j]));
        RunPlace::order_is_total(places[i], places[j]);
        crate::order::law_text_order_is_total(places[i].id, places[j].id);
    }
}

/// The place of a run.
pub open spec fn place_of(book: BookView, id: Seq<char>) -> RunPlaceView {
    RunPlaceView {
        rank: crate::runs::status_rank(book.plan_runs[id].status),
        updated_unix_ms: book.plan_runs[id].updated_unix_ms,
        id,
    }
}

proof fn lemma_places_are_listed(book: BookView, scope: ScopeView)
    requires
        book.plan_runs.dom().finite(),
    ensures
        crate::table::lists::<RunPlace>(
            crate::table::ordered::<RunPlace>(book.scope_places(scope)),
            book.scope_places(scope),
        ),
{
    let ids = book.plan_runs.dom().filter(|id: Seq<char>| book.in_scope(scope, id));
    let places = book.scope_places(scope);
    assert(ids.subset_of(book.plan_runs.dom()));
    vstd::set_lib::lemma_len_subset(ids, book.plan_runs.dom());
    let f = |id: Seq<char>| place_of(book, id);
    ids.lemma_map_finite(f);
    assert(ids.map(f) =~= places) by {
        assert forall|place: RunPlaceView| places.contains(place) implies #[trigger] ids.map(
            f,
        ).contains(place) by {
            assert(ids.contains(place.id));
            assert(f(place.id) == place);
        }
    }
    crate::table::lemma_ordered_exists::<RunPlace>(places);
}

/// Taking over a run a second time is no news.
pub proof fn law_known_run_is_no_news(book: BookView, plan: PlanView, auto: AutoView)
    ensures
        !book.with_plan_run(plan).plan_run_is_new(plan),
        !book.with_auto_run(auto).auto_run_is_new(auto),
{
}

/// A step that was chosen by hand stays chosen whatever becomes of the run, as long as the
/// run has it.
pub proof fn law_hand_chosen_step_stays(book: BookView, run: PlanView, step: usize)
    requires
        book.manual_plan_steps.contains(run.id),
        book.selected_plan_step_by_run.dom().contains(run.id),
        book.selected_plan_step_by_run[run.id] == step,
        crate::runs::has_step(run.steps, step),
    ensures
        book.with_plan_run(run).selected_plan_step_by_run[run.id] == step,
        book.with_plan_run(run).resolved_step(run) == step,
{
}

/// As long as no step was chosen by hand, the selection follows the run.
pub proof fn law_selection_follows_the_run(book: BookView, run: PlanView)
    requires
        !book.manual_plan_steps.contains(run.id),
    ensures
        book.with_plan_run(run).selected_plan_step_by_run[run.id] == crate::runs::preferred(run),
{
}

/// Runs of one worktree keep their own selections: news of one changes neither the
/// selected step of another nor which run is shown, as long as that one is known.
pub proof fn law_runs_keep_their_own_selections(book: BookView, run: PlanView, other: Seq<char>)
    requires
        other != run.id,
        book.active_plan_runs.dom().contains(crate::text::bare_path(run.scope_path)),
        book.plan_runs.dom().contains(
            book.active_plan_runs[crate::text::bare_path(run.scope_path)],
        ),
    ensures
        value_at(book.with_plan_run(run).selected_plan_step_by_run, other) == value_at(
            book.selected_plan_step_by_run,
            other,
        ),
        book.with_plan_run(run).active_plan_runs == book.active_plan_runs,
{
}

/// A move in the list of runs always leads to a run of the list, and moving on and back
/// leads to where it began.
pub proof fn law_run_moves_are_undone(at: int, direction: int, len: int)
    requires
        0 <= at < len,
    ensures
        0 <= moved_position(at, direction, len) < len,
        moved_position(moved_position(at, 1, len), -1, len) == at,
        moved_position(moved_position(at, -1, len), 1, len) == at,
{
    if direction >= 0 {
        assert(0 <= (at + direction) % len < len) by (nonlinear_arith)
            requires
                0 <= at < len,
                direction >= 0,
        ;
    }
    if at + 1 < len {
        assert((at + 1) % len == at + 1) by (nonlinear_arith)
            requires
                0 <= at,
                at + 1 < len,
        ;
    } else {
        assert((at + 1) % len == 0) by (nonlinear_arith)
            requires
                at + 1 == len,
                len > 0,
        ;
    }
    if at == 0 {
        assert((len - 1 + 1) % len == 0) by (nonlinear_arith)
            requires
                len > 0,
        ;
    } else {
        assert((at - 1 + 1) % len == at) by (nonlinear_arith)
            requires
                0 < at < len,
        ;
    }
}

/// The viewer of an output never stands behind its end, and stays at the end while it
/// follows.
pub proof fn law_viewer_stays_in_its_output(state: Option<StateView>, lines: nat)
    requires
        0 < lines <= usize::MAX,
    ensures
        shown_state(state, lines).cursor < lines,
        shown_state(state, lines).follow ==> shown_state(state, lines).cursor == lines - 1,
{
}

/// An output that is being read, or was read less than the interval ago, is not read
/// again.
pub proof fn law_outputs_are_read_in_intervals(
    book: BookView,
    nav: NavView,
    tracker: TrackerView,
    now_ms: u64,
    later_ms: u64,
    key: OutputView,
)
    requires
        book.due_outputs(nav, tracker, now_ms).contains(key),
        later_ms - now_ms < POLL_INTERVAL_MS,
    ensures
        ({
            let due = book.due_outputs(nav, tracker, now_ms);
            let after = BookView {
                output_last_polled: polled_now(book.output_last_polled, due, now_ms),
                ..book
            };
            !after.due_outputs(nav, tracker, later_ms).contains(key)
        }),
{
}

} // verus!
