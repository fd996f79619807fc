//! Runs of plans and of automatic work, as far as the dashboard looks at them.
use vstd::prelude::*;

use crate::table::Key;
use crate::text::copy_opt;
use crate::text::same;
use crate::text::same_opt;

verus! {

/// How far the run of a plan is.
#[derive(Clone, Copy, Debug, PartialEq, Eq, Structural)]
pub enum PlanRunStatus {
    Running,
    Queued,
    Paused,
    Failed,
    Aborted,
    Draft,
    Done,
}

/// How far a step of a plan is.
#[derive(Clone, Copy, Debug, PartialEq, Eq, Structural)]
pub enum PlanStepStatus {
    Queued,
    Starting,
    Running,
    Done,
    Skipped,
    Failed,
    Aborted,
}

/// How far a run of automatic work is.
#[derive(Clone, Copy, Debug, PartialEq, Eq, Structural)]
pub enum AutoRunStatus {
    Queued,
    Running,
    Paused,
    Failed,
    Aborted,
    Done,
}

/// The place of a status in the list of runs.
pub open spec fn status_rank(status: PlanRunStatus) -> u8 {
    match status {
        PlanRunStatus::Running => 0,
        PlanRunStatus::Queued => 1,
        PlanRunStatus::Paused => 2,
        PlanRunStatus::Failed => 3,
        PlanRunStatus::Aborted => 4,
        PlanRunStatus::Draft => 5,
        PlanRunStatus::Done => 6,
    }
}

/// The place of a status in the list of runs.
pub fn plan_run_status_sort_key(status: PlanRunStatus) -> (r: u8)
    ensures
        r == status_rank(status),
{
    match status {
        PlanRunStatus::Running => 0,
        PlanRunStatus::Queued => 1,
        PlanRunStatus::Paused => 2,
        PlanRunStatus::Failed => 3,
        PlanRunStatus::Aborted => 4,
        PlanRunStatus::Draft => 5,
        PlanRunStatus::Done => 6,
    }
}

/// A step of a run of a plan.
#[derive(Clone, Copy, Debug, PartialEq, Eq, Structural)]
pub struct PlanStep {
    pub step: usize,
    pub status: PlanStepStatus,
    pub started_unix_ms: Option<u64>,
    pub finished_unix_ms: Option<u64>,
}

/// A run of a plan.
#[derive(Debug)]
pub struct PlanRun {
    pub id: String,
    pub repo_root: String,
    pub scope_path: String,
    pub plan_display: String,
    pub status: PlanRunStatus,
    pub selected_step: usize,
    pub updated_unix_ms: u64,
    pub archived_unix_ms: Option<u64>,
    pub steps: Vec<PlanStep>,
    /// Everything else of the run, as it is stored.
    pub record: String,
}

/// A run of a plan, as contracts speak of it.
#[verifier::ext_equal]
pub struct PlanView {
    pub id: Seq<char>,
    pub repo_root: Seq<char>,
    pub scope_path: Seq<char>,
    pub plan_display: Seq<char>,
    pub status: PlanRunStatus,
    pub selected_step: usize,
    pub updated_unix_ms: u64,
    pub archived_unix_ms: Option<u64>,
    pub steps: Seq<PlanStep>,
    pub record: Seq<char>,
}

/// Which steps are looked at for the one to show.
#[derive(Clone, Copy, Debug, PartialEq, Eq, Structural)]
pub enum Tier {
    /// Steps that are under way.
    Active,
    /// Steps that were begun and are not over.
    Touched,
    /// Steps that are over.
    Ended,
    /// All steps.
    Any,
}

/// A time, zero where there is none.
pub open spec fn time_or_zero(time: Option<u64>) -> u64 {
    match time {
        Some(at) => at,
        None => 0,
    }
}

/// Whether a step is looked at.
pub open spec fn in_tier(tier: Tier, step: PlanStep) -> bool {
    match tier {
        Tier::Active => step.status is Starting || step.status is Running,
        Tier::Touched => !(step.status is Done) && !(step.status is Skipped) && (
        step.started_unix_ms is Some || step.finished_unix_ms is Some),
        Tier::Ended => step.status is Done || step.status is Failed || step.status is Aborted
            || step.status is Skipped,
        Tier::Any => true,
    }
}

/// The time by which steps are compared.
pub open spec fn tier_time(tier: Tier, step: PlanStep) -> u64 {
    match tier {
        Tier::Active => time_or_zero(step.started_unix_ms),
        Tier::Touched => match step.started_unix_ms {
            Some(at) => at,
            None => time_or_zero(step.finished_unix_ms),
        },
        Tier::Ended => time_or_zero(step.finished_unix_ms),
        Tier::Any => 0,
    }
}

/// The time and the number of the latest of the first `n` steps that are looked at; of
/// steps with the same time, that with the highest number.
pub open spec fn latest_step(steps: Seq<PlanStep>, tier: Tier, n: nat) -> Option<(u64, usize)>
    decreases n,
{
    if n == 0 {
        None
    } else {
        let before = latest_step(steps, tier, (n - 1) as nat);
        let step = steps[n - 1];
        let time = tier_time(tier, step);
        if !in_tier(tier, step) {
            before
        } else {
            match before {
                Some(best) => if best.0 < time || (best.0 == time && best.1 <= step.step) {
                    Some((time, step.step))
                } else {
                    Some(best)
                },
                None => Some((time, step.step)),
            }
        }
    }
}

/// Whether a run has a step with a number.
pub open spec fn has_step(steps: Seq<PlanStep>, number: usize) -> bool {
    exists|i: int| 0 <= i < steps.len() && (#[trigger] steps[i]).step == number
}

/// The step that the dashboard shows of a run: the one under way, else the last one that
/// was begun, else the last one that is over, else the one that the run names, else the
/// last one.
pub open spec fn preferred(run: PlanView) -> usize {
    let n = run.steps.len();
    match latest_step(run.steps, Tier::Active, n) {
        Some(best) => best.1,
        None => match latest_step(run.steps, Tier::Touched, n) {
            Some(best) => best.1,
            None => match latest_step(run.steps, Tier::Ended, n) {
                Some(best) => best.1,
                None => if has_step(run.steps, run.selected_step) {
                    run.selected_step
                } else {
                    match latest_step(run.steps, Tier::Any, n) {
                        Some(best) => best.1,
                        None => run.selected_step,
                    }
                },
            },
        },
    }
}

fn or_zero(time: Option<u64>) -> (r: u64)
    ensures
        r == time_or_zero(time),
{
    match time {
        Some(at) => at,
        None => 0,
    }
}

fn is_in_tier(tier: Tier, step: &PlanStep) -> (r: bool)
    ensures
        r == in_tier(tier, *step),
{
    match tier {
        Tier::Active => matches!(step.status, PlanStepStatus::Starting | PlanStepStatus::Running),
        Tier::Touched => !matches!(step.status, PlanStepStatus::Done | PlanStepStatus::Skipped) && (
        step.started_unix_ms.is_some() || step.finished_unix_ms.is_some()),
        Tier::Ended => matches!(
            step.status,
            PlanStepStatus::Done
                | PlanStepStatus::Failed
                | PlanStepStatus::Aborted
                | PlanStepStatus::Skipped
        ),
        Tier::Any => true,
    }
}

fn time_in_tier(tier: Tier, step: &PlanStep) -> (r: u64)
    ensures
        r == tier_time(tier, *step),
{
    match tier {
        Tier::Active => or_zero(step.started_unix_ms),
        Tier::Touched => match step.started_unix_ms {
            Some(at) => at,
            None => or_zero(step.finished_unix_ms),
        },
        Tier::Ended => or_zero(step.finished_unix_ms),
        Tier::Any => 0,
    }
}

fn find_latest(steps: &Vec<PlanStep>, tier: Tier) -> (r: Option<(u64, usize)>)
    ensures
        r == latest_step(steps@, tier, steps@.len()),
{
    let mut best: Option<(u64, usize)> = None;
    let mut i: usize = 0;
    while i < steps.len()
        invariant
            i <= steps.len(),
            best == latest_step(steps@, tier, i as nat),
        decreases steps.len() - i,
    {
        let step: &PlanStep = &steps[i];
        if is_in_tier(tier, step) {
            let time: u64 = time_in_tier(tier, step);
            best = match best {
                Some(top) => if top.0 < time || (top.0 == time && top.1 <= step.step) {
                    Some((time, step.step))
                } else {
                    Some(top)
                },
                None => Some((time, step.step)),
            };
        }
        i += 1;
    }
    best
}

/// Whether a run has a step with a number.
pub fn run_has_step(steps: &Vec<PlanStep>, number: usize) -> (r: bool)
    ensures
        r == has_step(steps@, number),
{
    let mut i: usize = 0;
    while i < steps.len()
        invariant
            i <= steps.len(),
            forall|k: int| 0 <= k < i ==> (#[trigger] steps@[k]).step != number,
        decreases steps.len() - i,
    {
        if steps[i].step == number {
            return true;
        }
        i += 1;
    }
    false
}

impl PlanView {
    /// The run with its path in its plainest spelling, in which runs are compared.
    pub open spec fn plain(self) -> PlanView {
        PlanView { scope_path: crate::text::bare_path(self.scope_path), ..self }
    }
}

impl PlanRun {
    /// The run as contracts speak of it.
    pub open spec fn view(&self) -> PlanView {
        PlanView {
            id: self.id@,
            repo_root: self.repo_root@,
            scope_path: self.scope_path@,
            plan_display: self.plan_display@,
            status: self.status,
            selected_step: self.selected_step,
            updated_unix_ms: self.updated_unix_ms,
            archived_unix_ms: self.archived_unix_ms,
            steps: self.steps@,
            record: self.record@,
        }
    }

    /// A copy of the run.
    pub fn copy(&self) -> (r: Self)
        ensures
            r@ == self@,
    {
        let mut steps: Vec<PlanStep> = Vec::new();
        let mut i: usize = 0;
        while i < self.steps.len()
            invariant
                i <= self.steps.len(),
                steps@ == self.steps@.take(i as int),
            decreases self.steps.len() - i,
        {
            steps.push(self.steps[i]);
            assert(steps@ =~= self.steps@.take(i + 1));
            i += 1;
        }
        assert(steps@ =~= self.steps@);
        PlanRun {
            id: self.id.clone(),
            repo_root: self.repo_root.clone(),
            scope_path: self.scope_path.clone(),
            plan_display: self.plan_display.clone(),
            status: self.status,
            selected_step: self.selected_step,
            updated_unix_ms: self.updated_unix_ms,
            archived_unix_ms: self.archived_unix_ms,
            steps,
            record: self.record.clone(),
        }
    }

    /// Whether two runs are the same in everything, however their paths are spelled.
    pub fn is(&self, other: &PlanRun) -> (r: bool)
        ensures
            r == (self@.plain() == other@.plain()),
    {
        if !(same(self.id.as_str(), other.id.as_str()) && same(
            self.repo_root.as_str(),
            other.repo_root.as_str(),
        ) && crate::text::is_same_path(self.scope_path.as_str(), other.scope_path.as_str()) && same(
            self.plan_display.as_str(),
            other.plan_display.as_str(),
        ) && self.status == other.status && self.selected_step == other.selected_step
            && self.updated_unix_ms == other.updated_unix_ms && same_time(
            self.archived_unix_ms,
            other.archived_unix_ms,
        ) && same(self.record.as_str(), other.record.as_str())) {
            return false;
        }
        if self.steps.len() != other.steps.len() {
            return false;
        }
        let mut i: usize = 0;
        while i < self.steps.len()
            invariant
                i <= self.steps.len(),
                self.steps.len() == other.steps.len(),
                forall|k: int| 0 <= k < i ==> self.steps@[k] == other.steps@[k],
            decreases self.steps.len() - i,
        {
            let a: &PlanStep = &self.steps[i];
            let b: &PlanStep = &other.steps[i];
            let equal: bool = a.step == b.step && a.status == b.status && same_time(
                a.started_unix_ms,
                b.started_unix_ms,
            ) && same_time(a.finished_unix_ms, b.finished_unix_ms);
            assert(equal == (self.steps@[i as int] == other.steps@[i as int]));
            if !equal {
                return false;
            }
            i += 1;
        }
        assert(self.steps@ =~= other.steps@);
        true
    }
}

fn same_time(a: Option<u64>, b: Option<u64>) -> (r: bool)
    ensures
        r == (a == b),
{
    match (a, b) {
        (Some(x), Some(y)) => x == y,
        (None, None) => true,
        _ => false,
    }
}

fn same_id(a: Option<i64>, b: Option<i64>) -> (r: bool)
    ensures
        r == (a == b),
{
    match (a, b) {
        (Some(x), Some(y)) => x == y,
        (None, None) => true,
        _ => false,
    }
}

/// The step that the dashboard shows of a run.
pub fn preferred_plan_step(run: &PlanRun) -> (r: usize)
    ensures
        r == preferred(run@),
{
    match find_latest(&run.steps, Tier::Active) {
        Some(best) => best.1,
        None => match find_latest(&run.steps, Tier::Touched) {
            Some(best) => best.1,
            None => match find_latest(&run.steps, Tier::Ended) {
                Some(best) => best.1,
                None => if run_has_step(&run.steps, run.selected_step) {
                    run.selected_step
                } else {
                    match find_latest(&run.steps, Tier::Any) {
                        Some(best) => best.1,
                        None => run.selected_step,
                    }
                },
            },
        },
    }
}

/// What `latest_step` finds is a step that is looked at, and none of those comes later.
pub proof fn lemma_latest_step(steps: Seq<PlanStep>, tier: Tier, n: nat)
    requires
        n <= steps.len(),
    ensures
        match latest_step(steps, tier, n) {
            Some(best) => {
                &&& exists|i: int|
                    0 <= i < n && in_tier(tier, #[trigger] steps[i]) && tier_time(tier, steps[i])
                        == best.0 && steps[i].step == best.1
                &&& forall|i: int|
                    0 <= i < n && in_tier(tier, #[trigger] steps[i]) ==> tier_time(tier, steps[i])
                        < best.0 || (tier_time(tier, steps[i]) == best.0 && steps[i].step <= best.1)
            },
            None => forall|i: int| 0 <= i < n ==> !in_tier(tier, #[trigger] steps[i]),
        },
    decreases n,
{
    if n > 0 {
        lemma_latest_step(steps, tier, (n - 1) as nat);
        let last = steps[n - 1];
        match latest_step(steps, tier, (n - 1) as nat) {
            Some(best) => {
                let i = choose|i: int|
                    0 <= i < n - 1 && in_tier(tier, #[trigger] steps[i]) && tier_time(
                        tier,
                        steps[i],
                    ) == best.0 && steps[i].step == best.1;
                assert(in_tier(tier, steps[i]));
            },
            None => {},
        }
    }
}

/// The step that is shown is one of the run's steps, where it has any.
pub proof fn law_shown_step_exists(run: PlanView)
    requires
        run.steps.len() > 0,
    ensures
        has_step(run.steps, preferred(run)),
{
    lemma_latest_step(run.steps, Tier::Active, run.steps.len());
    lemma_latest_step(run.steps, Tier::Touched, run.steps.len());
    lemma_latest_step(run.steps, Tier::Ended, run.steps.len());
    lemma_latest_step(run.steps, Tier::Any, run.steps.len());
    assert(in_tier(Tier::Any, run.steps[0]));
}

/// While a step is under way, the step that is shown is one that is under way, and none
/// that is under way was started later.
pub proof fn law_step_under_way_is_shown(run: PlanView, i: int)
    requires
        0 <= i < run.steps.len(),
        in_tier(Tier::Active, run.steps[i]),
    ensures
        exists|k: int|
            0 <= k < run.steps.len() && in_tier(Tier::Active, #[trigger] run.steps[k])
                && run.steps[k].step == preferred(run) && time_or_zero(run.steps[i].started_unix_ms)
                <= time_or_zero(run.steps[k].started_unix_ms),
{
    lemma_latest_step(run.steps, Tier::Active, run.steps.len());
}

/// Once every step is over, the step that is shown is the one that ended last.
pub proof fn law_last_finished_step_is_shown(run: PlanView, i: int)
    requires
        0 <= i < run.steps.len(),
        forall|k: int|
            0 <= k < run.steps.len() ==> (#[trigger] run.steps[k]).status is Done
                || run.steps[k].status is Skipped,
    ensures
        exists|k: int|
            0 <= k < run.steps.len() && (#[trigger] run.steps[k]).step == preferred(run)
                && time_or_zero(run.steps[i].finished_unix_ms) <= time_or_zero(
                run.steps[k].finished_unix_ms,
            ),
{
    lemma_latest_step(run.steps, Tier::Active, run.steps.len());
    lemma_latest_step(run.steps, Tier::Touched, run.steps.len());
    lemma_latest_step(run.steps, Tier::Ended, run.steps.len());
    assert(in_tier(Tier::Ended, run.steps[i]));
}

/// A step of a run of automatic work.
#[derive(Debug)]
pub struct AutoStep {
    pub id: Option<i64>,
    pub plan_run_id: Option<String>,
}

/// A step of automatic work, as contracts speak of it.
#[verifier::ext_equal]
pub struct AutoStepView {
    pub id: Option<i64>,
    pub plan_run_id: Option<Seq<char>>,
}

impl AutoStep {
    /// The step as contracts speak of it.
    pub open spec fn view(&self) -> AutoStepView {
        AutoStepView { id: self.id, plan_run_id: crate::text::opt_text(self.plan_run_id) }
    }
}

/// A run of automatic work.
#[derive(Debug)]
pub struct AutoRun {
    pub id: String,
    pub repo_root: String,
    pub worktree_path: String,
    pub status: AutoRunStatus,
    pub selected_step_run_id: Option<i64>,
    pub updated_unix_ms: u64,
    pub steps: Vec<AutoStep>,
    /// Everything else of the run, as it is stored.
    pub record: String,
}

/// A run of automatic work, as contracts speak of it.
#[verifier::ext_equal]
pub struct AutoView {
    pub id: Seq<char>,
    pub repo_root: Seq<char>,
    pub worktree_path: Seq<char>,
    pub status: AutoRunStatus,
    pub selected_step_run_id: Option<i64>,
    pub updated_unix_ms: u64,
    pub steps: Seq<AutoStepView>,
    pub record: Seq<char>,
}

/// The steps as contracts speak of them.
pub open spec fn auto_step_views(steps: Seq<AutoStep>) -> Seq<AutoStepView> {
    Seq::new(steps.len(), |i: int| steps[i]@)
}

impl AutoView {
    /// The run with its path in its plainest spelling, in which runs are compared.
    pub open spec fn plain(self) -> AutoView {
        AutoView { worktree_path: crate::text::bare_path(self.worktree_path), ..self }
    }
}

impl AutoRun {
    /// The run as contracts speak of it.
    pub open spec fn view(&self) -> AutoView {
        AutoView {
            id: self.id@,
            repo_root: self.repo_root@,
            worktree_path: self.worktree_path@,
            status: self.status,
            selected_step_run_id: self.selected_step_run_id,
            updated_unix_ms: self.updated_unix_ms,
            steps: auto_step_views(self.steps@),
            record: self.record@,
        }
    }

    /// A copy of the run.
    pub fn copy(&self) -> (r: Self)
        ensures
            r@ == self@,
    {
        let mut steps: Vec<AutoStep> = Vec::new();
        let mut i: usize = 0;
        while i < self.steps.len()
            invariant
                i <= self.steps.len(),
                auto_step_views(steps@) == auto_step_views(self.steps@).take(i as int),
            decreases self.steps.len() - i,
        {
            let ghost before = auto_step_views(steps@);
            steps.push(
                AutoStep {
                    id: self.steps[i].id,
                    plan_run_id: copy_opt(&self.steps[i].plan_run_id),
                },
            );
            assert(auto_step_views(steps@) =~= before.push(self.steps@[i as int]@));
            assert(auto_step_views(steps@) =~= auto_step_views(self.steps@).take(i + 1));
            i += 1;
        }
        assert(auto_step_views(steps@) =~= auto_step_views(self.steps@));
        AutoRun {
            id: self.id.clone(),
            repo_root: self.repo_root.clone(),
            worktree_path: self.worktree_path.clone(),
            status: self.status,
            selected_step_run_id: self.selected_step_run_id,
            updated_unix_ms: self.updated_unix_ms,
            steps,
            record: self.record.clone(),
        }
    }

    /// Whether two runs are the same in everything, however their paths are spelled.
    pub fn is(&self, other: &AutoRun) -> (r: bool)
        ensures
            r == (self@.plain() == other@.plain()),
    {
        let ghost x = auto_step_views(self.steps@);
        let ghost y = auto_step_views(other.steps@);
        if !(same(self.id.as_str(), other.id.as_str()) && same(
            self.repo_root.as_str(),
            other.repo_root.as_str(),
        ) && crate::text::is_same_path(
            self.worktree_path.as_str(),
            other.worktree_path.as_str(),
        ) && self.status
            == other.status && same_id(self.selected_step_run_id, other.selected_step_run_id)
            && self.updated_unix_ms == other.updated_unix_ms && same(
            self.record.as_str(),
            other.record.as_str(),
        )) {
            return false;
        }
        if self.steps.len() != other.steps.len() {
            assert(x.len() != y.len());
            return false;
        }
        let mut i: usize = 0;
        while i < self.steps.len()
            invariant
                i <= self.steps.len(),
                self.steps.len() == other.steps.len(),
                x == auto_step_views(self.steps@),
                y == auto_step_views(other.steps@),
                forall|k: int| 0 <= k < i ==> x[k] == y[k],
            decreases self.steps.len() - i,
        {
            let equal: bool = same_id(self.steps[i].id, other.steps[i].id) && same_opt(
                &self.steps[i].plan_run_id,
                &other.steps[i].plan_run_id,
            );
            assert(x[i as int] == self.steps@[i as int]@);
            assert(y[i as int] == other.steps@[i as int]@);
            assert(equal == (x[i as int] == y[i as int]));
            if !equal {
                return false;
            }
            i += 1;
        }
        assert(x =~= y);
        true
    }
}

/// The place of a run of a plan in the list of a worktree's runs.
#[derive(Debug)]
pub struct RunPlace {
    pub rank: u8,
    pub updated_unix_ms: u64,
    pub id: String,
}

/// The place of a run, as contracts speak of it.
#[verifier::ext_equal]
pub struct RunPlaceView {
    pub rank: u8,
    pub updated_unix_ms: u64,
    pub id: Seq<char>,
}

impl View for RunPlace {
    type V = RunPlaceView;

    open spec fn view(&self) -> RunPlaceView {
        RunPlaceView { rank: self.rank, updated_unix_ms: self.updated_unix_ms, id: self.id@ }
    }
}

impl Key for RunPlace {
    open spec fn before(a: RunPlaceView, b: RunPlaceView) -> bool {
        ||| a.rank < b.rank
        ||| a.rank == b.rank && a.updated_unix_ms > b.updated_unix_ms
        ||| a.rank == b.rank && a.updated_unix_ms == b.updated_unix_ms && crate::order::text_less(
            a.id,
            b.id,
        )
    }

    proof fn order_is_total(a: RunPlaceView, b: RunPlaceView) {
        crate::order::law_text_order_is_total(a.id, b.id);
    }

    proof fn order_is_transitive(a: RunPlaceView, b: RunPlaceView, c: RunPlaceView) {
        if crate::order::text_less(a.id, b.id) && crate::order::text_less(b.id, c.id) {
            crate::order::law_text_order_is_transitive(a.id, b.id, c.id);
        }
    }

    fn comes_before(&self, other: &Self) -> (r: bool) {
        self.rank < other.rank || (self.rank == other.rank && (self.updated_unix_ms
            > other.updated_unix_ms || (self.updated_unix_ms == other.updated_unix_ms
            && self.id.comes_before(&other.id))))
    }

    fn same_key(&self, other: &Self) -> (r: bool) {
        self.rank == other.rank && self.updated_unix_ms == other.updated_unix_ms
            && self.id.same_key(&other.id)
    }

    fn copy_key(&self) -> (r: Self) {
        RunPlace {
            rank: self.rank,
            updated_unix_ms: self.updated_unix_ms,
            id: self.id.clone(),
        }
    }
}

/// The place of a worktree with automatic work among those with such work: the one that
/// changed last comes last.
#[derive(Debug)]
pub struct AutoPlace {
    pub updated_unix_ms: u64,
    pub path: String,
}

/// The place of a worktree, as contracts speak of it.
#[verifier::ext_equal]
pub struct AutoPlaceView {
    pub updated_unix_ms: u64,
    pub path: Seq<char>,
}

impl View for AutoPlace {
    type V = AutoPlaceView;

    open spec fn view(&self) -> AutoPlaceView {
        AutoPlaceView {
            updated_unix_ms: self.updated_unix_ms,
            path: crate::text::bare_path(self.path@),
        }
    }
}

impl Key for AutoPlace {
    open spec fn before(a: AutoPlaceView, b: AutoPlaceView) -> bool {
        ||| a.updated_unix_ms < b.updated_unix_ms
        ||| a.updated_unix_ms == b.updated_unix_ms && crate::order::path_less(a.path, b.path)
    }

    proof fn order_is_total(a: AutoPlaceView, b: AutoPlaceView) {
        crate::order::law_path_order_is_total(a.path, b.path);
    }

    proof fn order_is_transitive(a: AutoPlaceView, b: AutoPlaceView, c: AutoPlaceView) {
        if crate::order::path_less(a.path, b.path) && crate::order::path_less(b.path, c.path) {
            crate::order::law_path_order_is_transitive(a.path, b.path, c.path);
        }
    }

    fn comes_before(&self, other: &Self) -> (r: bool) {
        self.updated_unix_ms < other.updated_unix_ms || (self.updated_unix_ms
            == other.updated_unix_ms && crate::order::path_before(
            self.path.as_str(),
            other.path.as_str(),
        ))
    }

    fn same_key(&self, other: &Self) -> (r: bool) {
        self.updated_unix_ms == other.updated_unix_ms && crate::text::is_same_path(
            self.path.as_str(),
            other.path.as_str(),
        )
    }

    fn copy_key(&self) -> (r: Self) {
        AutoPlace { updated_unix_ms: self.updated_unix_ms, path: self.path.clone() }
    }
}

} // verus!
