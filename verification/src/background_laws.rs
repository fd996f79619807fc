//! What holds of changes to remotes whose result is not sure: from the marker that is
//! recorded, over the store and the next start, to the change that has to wait.
use vstd::prelude::*;

use crate::background::MarkerKeyView;
use crate::background::MarkerView;
use crate::background::TargetView;
use crate::background_runtime::RuntimeView;

verus! {

// ---------------------------------------------------------------------------
// The store at the start
// ---------------------------------------------------------------------------

/// Before the store has been read every change waits, in every repository.
pub proof fn law_every_change_waits_at_the_start(now_ms: u64, root: Seq<char>, target: TargetView)
    ensures
        crate::background_runtime::fresh_runtime(now_ms).blocks(root, target),
        crate::background_runtime::fresh_runtime(now_ms).accepting,
        !crate::background_runtime::fresh_runtime(now_ms).draining,
{
}

/// Reading the store takes exactly the stored markers over: a repository that was read has
/// those markers and no others, each of them counts as stored, and nothing else of the
/// repository does.
pub proof fn law_loaded_markers_are_taken_over(
    runtime: RuntimeView,
    repositories: Set<Seq<char>>,
    given: Map<Seq<char>, Seq<MarkerView>>,
    root: Seq<char>,
)
    requires
        repositories.contains(root),
    ensures
        runtime.with_loaded(repositories, given).loaded.contains(root),
        given.dom().contains(root) ==> runtime.with_loaded(
            repositories,
            given,
        ).markers.dom().contains(root) && runtime.with_loaded(repositories, given).markers[root]
            == given[root],
        !given.dom().contains(root) ==> !runtime.with_loaded(
            repositories,
            given,
        ).markers.dom().contains(root),
        given.dom().contains(root) ==> forall|i: int|
            0 <= i < given[root].len() ==> runtime.with_loaded(
                repositories,
                given,
            ).persisted.contains(
                (MarkerKeyView {
                    root,
                    version: (#[trigger] given[root][i]).recorded_unix_ms,
                    job_id: given[root][i].job_id,
                }),
            ),
        forall|key: MarkerKeyView|
            #![trigger runtime.with_loaded(repositories, given).persisted.contains(key)]
            key.root == root && runtime.with_loaded(repositories, given).persisted.contains(key)
                ==> given.dom().contains(root) && exists|i: int|
                0 <= i < given[root].len() && (#[trigger] given[root][i]).recorded_unix_ms
                    == key.version && given[root][i].job_id == key.job_id,
{
    let after = runtime.with_loaded(repositories, given);
    if given.dom().contains(root) {
        assert forall|i: int| 0 <= i < given[root].len() implies after.persisted.contains(
            (MarkerKeyView {
                root,
                version: (#[trigger] given[root][i]).recorded_unix_ms,
                job_id: given[root][i].job_id,
            }),
        ) by {
            let key = MarkerKeyView {
                root,
                version: given[root][i].recorded_unix_ms,
                job_id: given[root][i].job_id,
            };
            assert(crate::background::marker_name(key.root, given[root][i]) == key);
            assert(crate::background_runtime::names_in(given[root], key, given[root].len()));
        }
    }
}

/// A stored marker keeps waiting, after the next start too, every change that touches a
/// thing that the marker names; one of which nobody can tell what it touched keeps every
/// change of the repository waiting.
pub proof fn law_loaded_marker_blocks(
    runtime: RuntimeView,
    repositories: Set<Seq<char>>,
    given: Map<Seq<char>, Seq<MarkerView>>,
    root: Seq<char>,
    i: int,
    target: TargetView,
    name: Seq<char>,
)
    requires
        repositories.contains(root),
        given.dom().contains(root),
        0 <= i < given[root].len(),
        given[root][i].target is Unknown || (given[root][i].target is Resources
            && given[root][i].target->Resources_0.contains(name) && target is Resources
            && target->Resources_0.contains(name)),
    ensures
        runtime.with_loaded(repositories, given).blocks(root, target),
{
    let after = runtime.with_loaded(repositories, given);
    assert(after.markers[root] == given[root]);
    let marker = after.markers[root][i];
    if let TargetView::Resources(marked) = marker.target {
        let k = choose|k: int| 0 <= k < marked.len() && marked[k] == name;
        assert(marked[k] == name);
    }
}

/// Nothing else makes a change wait: where the store has been read, a change that waits
/// meets a marker of its repository that names a thing that the change touches, or one of
/// which nobody can tell what it touched.
pub proof fn law_only_markers_block(runtime: RuntimeView, root: Seq<char>, target: TargetView)
    requires
        runtime.loaded.contains(root),
        runtime.blocks(root, target),
    ensures
        runtime.markers.dom().contains(root),
        exists|i: int|
            0 <= i < runtime.markers[root].len() && (
            (#[trigger] runtime.markers[root][i]).target is Unknown || (
            runtime.markers[root][i].target is Resources && target is Resources && exists|
                name: Seq<char>,
            |
                runtime.markers[root][i].target->Resources_0.contains(name) && (
                #[trigger] target->Resources_0.contains(name)))),
{
    let i = choose|i: int|
        0 <= i < runtime.markers[root].len() && ((#[trigger] runtime.markers[root][i]).target
            is Unknown || crate::background::targets_overlap(
            runtime.markers[root][i].target,
            target,
        ));
    let marker = runtime.markers[root][i];
    if !(marker.target is Unknown) {
        law_overlap_is_a_common_name(marker.target, target);
    }
}

/// Reading the store of some repositories changes nothing of another, and nothing of the
/// work that is under way.
pub proof fn law_loading_leaves_the_rest_alone(
    runtime: RuntimeView,
    repositories: Set<Seq<char>>,
    given: Map<Seq<char>, Seq<MarkerView>>,
    other: Seq<char>,
    target: TargetView,
)
    requires
        !repositories.contains(other),
    ensures
        ({
            let after = runtime.with_loaded(repositories, given);
            &&& after.loaded.contains(other) == runtime.loaded.contains(other)
            &&& after.markers.dom().contains(other) == runtime.markers.dom().contains(other)
            &&& runtime.markers.dom().contains(other) ==> after.markers[other]
                == runtime.markers[other]
            &&& after.blocks(other, target) == runtime.blocks(other, target)
            &&& forall|key: MarkerKeyView|
                key.root == other ==> (#[trigger] after.persisted.contains(key)
                    == runtime.persisted.contains(key))
            &&& after.failures == runtime.failures
            &&& after.followed == runtime.followed
            &&& after.contexts == runtime.contexts
            &&& after.loading == runtime.loading
            &&& after.reconciling == runtime.reconciling
            &&& after.reconciliation_jobs == runtime.reconciliation_jobs
            &&& after.pending == runtime.pending
            &&& after.enqueued == runtime.enqueued
        }),
{
    let after = runtime.with_loaded(repositories, given);
    if runtime.markers.dom().contains(other) {
        assert(after.markers[other] == runtime.markers[other]);
    }
}

/// Two changes overlap if and only if both are known to touch a thing of the same name.
pub proof fn law_overlap_is_a_common_name(a: TargetView, b: TargetView)
    ensures
        crate::background::targets_overlap(a, b) <==> (a is Resources && b is Resources && exists|
            name: Seq<char>,
        |
            a->Resources_0.contains(name) && (#[trigger] b->Resources_0.contains(name))),
{
    if a is Resources && b is Resources {
        let x = a->Resources_0;
        let y = b->Resources_0;
        if crate::background::targets_overlap(a, b) {
            let i = choose|i: int| 0 <= i < x.len() && y.contains(#[trigger] x[i]);
            assert(x.contains(x[i]) && y.contains(x[i]));
        }
        if exists|name: Seq<char>| x.contains(name) && #[trigger] y.contains(name) {
            let name = choose|name: Seq<char>| x.contains(name) && #[trigger] y.contains(name);
            let i = choose|i: int| 0 <= i < x.len() && x[i] == name;
            assert(y.contains(x[i]));
        }
    }
}

/// A repository that is no longer managed is forgotten, so that its changes wait until its
/// store has been read again; one that still is keeps what is known of it.
pub proof fn law_forgotten_repositories_wait_again(
    runtime: RuntimeView,
    kept: Set<Seq<char>>,
    root: Seq<char>,
    target: TargetView,
)
    ensures
        !kept.contains(root) ==> runtime.with_repositories(kept).blocks(root, target)
            && !runtime.with_repositories(kept).markers.dom().contains(root)
            && !runtime.with_repositories(kept).loading.contains(root),
        kept.contains(root) ==> runtime.with_repositories(kept).blocks(root, target)
            == runtime.blocks(root, target) && (runtime.with_repositories(kept).loading.contains(
            root,
        ) <==> runtime.loading.contains(root)),
        kept.contains(root) && runtime.markers.dom().contains(root) ==> runtime.with_repositories(
            kept,
        ).markers.dom().contains(root) && runtime.with_repositories(kept).markers[root]
            == runtime.markers[root],
        forall|key: MarkerKeyView| #[trigger]
            runtime.with_repositories(kept).persisted.contains(key) <==> runtime.persisted.contains(
                key,
            ) && kept.contains(key.root),
        runtime.with_repositories(kept).pending == runtime.pending,
        runtime.with_repositories(kept).followed == runtime.followed,
        runtime.with_repositories(kept).reconciling == runtime.reconciling,
{
}

// ---------------------------------------------------------------------------
// Markers that are recorded
// ---------------------------------------------------------------------------

/// Recording a marker puts it among those of its repository, in place of one for the same
/// target where there is one; the markers for other targets stay, and so do those of other
/// repositories.
pub proof fn law_recorded_marker_joins_the_others(
    runtime: RuntimeView,
    root: Seq<char>,
    marker: MarkerView,
    other: Seq<char>,
    i: int,
)
    ensures
        runtime.with_marker(root, marker).markers.dom().contains(root),
        runtime.with_marker(root, marker).markers[root].contains(marker),
        runtime.with_marker(root, marker).loaded == runtime.loaded,
        other != root ==> (runtime.with_marker(root, marker).markers.dom().contains(other)
            <==> runtime.markers.dom().contains(other)),
        other != root && runtime.markers.dom().contains(other) ==> runtime.with_marker(
            root,
            marker,
        ).markers[other] == runtime.markers[other],
        runtime.markers.dom().contains(root) && 0 <= i < runtime.markers[root].len()
            && runtime.markers[root][i].target != marker.target ==> runtime.with_marker(
            root,
            marker,
        ).markers[root].contains(runtime.markers[root][i]),
        runtime.markers.dom().contains(root) ==> runtime.markers[root].len()
            <= runtime.with_marker(root, marker).markers[root].len()
            <= runtime.markers[root].len() + 1,
{
    let before = if runtime.markers.dom().contains(root) {
        runtime.markers[root]
    } else {
        Seq::empty()
    };
    crate::background::lemma_marker_position(before, marker.target);
    let next = runtime.with_marker(root, marker).markers[root];
    match crate::background::marker_position(before, marker.target) {
        Some(at) => {
            assert(next[at] == marker);
        },
        None => {
            assert(next[before.len() as int] == marker);
        },
    }
    if runtime.markers.dom().contains(root) && 0 <= i < before.len() && before[i].target
        != marker.target {
        assert(next[i] == before[i]);
    }
}

/// The store takes a marker in unless it holds a later one for the same target, and the
/// markers for other targets stay in it.
pub proof fn law_store_keeps_the_latest(
    markers: Seq<MarkerView>,
    marker: MarkerView,
    i: int,
)
    requires
        0 <= i < markers.len(),
        crate::background::one_per_target(markers),
    ensures
        markers[i].target != marker.target ==> crate::background::stored(
            markers,
            marker,
        ).contains(markers[i]),
        markers[i].target == marker.target && markers[i].recorded_unix_ms
            > marker.recorded_unix_ms ==> crate::background::stored(markers, marker).contains(
            markers[i],
        ),
        markers[i].target == marker.target && markers[i].recorded_unix_ms
            <= marker.recorded_unix_ms ==> crate::background::stored(markers, marker).contains(
            marker,
        ),
{
    crate::background::lemma_marker_position(markers, marker.target);
    let next = crate::background::stored(markers, marker);
    match crate::background::marker_position(markers, marker.target) {
        Some(at) => {
            assert(next[at] == markers[at] || next[at] == marker);
            if i != at {
                assert(next[i] == markers[i]);
            }
        },
        None => {
            assert(next[i] == markers[i]);
            assert(next[markers.len() as int] == marker);
        },
    }
}

// ---------------------------------------------------------------------------
// Markers that are looked into
// ---------------------------------------------------------------------------

/// Looking into a marker without a sure result leaves every marker where it is, and lets
/// the marker be looked into again.
pub proof fn law_unsure_reconciliation_keeps_every_marker(
    runtime: RuntimeView,
    key: MarkerKeyView,
    target: TargetView,
    root: Seq<char>,
    wanted: TargetView,
)
    ensures
        runtime.with_reconciled(key, target, false).markers == runtime.markers,
        runtime.with_reconciled(key, target, false).persisted == runtime.persisted,
        runtime.with_reconciled(key, target, false).blocks(root, wanted) == runtime.blocks(
            root,
            wanted,
        ),
        !runtime.with_reconciled(key, target, false).reconciling.contains(key),
{
}

/// A repository waits no longer once a sure result took away its only marker.
pub proof fn law_sure_result_ends_the_wait(
    runtime: RuntimeView,
    key: MarkerKeyView,
    marker: MarkerView,
    target: TargetView,
)
    requires
        runtime.loaded.contains(key.root),
        runtime.markers.dom().contains(key.root),
        runtime.markers[key.root] == seq![marker],
        marker.recorded_unix_ms == key.version,
        marker.job_id == key.job_id,
    ensures
        !runtime.with_reconciled(key, marker.target, true).blocks(key.root, target),
{
    let only = runtime.markers[key.root];
    reveal_with_fuel(crate::background_runtime::without_marker, 2);
    assert(only.drop_last() =~= Seq::<MarkerView>::empty());
    assert(only.last() == marker);
}

/// The end of looking into one marker concerns no other: other markers stay under way and
/// stored, and so does the work that looks into them.
pub proof fn law_reconciliations_are_told_apart(
    runtime: RuntimeView,
    key: MarkerKeyView,
    target: TargetView,
    succeeded: bool,
    other: MarkerKeyView,
    job_id: u64,
)
    requires
        other != key,
    ensures
        runtime.with_reconciled(key, target, succeeded).reconciling.contains(other)
            == runtime.reconciling.contains(other),
        runtime.with_reconciled(key, target, succeeded).persisted.contains(other)
            == runtime.persisted.contains(other),
        runtime.reconciliation_jobs.dom().contains(job_id) ==> (runtime.with_reconciled(
            key,
            target,
            succeeded,
        ).reconciliation_jobs.dom().contains(job_id) <==> runtime.reconciliation_jobs[job_id]
            != key),
        runtime.with_reconciled(key, target, succeeded).pending == runtime.pending,
        runtime.with_reconciled(key, target, succeeded).loaded == runtime.loaded,
        runtime.with_reconciled(key, target, succeeded).followed == runtime.followed,
{
}

/// Work that failed to look into a marker releases that marker alone.
pub proof fn law_failed_reconciliation_concerns_its_marker_alone(
    runtime: RuntimeView,
    job_id: u64,
    other: MarkerKeyView,
)
    ensures
        runtime.with_failed_reconciliation(job_id).markers == runtime.markers,
        runtime.with_failed_reconciliation(job_id).persisted == runtime.persisted,
        runtime.with_failed_reconciliation(job_id).loaded == runtime.loaded,
        !runtime.with_failed_reconciliation(job_id).reconciliation_jobs.dom().contains(job_id),
        runtime.reconciling.contains(other) && !runtime.with_failed_reconciliation(
            job_id,
        ).reconciling.contains(other) ==> runtime.reconciliation_jobs.dom().contains(job_id)
            && runtime.reconciliation_jobs[job_id] == other,
{
}

// ---------------------------------------------------------------------------
// The writer of markers
// ---------------------------------------------------------------------------

/// The first failed attempt waits ten milliseconds; each further one waits twice as long, up
/// to the sixth; no wait is longer than the maximum.
pub proof fn law_backoff_doubles(failures: u32, maximum_ms: u64)
    ensures
        maximum_ms >= 10 ==> crate::background::backoff_of(1, maximum_ms) == 10,
        crate::background::backoff_of(0, maximum_ms) == crate::background::backoff_of(
            1,
            maximum_ms,
        ),
        1 <= failures < 6 && 2 * crate::background::backoff_of(failures, maximum_ms) <= maximum_ms
            ==> crate::background::backoff_of((failures + 1) as u32, maximum_ms) == 2
            * crate::background::backoff_of(failures, maximum_ms),
        1 <= failures < 6 && 2 * crate::background::backoff_of(failures, maximum_ms) > maximum_ms
            ==> crate::background::backoff_of((failures + 1) as u32, maximum_ms) == maximum_ms,
        failures >= 6 ==> crate::background::backoff_of(failures, maximum_ms)
            == crate::background::backoff_of(6, maximum_ms),
        crate::background::MARKER_RETRY_MAX_BACKOFF_MS == 250,
        crate::background::MARKER_WRITER_START_MAX_BACKOFF_MS == 250,
{
    reveal_with_fuel(crate::background::doubled, 7);
}

/// A writer that is lost is started again at once, and is given everything anew that has
/// not been stored.
pub proof fn law_lost_writer_is_replaced(runtime: RuntimeView, now_ms: u64)
    ensures
        !runtime.with_writer_lost(now_ms).writer_running,
        runtime.with_writer_lost(now_ms).writer_next_start_ms <= now_ms,
        runtime.with_writer_lost(now_ms).pending.dom().difference(
            runtime.with_writer_lost(now_ms).enqueued,
        ) == runtime.pending.dom(),
        runtime.with_writer_lost(now_ms).markers == runtime.markers,
        runtime.with_writer_lost(now_ms).persisted == runtime.persisted,
{
    assert(runtime.with_writer_lost(now_ms).pending.dom().difference(
        runtime.with_writer_lost(now_ms).enqueued,
    ) =~= runtime.pending.dom());
}

/// The name of a marker is its repository, the time it was recorded at and the work that
/// it is of.
pub proof fn law_marker_names(root: Seq<char>, marker: MarkerView)
    ensures
        crate::background::marker_name(root, marker).root == root,
        crate::background::marker_name(root, marker).version == marker.recorded_unix_ms,
        crate::background::marker_name(root, marker).job_id == marker.job_id,
{
}

/// A time that is some milliseconds later is later by just as many, unless that does not
/// fit.
pub proof fn law_later_times(now_ms: u64, wait: int)
    requires
        wait >= 0,
    ensures
        now_ms + wait <= u64::MAX ==> crate::background_runtime::later(now_ms, wait) == now_ms
            + wait,
        now_ms + wait > u64::MAX ==> crate::background_runtime::later(now_ms, wait) == u64::MAX,
{
}

proof fn lemma_marker_stays(
    markers: Seq<MarkerView>,
    target: TargetView,
    version: u64,
    job_id: u64,
    marker: MarkerView,
)
    ensures
        crate::background_runtime::without_marker(markers, target, version, job_id).contains(marker)
            <==> markers.contains(marker) && !(marker.target == target
            && marker.recorded_unix_ms == version && marker.job_id == job_id),
    decreases markers.len(),
{
    if markers.len() > 0 {
        let init = markers.drop_last();
        let last = markers.last();
        let before = crate::background_runtime::without_marker(init, target, version, job_id);
        let now = crate::background_runtime::without_marker(markers, target, version, job_id);
        lemma_marker_stays(init, target, version, job_id, marker);
        assert(markers[markers.len() - 1] == last);
        if init.contains(marker) {
            let i = choose|i: int| 0 <= i < init.len() && init[i] == marker;
            assert(markers[i] == marker);
        }
        if markers.contains(marker) && marker != last {
            let i = choose|i: int| 0 <= i < markers.len() && markers[i] == marker;
            assert(init[i] == marker);
        }
        if now != before {
            assert(now[before.len() as int] == last);
            if before.contains(marker) {
                let i = choose|i: int| 0 <= i < before.len() && before[i] == marker;
                assert(now[i] == marker);
            }
            if now.contains(marker) && marker != last {
                let i = choose|i: int| 0 <= i < now.len() && now[i] == marker;
                assert(before[i] == marker);
            }
        }
    }
}

/// A sure result takes away the marker that was looked into and no other: every other marker
/// of the repository stays, and so does every marker of another repository.
pub proof fn law_sure_result_takes_its_marker_alone(
    runtime: RuntimeView,
    key: MarkerKeyView,
    target: TargetView,
    marker: MarkerView,
    other: Seq<char>,
)
    requires
        runtime.markers.dom().contains(key.root),
        runtime.markers[key.root].contains(marker),
        other != key.root,
    ensures
        ({
            let after = runtime.with_reconciled(key, target, true);
            let is_the_one = marker.target == target && marker.recorded_unix_ms == key.version
                && marker.job_id == key.job_id;
            &&& !is_the_one ==> after.markers.dom().contains(key.root)
                && after.markers[key.root].contains(marker)
            &&& is_the_one ==> !after.markers.dom().contains(key.root)
                || !after.markers[key.root].contains(marker)
            &&& after.markers.dom().contains(other) <==> runtime.markers.dom().contains(other)
            &&& runtime.markers.dom().contains(other) ==> after.markers[other]
                == runtime.markers[other]
            &&& !after.persisted.contains(key)
        }),
{
    lemma_marker_stays(runtime.markers[key.root], target, key.version, key.job_id, marker);
}

/// A marker is among some where one of them has its target, its time and its job.
pub proof fn law_markers_are_found(markers: Seq<MarkerView>, marker: MarkerView, i: int)
    requires
        0 <= i < markers.len(),
    ensures
        markers[i].target == marker.target && markers[i].recorded_unix_ms
            == marker.recorded_unix_ms && markers[i].job_id == marker.job_id
            ==> crate::background::has_marker(markers, marker),
        (forall|k: int|
            0 <= k < markers.len() ==> (#[trigger] markers[k]).target != marker.target)
            ==> !crate::background::has_marker(markers, marker),
        (forall|k: int|
            0 <= k < markers.len() ==> (#[trigger] markers[k]).job_id != marker.job_id)
            ==> !crate::background::has_marker(markers, marker),
        (forall|k: int|
            0 <= k < markers.len() ==> (#[trigger] markers[k]).recorded_unix_ms
                != marker.recorded_unix_ms) ==> !crate::background::has_marker(markers, marker),
{
}

} // verus!
