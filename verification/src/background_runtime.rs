//! The owner of the life of background work: admission, changes to remotes, the
//! markers of uncertain ones, and the state of shutting down.
use vstd::prelude::*;

use crate::background::find_marker_overlap;
use crate::background::put_marker;
use crate::background::retry_backoff;
use crate::background::ContextView;
use crate::background::Marker;
use crate::background::MarkerKey;
use crate::background::MarkerKeyView;
use crate::background::MarkerView;
use crate::background::RemoteContext;
use crate::background::RemoteMutationTarget;
use crate::background::TargetView;
use crate::background::MARKER_WRITER_START_MAX_BACKOFF_MS;
use crate::keys::WorktreeRepositoryKey;
use crate::table::Key;
use crate::table::KeySet;
use crate::table::Table;
use crate::text::same;

verus! {

/// The life of background work.
pub struct BackgroundRuntime {
    failures: Table<u64, String>,
    followed: KeySet<u64>,
    contexts: Table<u64, RemoteContext>,
    markers: Table<WorktreeRepositoryKey, Vec<Marker>>,
    loaded: KeySet<WorktreeRepositoryKey>,
    loading: KeySet<WorktreeRepositoryKey>,
    reconciling: KeySet<MarkerKey>,
    reconciliation_jobs: Table<u64, MarkerKey>,
    persisted: KeySet<MarkerKey>,
    pending: Table<MarkerKey, Marker>,
    enqueued: KeySet<MarkerKey>,
    writer_running: bool,
    writer_next_start_ms: u64,
    writer_start_failures: u32,
    shutdown_errors: Vec<String>,
    accepting: bool,
    draining: bool,
    routing: bool,
}

/// The life of background work, as contracts speak of it.
#[verifier::ext_equal]
pub struct RuntimeView {
    /// What changes to remotes failed with, by the work that made them.
    pub failures: Map<u64, Seq<char>>,
    /// The work that changes a remote and must not be dropped.
    pub followed: Set<u64>,
    /// What is needed to look into that work.
    pub contexts: Map<u64, ContextView>,
    /// The markers of each repository.
    pub markers: Map<Seq<char>, Seq<MarkerView>>,
    /// The repositories whose stored markers are known.
    pub loaded: Set<Seq<char>>,
    /// The repositories whose stored markers are being read.
    pub loading: Set<Seq<char>>,
    /// The markers that are being looked into.
    pub reconciling: Set<MarkerKeyView>,
    /// The work that looks into markers.
    pub reconciliation_jobs: Map<u64, MarkerKeyView>,
    /// The markers that are in the store.
    pub persisted: Set<MarkerKeyView>,
    /// The markers that are still to be stored.
    pub pending: Map<MarkerKeyView, MarkerView>,
    /// Those of them that the writer has been given.
    pub enqueued: Set<MarkerKeyView>,
    pub writer_running: bool,
    pub writer_next_start_ms: u64,
    pub writer_start_failures: u32,
    pub shutdown_errors: Seq<Seq<char>>,
    pub accepting: bool,
    pub draining: bool,
    pub routing: bool,
}

/// The runtime before any work: it takes work, and knows nothing.
pub open spec fn fresh_runtime(now_ms: u64) -> RuntimeView {
    RuntimeView {
        failures: Map::empty(),
        followed: Set::empty(),
        contexts: Map::empty(),
        markers: Map::empty(),
        loaded: Set::empty(),
        loading: Set::empty(),
        reconciling: Set::empty(),
        reconciliation_jobs: Map::empty(),
        persisted: Set::empty(),
        pending: Map::empty(),
        enqueued: Set::empty(),
        writer_running: false,
        writer_next_start_ms: now_ms,
        writer_start_failures: 0,
        shutdown_errors: Seq::empty(),
        accepting: true,
        draining: false,
        routing: false,
    }
}

/// A time some milliseconds later, within the times that fit.
pub open spec fn later(now_ms: u64, wait: int) -> u64 {
    if now_ms + wait > u64::MAX {
        u64::MAX
    } else {
        (now_ms + wait) as u64
    }
}

/// The markers of a repository without the one that has been looked into.
pub open spec fn without_marker(
    markers: Seq<MarkerView>,
    target: TargetView,
    version: u64,
    job_id: u64,
) -> Seq<MarkerView>
    decreases markers.len(),
{
    if markers.len() == 0 {
        markers
    } else {
        let before = without_marker(markers.drop_last(), target, version, job_id);
        let last = markers.last();
        if last.target == target && last.recorded_unix_ms == version && last.job_id == job_id {
            before
        } else {
            before.push(last)
        }
    }
}

impl RuntimeView {
    /// Whether a change to a remote has to wait: the stored markers of the repository are
    /// not known yet, one of them can touch anything, or one overlaps the change.
    pub open spec fn blocks(self, root: Seq<char>, target: TargetView) -> bool {
        !self.loaded.contains(root) || (self.markers.dom().contains(root) && exists|i: int|
            0 <= i < self.markers[root].len() && ((#[trigger] self.markers[root][i]).target
                is Unknown || crate::background::targets_overlap(
                self.markers[root][i].target,
                target,
            )))
    }

    /// The runtime with the stored markers of some repositories taken over.
    pub open spec fn with_loaded(
        self,
        repositories: Set<Seq<char>>,
        given: Map<Seq<char>, Seq<MarkerView>>,
    ) -> RuntimeView {
        RuntimeView {
            loaded: self.loaded.union(repositories),
            markers: Map::new(
                |root: Seq<char>|
                    if repositories.contains(root) {
                        given.dom().contains(root)
                    } else {
                        self.markers.dom().contains(root)
                    },
                |root: Seq<char>|
                    if repositories.contains(root) {
                        given[root]
                    } else {
                        self.markers[root]
                    },
            ),
            persisted: Set::new(
                |key: MarkerKeyView|
                    if repositories.contains(key.root) {
                        names_one(given, key)
                    } else {
                        self.persisted.contains(key)
                    },
            ),
            ..self
        }
    }

    /// The runtime without what belongs to other repositories.
    pub open spec fn with_repositories(self, repositories: Set<Seq<char>>) -> RuntimeView {
        RuntimeView {
            loaded: self.loaded.intersect(repositories),
            loading: self.loading.intersect(repositories),
            markers: self.markers.restrict(repositories),
            persisted: self.persisted.filter(
                |key: MarkerKeyView| repositories.contains(key.root),
            ),
            ..self
        }
    }

    /// The runtime with a marker recorded for a repository.
    pub open spec fn with_marker(self, root: Seq<char>, marker: MarkerView) -> RuntimeView {
        let before = if self.markers.dom().contains(root) {
            self.markers[root]
        } else {
            Seq::empty()
        };
        RuntimeView {
            markers: self.markers.insert(root, crate::background::upserted(before, marker)),
            ..self
        }
    }

    /// The runtime after the work that looks into a marker failed.
    pub open spec fn with_failed_reconciliation(self, job_id: u64) -> RuntimeView {
        if self.reconciliation_jobs.dom().contains(job_id) {
            RuntimeView {
                reconciling: self.reconciling.remove(self.reconciliation_jobs[job_id]),
                reconciliation_jobs: self.reconciliation_jobs.remove(job_id),
                ..self
            }
        } else {
            self
        }
    }

    /// The runtime after the writer could not be reached.
    pub open spec fn with_writer_lost(self, now_ms: u64) -> RuntimeView {
        RuntimeView {
            writer_running: false,
            enqueued: Set::empty(),
            writer_next_start_ms: now_ms,
            ..self
        }
    }

    /// The runtime after a marker has been looked into. Where that brought a sure result
    /// the marker goes, if it is still the one that was looked into.
    pub open spec fn with_reconciled(
        self,
        key: MarkerKeyView,
        target: TargetView,
        succeeded: bool,
    ) -> RuntimeView {
        let released = RuntimeView {
            reconciling: self.reconciling.remove(key),
            reconciliation_jobs: self.reconciliation_jobs.restrict(
                Set::new(|id: u64| self.reconciliation_jobs[id] != key),
            ),
            ..self
        };
        if !succeeded {
            released
        } else if !self.markers.dom().contains(key.root) {
            RuntimeView { persisted: self.persisted.remove(key), ..released }
        } else {
            let rest = without_marker(self.markers[key.root], target, key.version, key.job_id);
            RuntimeView {
                persisted: self.persisted.remove(key),
                markers: if rest.len() == 0 {
                    self.markers.remove(key.root)
                } else {
                    self.markers.insert(key.root, rest)
                },
                ..released
            }
        }
    }
}

/// Whether some markers of repositories hold one with a name.
pub open spec fn names_one(given: Map<Seq<char>, Seq<MarkerView>>, key: MarkerKeyView) -> bool {
    given.dom().contains(key.root) && names_in(given[key.root], key, given[key.root].len())
}

/// Whether one of the first `n` markers of a repository has a name.
pub open spec fn names_in(markers: Seq<MarkerView>, key: MarkerKeyView, n: nat) -> bool {
    exists|i: int|
        0 <= i < n && i < markers.len() && crate::background::marker_name(
            key.root,
            #[trigger] markers[i],
        ) == key
}

fn forget_root(names: &mut KeySet<MarkerKey>, root: &str)
    ensures
        final(names)@ == old(names)@.filter(|key: MarkerKeyView| key.root != crate::text::bare_path(root@)),
{
    let keys: Vec<MarkerKey> = names.keys();
    let ghost all = crate::table::key_views(keys@);
    let mut i: usize = 0;
    while i < keys.len()
        invariant
            i <= keys.len(),
            all == crate::table::key_views(keys@),
            forall|key: MarkerKeyView| #[trigger]
                names@.contains(key) <==> old(names)@.contains(key) && !(key.root == crate::text::bare_path(root@)
                    && exists|k: int| 0 <= k < i && #[trigger] all[k] == key),
        decreases keys.len() - i,
    {
        assert(all[i as int] == keys@[i as int]@);
        let ghost before = names@;
        if crate::text::is_same_path(keys[i].root.as_str(), root) {
            names.remove(&keys[i]);
        }
        proof {
            assert forall|key: MarkerKeyView| #[trigger]
                names@.contains(key) <==> old(names)@.contains(key) && !(key.root == crate::text::bare_path(root@)
                    && exists|k: int| 0 <= k < i + 1 && #[trigger] all[k] == key) by {
                if key == all[i as int] {
                    assert(0 <= i < i + 1);
                }
                if exists|k: int| 0 <= k < i && #[trigger] all[k] == key {
                    let k = choose|k: int| 0 <= k < i && #[trigger] all[k] == key;
                    assert(0 <= k < i + 1 && all[k] == key);
                }
            }
        }
        i += 1;
    }
    proof {
        assert forall|key: MarkerKeyView| #[trigger]
            names@.contains(key) <==> old(names)@.contains(key) && key.root != crate::text::bare_path(root@) by {
            if old(names)@.contains(key) {
                assert(all.contains(key));
            }
        }
    }
    assert(names@ =~= old(names)@.filter(|key: MarkerKeyView| key.root != crate::text::bare_path(root@)));
}

fn keep_roots(names: &mut KeySet<MarkerKey>, roots: &KeySet<WorktreeRepositoryKey>)
    ensures
        final(names)@ == old(names)@.filter(|key: MarkerKeyView| roots@.contains(key.root)),
{
    let keys: Vec<MarkerKey> = names.keys();
    let ghost all = crate::table::key_views(keys@);
    let mut i: usize = 0;
    while i < keys.len()
        invariant
            i <= keys.len(),
            all == crate::table::key_views(keys@),
            forall|key: MarkerKeyView| #[trigger]
                names@.contains(key) <==> old(names)@.contains(key) && !(!roots@.contains(key.root)
                    && exists|k: int| 0 <= k < i && #[trigger] all[k] == key),
        decreases keys.len() - i,
    {
        assert(all[i as int] == keys@[i as int]@);
        let root = WorktreeRepositoryKey { root: keys[i].root.clone() };
        if !roots.contains(&root) {
            names.remove(&keys[i]);
        }
        proof {
            assert forall|key: MarkerKeyView| #[trigger]
                names@.contains(key) <==> old(names)@.contains(key) && !(!roots@.contains(key.root)
                    && exists|k: int| 0 <= k < i + 1 && #[trigger] all[k] == key) by {
                if key == all[i as int] {
                    assert(0 <= i < i + 1);
                }
                if exists|k: int| 0 <= k < i && #[trigger] all[k] == key {
                    let k = choose|k: int| 0 <= k < i && #[trigger] all[k] == key;
                    assert(0 <= k < i + 1 && all[k] == key);
                }
            }
        }
        i += 1;
    }
    proof {
        assert forall|key: MarkerKeyView| #[trigger]
            names@.contains(key) <==> old(names)@.contains(key) && roots@.contains(key.root) by {
            if old(names)@.contains(key) {
                assert(all.contains(key));
            }
        }
    }
    assert(names@ =~= old(names)@.filter(|key: MarkerKeyView| roots@.contains(key.root)));
}

fn keep_repositories(
    set: &mut KeySet<WorktreeRepositoryKey>,
    kept: &KeySet<WorktreeRepositoryKey>,
)
    ensures
        final(set)@ == old(set)@.intersect(kept@),
{
    let keys: Vec<WorktreeRepositoryKey> = set.keys();
    let ghost all = crate::table::key_views(keys@);
    let mut i: usize = 0;
    while i < keys.len()
        invariant
            i <= keys.len(),
            all == crate::table::key_views(keys@),
            forall|key: Seq<char>| #[trigger]
                set@.contains(key) <==> old(set)@.contains(key) && !(!kept@.contains(key)
                    && exists|k: int| 0 <= k < i && #[trigger] all[k] == key),
        decreases keys.len() - i,
    {
        assert(all[i as int] == keys@[i as int]@);
        if !kept.contains(&keys[i]) {
            set.remove(&keys[i]);
        }
        proof {
            assert forall|key: Seq<char>| #[trigger]
                set@.contains(key) <==> old(set)@.contains(key) && !(!kept@.contains(key)
                    && exists|k: int| 0 <= k < i + 1 && #[trigger] all[k] == key) by {
                if key == all[i as int] {
                    assert(0 <= i < i + 1);
                }
                if exists|k: int| 0 <= k < i && #[trigger] all[k] == key {
                    let k = choose|k: int| 0 <= k < i && #[trigger] all[k] == key;
                    assert(0 <= k < i + 1 && all[k] == key);
                }
            }
        }
        i += 1;
    }
    proof {
        assert forall|key: Seq<char>| #[trigger]
            set@.contains(key) <==> old(set)@.contains(key) && kept@.contains(key) by {
            if old(set)@.contains(key) {
                assert(all.contains(key));
            }
        }
    }
    assert(set@ =~= old(set)@.intersect(kept@));
}

/// What a map of texts stands for.
pub open spec fn text_map(map: Map<u64, String>) -> Map<u64, Seq<char>> {
    map.map_values(|text: String| text@)
}

impl BackgroundRuntime {
    /// The runtime as contracts speak of it.
    pub closed spec fn view(&self) -> RuntimeView {
        RuntimeView {
            failures: text_map(self.failures@),
            followed: self.followed@,
            contexts: self.contexts@.map_values(|context: RemoteContext| context@),
            markers: self.markers@.map_values(
                |markers: Vec<Marker>| crate::background::marker_views(markers@),
            ),
            loaded: self.loaded@,
            loading: self.loading@,
            reconciling: self.reconciling@,
            reconciliation_jobs: self.reconciliation_jobs@.map_values(|key: MarkerKey| key@),
            persisted: self.persisted@,
            pending: self.pending@.map_values(|marker: Marker| marker@),
            enqueued: self.enqueued@,
            writer_running: self.writer_running,
            writer_next_start_ms: self.writer_next_start_ms,
            writer_start_failures: self.writer_start_failures,
            shutdown_errors: crate::text::texts(self.shutdown_errors@),
            accepting: self.accepting,
            draining: self.draining,
            routing: self.routing,
        }
    }

    /// A runtime that takes work and knows nothing.
    pub fn new(now_ms: u64) -> (r: Self)
        ensures
            r@ == fresh_runtime(now_ms),
    {
        let r = BackgroundRuntime {
            failures: Table::new(),
            followed: KeySet::new(),
            contexts: Table::new(),
            markers: Table::new(),
            loaded: KeySet::new(),
            loading: KeySet::new(),
            reconciling: KeySet::new(),
            reconciliation_jobs: Table::new(),
            persisted: KeySet::new(),
            pending: Table::new(),
            enqueued: KeySet::new(),
            writer_running: false,
            writer_next_start_ms: now_ms,
            writer_start_failures: 0,
            shutdown_errors: Vec::new(),
            accepting: true,
            draining: false,
            routing: false,
        };
        assert(r@ =~= fresh_runtime(now_ms));
        r
    }

    /// Starts to hand out results, unless that is under way; says whether it did.
    pub fn begin_routing(&mut self) -> (r: bool)
        ensures
            r == !old(self)@.routing,
            final(self)@ == (RuntimeView { routing: true, ..old(self)@ }),
    {
        if self.routing {
            false
        } else {
            self.routing = true;
            true
        }
    }

    /// Ends handing out results.
    pub fn finish_routing(&mut self)
        ensures
            final(self)@ == (RuntimeView { routing: false, ..old(self)@ }),
    {
        self.routing = false;
    }

    /// Whether results are being handed out.
    pub fn is_routing(&self) -> (r: bool)
        ensures
            r == self@.routing,
    {
        self.routing
    }

    /// Begins to shut down; gives back the number of active pieces of work.
    pub fn begin_shutdown(&mut self, active: usize) -> (r: usize)
        ensures
            r == active,
            final(self)@ == (RuntimeView { draining: true, ..old(self)@ }),
    {
        self.draining = true;
        active
    }

    /// Takes no more work. That happens only after the results that had already come in
    /// have been looked at, since those may ask for one more marker to be stored. Gives back
    /// the work that must not be cancelled, unless admission had been closed before.
    pub fn stop_admission_for_shutdown(&mut self) -> (r: Option<Vec<u64>>)
        requires
            old(self)@.draining,
        ensures
            final(self)@ == (RuntimeView { accepting: false, ..old(self)@ }),
            match r {
                Some(ids) => old(self)@.accepting && crate::table::lists::<u64>(
                    crate::table::key_views(ids@),
                    old(self)@.followed,
                ),
                None => !old(self)@.accepting,
            },
    {
        if !self.accepting {
            return None;
        }
        self.accepting = false;
        Some(self.followed.keys())
    }

    /// Whether work is taken.
    pub fn is_accepting(&self) -> (r: bool)
        ensures
            r == self@.accepting,
    {
        self.accepting
    }

    /// The active pieces of work that are to be cancelled: all but the current ones and the
    /// changes to remotes that are followed.
    pub fn cancel_stale_except(&self, active: &Vec<u64>, current: &KeySet<u64>) -> (r: Vec<u64>)
        ensures
            r@ == active@.filter(|id: u64| !current@.contains(id) && !self@.followed.contains(id)),
    {
        let mut stale: Vec<u64> = Vec::new();
        let ghost wanted = |id: u64| !current@.contains(id) && !self@.followed.contains(id);
        let mut i: usize = 0;
        assert(active@.take(0).filter(wanted) =~= Seq::<u64>::empty()) by {
            reveal(Seq::filter);
        }
        while i < active.len()
            invariant
                i <= active@.len(),
                wanted == (|id: u64| !current@.contains(id) && !self@.followed.contains(id)),
                stale@ == active@.take(i as int).filter(wanted),
            decreases active.len() - i,
        {
            assert(active@.take(i + 1).drop_last() =~= active@.take(i as int));
            proof {
                reveal(Seq::filter);
            }
            if !current.contains(&active[i]) && !self.followed.contains(&active[i]) {
                stale.push(active[i]);
            }
            i += 1;
        }
        assert(active@.take(active@.len() as int) =~= active@);
        stale
    }

    /// Whether the dashboard is shutting down.
    pub fn is_draining(&self) -> (r: bool)
        ensures
            r == self@.draining,
    {
        self.draining
    }

    /// Lets go of every change to a remote that is still under way.
    pub fn abandon_unfinished(&mut self)
        ensures
            final(self)@ == (RuntimeView {
                followed: Set::empty(),
                contexts: Map::empty(),
                ..old(self)@
            }),
    {
        self.followed = KeySet::new();
        self.contexts = Table::new();
        assert(self@ =~= (RuntimeView {
            followed: Set::empty(),
            contexts: Map::empty(),
            ..old(self)@
        }));
    }

    /// Whether anything is still to be done: work of the registry, or markers to store.
    pub fn has_jobs(&self, registry_has_jobs: bool) -> (r: bool)
        ensures
            r == (registry_has_jobs || self@.pending.dom() != Set::<MarkerKeyView>::empty()),
    {
        assert(self@.pending.dom() =~= self.pending@.dom());
        registry_has_jobs || !self.pending.is_empty()
    }

    /// How many markers are still to be stored.
    pub fn unresolved_marker_persistence(&self) -> (r: usize)
        ensures
            r == self@.pending.dom().len(),
    {
        assert(self@.pending.dom() =~= self.pending@.dom());
        self.pending.len()
    }

    /// Follows a change to a remote until it has a sure result.
    pub fn track_remote_action(&mut self, id: u64, context: RemoteContext)
        ensures
            final(self)@ == (RuntimeView {
                followed: old(self)@.followed.insert(id),
                contexts: old(self)@.contexts.insert(id, context@),
                ..old(self)@
            }),
    {
        self.followed.insert(id);
        self.contexts.insert(id, context);
        assert(self@ =~= (RuntimeView {
            followed: old(self)@.followed.insert(id),
            contexts: old(self)@.contexts.insert(id, context@),
            ..old(self)@
        }));
    }

    /// Stops following a change to a remote.
    pub fn finish_remote_action(&mut self, id: u64)
        ensures
            final(self)@ == (RuntimeView {
                followed: old(self)@.followed.remove(id),
                contexts: old(self)@.contexts.remove(id),
                ..old(self)@
            }),
    {
        self.followed.remove(&id);
        let _ = self.contexts.remove(&id);
        assert(self@ =~= (RuntimeView {
            followed: old(self)@.followed.remove(id),
            contexts: old(self)@.contexts.remove(id),
            ..old(self)@
        }));
    }

    /// Whether a change to a remote is followed.
    pub fn remote_action_is_tracked(&self, id: u64) -> (r: bool)
        ensures
            r == self@.followed.contains(id),
    {
        self.followed.contains(&id)
    }

    /// What is needed to look into a change to a remote.
    pub fn remote_context(&self, id: u64) -> (r: Option<RemoteContext>)
        ensures
            match r {
                Some(context) => self@.contexts.dom().contains(id) && context@
                    == self@.contexts[id],
                None => !self@.contexts.dom().contains(id),
            },
    {
        match self.contexts.get(&id) {
            Some(context) => Some(context.copy()),
            None => None,
        }
    }

    /// Whether any change to a remote is followed.
    pub fn has_tracked_remote_actions(&self) -> (r: bool)
        ensures
            r == (self@.followed != Set::<u64>::empty()),
    {
        !self.followed.is_empty()
    }

    /// The changes to remotes that are followed, in order.
    pub fn tracked_remote_action_ids(&self) -> (r: Vec<u64>)
        ensures
            crate::table::lists::<u64>(crate::table::key_views(r@), self@.followed),
    {
        self.followed.keys()
    }

    /// Records what a change to a remote failed with.
    pub fn record_remote_failure(&mut self, id: u64, error: String)
        ensures
            final(self)@ == (RuntimeView {
                failures: old(self)@.failures.insert(id, error@),
                ..old(self)@
            }),
    {
        self.failures.insert(id, error);
        assert(self@ =~= (RuntimeView {
            failures: old(self)@.failures.insert(id, error@),
            ..old(self)@
        }));
    }

    /// Takes what a change to a remote failed with.
    pub fn take_remote_failure(&mut self, id: u64) -> (r: Option<String>)
        ensures
            final(self)@ == (RuntimeView {
                failures: old(self)@.failures.remove(id),
                ..old(self)@
            }),
            match r {
                Some(error) => old(self)@.failures.dom().contains(id) && error@
                    == old(self)@.failures[id],
                None => !old(self)@.failures.dom().contains(id),
            },
    {
        let taken: Option<String> = self.failures.remove(&id);
        assert(self@ =~= (RuntimeView {
            failures: old(self)@.failures.remove(id),
            ..old(self)@
        }));
        taken
    }

    /// The markers of a repository.
    pub fn markers(&self, root: &WorktreeRepositoryKey) -> (r: Option<&Vec<Marker>>)
        ensures
            match r {
                Some(markers) => self@.markers.dom().contains(root@)
                    && crate::background::marker_views(markers@) == self@.markers[root@],
                None => !self@.markers.dom().contains(root@),
            },
    {
        self.markers.get(root)
    }

    /// How many markers a repository has.
    pub fn marker_count(&self, root: &WorktreeRepositoryKey) -> (r: usize)
        ensures
            r == (if self@.markers.dom().contains(root@) {
                self@.markers[root@].len()
            } else {
                0
            }),
    {
        match self.markers.get(root) {
            Some(markers) => markers.len(),
            None => 0,
        }
    }

    /// Begins to read the stored markers of a repository, unless they are known or being
    /// read; says whether it did.
    pub fn begin_marker_load(&mut self, repository: WorktreeRepositoryKey) -> (r: bool)
        ensures
            r == (!old(self)@.loaded.contains(repository@) && !old(self)@.loading.contains(
                repository@,
            )),
            final(self)@ == (if old(self)@.loaded.contains(repository@) {
                old(self)@
            } else {
                RuntimeView { loading: old(self)@.loading.insert(repository@), ..old(self)@ }
            }),
    {
        if self.loaded.contains(&repository) {
            return false;
        }
        self.loading.insert(repository)
    }

    /// Ends reading the stored markers of some repositories.
    pub fn finish_marker_loads(&mut self, repositories: &KeySet<WorktreeRepositoryKey>)
        ensures
            final(self)@ == (RuntimeView {
                loading: old(self)@.loading.difference(repositories@),
                ..old(self)@
            }),
    {
        let keys: Vec<WorktreeRepositoryKey> = repositories.keys();
        let ghost all = crate::table::key_views(keys@);
        let mut i: usize = 0;
        while i < keys.len()
            invariant
                i <= keys.len(),
                all == crate::table::key_views(keys@),
                self@ == (RuntimeView { loading: self@.loading, ..old(self)@ }),
                forall|key: Seq<char>| #[trigger]
                    self@.loading.contains(key) <==> old(self)@.loading.contains(key) && !(exists|
                        k: int,
                    |
                        0 <= k < i && #[trigger] all[k] == key),
            decreases keys.len() - i,
        {
            assert(all[i as int] == keys@[i as int]@);
            self.loading.remove(&keys[i]);
            proof {
                assert forall|key: Seq<char>| #[trigger]
                    self@.loading.contains(key) <==> old(self)@.loading.contains(key) && !(exists|
                        k: int,
                    |
                        0 <= k < i + 1 && #[trigger] all[k] == key) by {
                    if key == all[i as int] {
                        assert(0 <= i < i + 1);
                    }
                    if exists|k: int| 0 <= k < i && #[trigger] all[k] == key {
                        let k = choose|k: int| 0 <= k < i && #[trigger] all[k] == key;
                        assert(0 <= k < i + 1 && all[k] == key);
                    }
                }
            }
            i += 1;
        }
        proof {
            assert forall|key: Seq<char>| #[trigger]
                self@.loading.contains(key) <==> old(self)@.loading.contains(key)
                    && !repositories@.contains(key) by {
                assert(all.contains(key) <==> repositories@.contains(key));
            }
            assert(self@.loading =~= old(self)@.loading.difference(repositories@));
        }
    }

    /// Ends reading stored markers without a result.
    pub fn fail_marker_loads(&mut self)
        ensures
            final(self)@ == (RuntimeView { loading: Set::empty(), ..old(self)@ }),
    {
        self.loading = KeySet::new();
    }

    /// Whether the stored markers of a repository are known.
    pub fn markers_are_loaded(&self, repository: &WorktreeRepositoryKey) -> (r: bool)
        ensures
            r == self@.loaded.contains(repository@),
    {
        self.loaded.contains(repository)
    }

    /// Drops what belongs to other repositories.
    pub fn retain_repositories(&mut self, repositories: &KeySet<WorktreeRepositoryKey>)
        ensures
            final(self)@ == old(self)@.with_repositories(repositories@),
    {
        keep_repositories(&mut self.loaded, repositories);
        keep_repositories(&mut self.loading, repositories);
        let keys: Vec<WorktreeRepositoryKey> = self.markers.keys();
        let ghost all = crate::table::key_views(keys@);
        let ghost before = self.markers@;
        let mut i: usize = 0;
        while i < keys.len()
            invariant
                i <= keys.len(),
                all == crate::table::key_views(keys@),
                forall|key: Seq<char>| #[trigger]
                    self.markers@.dom().contains(key) <==> before.dom().contains(key)
                        && !(!repositories@.contains(key) && exists|k: int|
                        0 <= k < i && #[trigger] all[k] == key),
                forall|key: Seq<char>| #[trigger]
                    self.markers@.dom().contains(key) ==> self.markers@[key] == before[key],
                self@ == (RuntimeView {
                    loaded: old(self)@.loaded.intersect(repositories@),
                    loading: old(self)@.loading.intersect(repositories@),
                    markers: self@.markers,
                    ..old(self)@
                }),
            decreases keys.len() - i,
        {
            assert(all[i as int] == keys@[i as int]@);
            if !repositories.contains(&keys[i]) {
                let _ = self.markers.remove(&keys[i]);
            }
            proof {
                assert forall|key: Seq<char>| #[trigger]
                    self.markers@.dom().contains(key) <==> before.dom().contains(key)
                        && !(!repositories@.contains(key) && exists|k: int|
                        0 <= k < i + 1 && #[trigger] all[k] == key) by {
                    if key == all[i as int] {
                        assert(0 <= i < i + 1);
                    }
                    if exists|k: int| 0 <= k < i && #[trigger] all[k] == key {
                        let k = choose|k: int| 0 <= k < i && #[trigger] all[k] == key;
                        assert(0 <= k < i + 1 && all[k] == key);
                    }
                }
            }
            i += 1;
        }
        proof {
            assert forall|key: Seq<char>| #[trigger]
                self.markers@.dom().contains(key) <==> before.dom().contains(key)
                    && repositories@.contains(key) by {
                if before.dom().contains(key) {
                    assert(all.contains(key));
                }
            }
            assert(self@.markers =~= old(self)@.markers.restrict(repositories@));
        }
        keep_roots(&mut self.persisted, repositories);
    }

    /// Records a marker: in the place of the one for the same target, or at the end.
    pub fn upsert_marker(&mut self, root: WorktreeRepositoryKey, marker: Marker)
        ensures
            final(self)@ == old(self)@.with_marker(root@, marker@),
    {
        let mut list: Vec<Marker> = match self.markers.remove(&root) {
            Some(list) => list,
            None => Vec::new(),
        };
        let ghost before = crate::background::marker_views(list@);
        assert(old(self)@.markers.dom().contains(root@) ==> before == old(self)@.markers[root@]);
        assert(!old(self)@.markers.dom().contains(root@) ==> before =~= Seq::<MarkerView>::empty());
        let ghost value = marker@;
        put_marker(&mut list, marker);
        let ghost name = root@;
        self.markers.insert(root, list);
        assert(self@.markers =~= old(self)@.markers.insert(
            name,
            crate::background::upserted(before, value),
        ));
    }

    /// Whether a change to a remote has to wait.
    pub fn marker_blocks(
        &self,
        repository: &WorktreeRepositoryKey,
        target: &RemoteMutationTarget,
    ) -> (r: bool)
        ensures
            r == self@.blocks(repository@, target@),
    {
        if !self.loaded.contains(repository) {
            return true;
        }
        match self.markers.get(repository) {
            Some(markers) => {
                let ghost all = crate::background::marker_views(markers@);
                assert(all == self@.markers[repository@]);
                let found: bool = find_marker_overlap(markers, target);
                proof {
                    if found {
                        let i = choose|i: int|
                            0 <= i < markers.len() && ((#[trigger] all[i]).target is Unknown
                                || crate::background::targets_overlap(all[i].target, target@));
                        assert(0 <= i < self@.markers[repository@].len()
                            && (self@.markers[repository@][i].target is Unknown
                            || crate::background::targets_overlap(
                            self@.markers[repository@][i].target,
                            target@,
                        )));
                    }
                    if self@.blocks(repository@, target@) {
                        let i = choose|i: int|
                            0 <= i < self@.markers[repository@].len() && ((
                            #[trigger] self@.markers[repository@][i]).target is Unknown
                                || crate::background::targets_overlap(
                                self@.markers[repository@][i].target,
                                target@,
                            ));
                        assert(0 <= i < markers.len() && (all[i].target is Unknown
                            || crate::background::targets_overlap(all[i].target, target@)));
                    }
                }
                found
            },
            None => false,
        }
    }

    /// Asks for a marker to be stored.
    pub fn persist_marker(&mut self, root: &WorktreeRepositoryKey, marker: Marker)
        ensures
            final(self)@ == (RuntimeView {
                pending: old(self)@.pending.insert(
                    crate::background::marker_name(root@, marker@),
                    marker@,
                ),
                ..old(self)@
            }),
    {
        let key = MarkerKey {
            root: root.root.clone(),
            version: marker.recorded_unix_ms,
            job_id: marker.job_id,
        };
        let ghost name = key@;
        self.pending.insert(key, marker);
        assert(self@.pending =~= old(self)@.pending.insert(name, marker@));
    }

    /// Takes the writer's answer for a marker: it is no longer to be stored, and is known
    /// to be in the store if the writer says so.
    pub fn apply_persistence_result(&mut self, key: &MarkerKey, result: &Result<bool, String>)
        ensures
            final(self)@ == (RuntimeView {
                pending: old(self)@.pending.remove(key@),
                enqueued: old(self)@.enqueued.remove(key@),
                persisted: if *result == Ok::<bool, String>(true) {
                    old(self)@.persisted.insert(key@)
                } else {
                    old(self)@.persisted
                },
                ..old(self)@
            }),
    {
        let _ = self.pending.remove(key);
        self.enqueued.remove(key);
        assert(self@.pending =~= old(self)@.pending.remove(key@));
        match result {
            Ok(stored) => {
                if *stored {
                    self.persisted.insert(key.copy_key());
                }
            },
            Err(_) => {},
        }
    }

    /// Takes notice that the writer has ended: it has no marker in hand.
    pub fn writer_finished(&mut self)
        ensures
            final(self)@ == (RuntimeView {
                writer_running: false,
                enqueued: Set::empty(),
                ..old(self)@
            }),
    {
        self.writer_running = false;
        self.enqueued = KeySet::new();
    }

    /// Whether the writer is to be started: there are markers to store, none runs, and the
    /// wait after the last failure is over.
    pub fn writer_start_is_due(&self, now_ms: u64) -> (r: bool)
        ensures
            r == (self@.pending.dom() != Set::<MarkerKeyView>::empty() && !self@.writer_running
                && now_ms >= self@.writer_next_start_ms),
    {
        assert(self@.pending.dom() =~= self.pending@.dom());
        !self.pending.is_empty() && !self.writer_running && now_ms >= self.writer_next_start_ms
    }

    /// Takes notice that the writer has been started.
    pub fn writer_started(&mut self, now_ms: u64)
        ensures
            final(self)@ == (RuntimeView {
                writer_running: true,
                writer_start_failures: 0,
                writer_next_start_ms: now_ms,
                ..old(self)@
            }),
    {
        self.writer_running = true;
        self.writer_start_failures = 0;
        self.writer_next_start_ms = now_ms;
    }

    /// Takes notice that the writer could not be started: the next attempt waits the
    /// longer, the more failed.
    pub fn record_marker_writer_start_failure(&mut self, now_ms: u64)
        ensures
            ({
                let failures = if old(self)@.writer_start_failures == u32::MAX {
                    u32::MAX
                } else {
                    (old(self)@.writer_start_failures + 1) as u32
                };
                final(self)@ == (RuntimeView {
                    writer_start_failures: failures,
                    writer_next_start_ms: later(
                        now_ms,
                        crate::background::backoff_of(
                            failures,
                            MARKER_WRITER_START_MAX_BACKOFF_MS,
                        ),
                    ),
                    ..old(self)@
                })
            }),
    {
        self.writer_start_failures = self.writer_start_failures.saturating_add(1);
        let wait: u64 = retry_backoff(
            self.writer_start_failures,
            MARKER_WRITER_START_MAX_BACKOFF_MS,
        );
        self.writer_next_start_ms = now_ms.saturating_add(wait);
    }

    /// The markers that the writer is to be given next, in the order of their names: those
    /// to be stored that it has not been given. None while no writer runs.
    pub fn unsent_markers(&self) -> (r: Vec<MarkerKey>)
        ensures
            crate::table::lists::<MarkerKey>(
                crate::table::key_views(r@),
                if self@.writer_running {
                    self@.pending.dom().difference(self@.enqueued)
                } else {
                    Set::empty()
                },
            ),
    {
        let mut out: Vec<MarkerKey> = Vec::new();
        assert(crate::table::key_views(out@) =~= Seq::<MarkerKeyView>::empty());
        if !self.writer_running {
            return out;
        }
        let keys: Vec<MarkerKey> = self.pending.keys();
        let ghost all = crate::table::key_views(keys@);
        let mut i: usize = 0;
        while i < keys.len()
            invariant
                i <= keys.len(),
                all == crate::table::key_views(keys@),
                crate::table::in_order::<MarkerKey>(all),
                crate::table::in_order::<MarkerKey>(crate::table::key_views(out@)),
                forall|k: int|
                    0 <= k < out.len() ==> #[trigger] all.take(i as int).contains(
                        crate::table::key_views(out@)[k],
                    ) && !self.enqueued@.contains(crate::table::key_views(out@)[k]),
                forall|k: int|
                    0 <= k < i && !self.enqueued@.contains(#[trigger] all[k])
                        ==> crate::table::key_views(out@).contains(all[k]),
            decreases keys.len() - i,
        {
            let ghost before = crate::table::key_views(out@);
            let ghost name = keys@[i as int]@;
            assert(all[i as int] == name);
            assert forall|key: MarkerKeyView| #[trigger]
                all.take(i as int).contains(key) implies all.take(i + 1).contains(key) by {
                let k = choose|k: int| 0 <= k < i && all.take(i as int)[k] == key;
                assert(all.take(i + 1)[k] == key);
            }
            assert(all.take(i + 1)[i as int] == name);
            if !self.enqueued.contains(&keys[i]) {
                out.push(keys[i].copy_key());
                proof {
                    let now = crate::table::key_views(out@);
                    assert(now =~= before.push(name));
                    assert forall|a: int, b: int| 0 <= a < b < now.len() implies MarkerKey::before(
                        #[trigger] now[a],
                        #[trigger] now[b],
                    ) by {
                        assert(now[a] == before[a]);
                        if b < before.len() {
                            assert(now[b] == before[b]);
                        } else {
                            assert(all.take(i as int).contains(before[a]));
                            let k = choose|k: int| 0 <= k < i && all.take(i as int)[k] == before[a];
                            assert(all[k] == before[a]);
                        }
                    }
                    assert forall|k: int| 0 <= k < i + 1 && !self.enqueued@.contains(
                        #[trigger] all[k],
                    ) implies now.contains(all[k]) by {
                        if k < i {
                            assert(before.contains(all[k]));
                            let j = choose|j: int| 0 <= j < before.len() && before[j] == all[k];
                            assert(now[j] == all[k]);
                        } else {
                            assert(now[before.len() as int] == name);
                        }
                    }
                }
            }
            proof {
                let now = crate::table::key_views(out@);
                assert forall|k: int| 0 <= k < out.len() implies #[trigger] all.take(
                    i + 1,
                ).contains(now[k]) && !self.enqueued@.contains(now[k]) by {
                    if k < before.len() {
                        assert(now[k] == before[k]);
                        assert(all.take(i as int).contains(before[k]));
                    }
                }
            }
            i += 1;
        }
        proof {
            let now = crate::table::key_views(out@);
            assert(all.take(all.len() as int) =~= all);
            assert forall|key: MarkerKeyView| #[trigger]
                now.contains(key) <==> self@.pending.dom().difference(self@.enqueued).contains(
                    key,
                ) by {
                if now.contains(key) {
                    let k = choose|k: int| 0 <= k < now.len() && now[k] == key;
                    assert(all.take(all.len() as int).contains(now[k]));
                    assert(all.contains(key));
                }
                if self@.pending.dom().difference(self@.enqueued).contains(key) {
                    assert(all.contains(key));
                    let k = choose|k: int| 0 <= k < all.len() && all[k] == key;
                    assert(now.contains(all[k]));
                }
            }
        }
        out
    }

    /// A marker that is still to be stored.
    pub fn pending_marker(&self, key: &MarkerKey) -> (r: Option<Marker>)
        ensures
            match r {
                Some(marker) => self@.pending.dom().contains(key@) && marker@
                    == self@.pending[key@],
                None => !self@.pending.dom().contains(key@),
            },
    {
        match self.pending.get(key) {
            Some(marker) => Some(marker.copy()),
            None => None,
        }
    }

    /// Takes notice that the writer has been given a marker.
    pub fn marker_sent(&mut self, key: &MarkerKey)
        ensures
            final(self)@ == (RuntimeView {
                enqueued: old(self)@.enqueued.insert(key@),
                ..old(self)@
            }),
    {
        self.enqueued.insert(key.copy_key());
    }

    /// Takes notice that the writer cannot be reached: it can be started again at once.
    pub fn writer_lost(&mut self, now_ms: u64)
        ensures
            final(self)@ == old(self)@.with_writer_lost(now_ms),
    {
        self.writer_running = false;
        self.enqueued = KeySet::new();
        self.writer_next_start_ms = now_ms;
    }

    /// Whether a marker is known to be in the store.
    pub fn marker_is_persisted(&self, key: &MarkerKey) -> (r: bool)
        ensures
            r == self@.persisted.contains(key@),
    {
        self.persisted.contains(key)
    }

    /// Begins to look into a marker, unless that is under way; says whether it did.
    pub fn begin_reconciliation(&mut self, key: MarkerKey) -> (r: bool)
        ensures
            r == !old(self)@.reconciling.contains(key@),
            final(self)@ == (RuntimeView {
                reconciling: old(self)@.reconciling.insert(key@),
                ..old(self)@
            }),
    {
        self.reconciling.insert(key)
    }

    /// Takes notice of the work that looks into a marker.
    pub fn track_reconciliation_job(&mut self, job_id: u64, key: MarkerKey)
        ensures
            final(self)@ == (RuntimeView {
                reconciliation_jobs: old(self)@.reconciliation_jobs.insert(job_id, key@),
                ..old(self)@
            }),
    {
        let ghost name = key@;
        self.reconciliation_jobs.insert(job_id, key);
        assert(self@.reconciliation_jobs =~= old(self)@.reconciliation_jobs.insert(job_id, name));
    }

    /// Takes notice that the work that looks into a marker failed: the marker can be looked
    /// into again.
    pub fn fail_reconciliation_job(&mut self, job_id: u64)
        ensures
            final(self)@ == old(self)@.with_failed_reconciliation(job_id),
    {
        match self.reconciliation_jobs.remove(&job_id) {
            Some(key) => {
                self.reconciling.remove(&key);
            },
            None => {},
        }
        proof {
            if old(self)@.reconciliation_jobs.dom().contains(job_id) {
                assert(self@.reconciliation_jobs =~= old(self)@.reconciliation_jobs.remove(job_id));
            } else {
                assert(self@.reconciliation_jobs =~= old(self)@.reconciliation_jobs);
            }
        }
    }

    /// Records an error that the end of the dashboard reports.
    pub fn push_shutdown_error(&mut self, error: String)
        ensures
            final(self)@ == (RuntimeView {
                shutdown_errors: old(self)@.shutdown_errors.push(error@),
                ..old(self)@
            }),
    {
        self.shutdown_errors.push(error);
        assert(self@.shutdown_errors =~= old(self)@.shutdown_errors.push(error@));
    }

    /// Takes the errors that the end of the dashboard reports.
    pub fn take_shutdown_errors(&mut self) -> (r: Vec<String>)
        ensures
            crate::text::texts(r@) == old(self)@.shutdown_errors,
            final(self)@ == (RuntimeView { shutdown_errors: Seq::empty(), ..old(self)@ }),
    {
        let mut taken: Vec<String> = Vec::new();
        std::mem::swap(&mut taken, &mut self.shutdown_errors);
        assert(self@.shutdown_errors =~= Seq::<Seq<char>>::empty());
        taken
    }
}

/// Whether a repository is among the first `n` of a list.
pub open spec fn seen(all: Seq<Seq<char>>, n: int, root: Seq<char>) -> bool {
    exists|k: int| 0 <= k < n && k < all.len() && #[trigger] all[k] == root
}

proof fn lemma_seen_step(all: Seq<Seq<char>>, n: int, root: Seq<char>)
    requires
        0 <= n < all.len(),
    ensures
        seen(all, n + 1, root) == (seen(all, n, root) || root == all[n]),
{
    if seen(all, n, root) {
        let k = choose|k: int| 0 <= k < n && k < all.len() && #[trigger] all[k] == root;
        assert(0 <= k < n + 1 && all[k] == root);
    }
    if root == all[n] {
        assert(0 <= n < n + 1 && all[n] == root);
    }
}

fn add_names(names: &mut KeySet<MarkerKey>, root: &str, markers: &Vec<Marker>)
    ensures
        forall|key: MarkerKeyView| #[trigger]
            final(names)@.contains(key) <==> old(names)@.contains(key) || (key.root == crate::text::bare_path(root@)
                && names_in(
                crate::background::marker_views(markers@),
                key,
                markers@.len(),
            )),
{
    let ghost all = crate::background::marker_views(markers@);
    let mut i: usize = 0;
    while i < markers.len()
        invariant
            i <= markers.len(),
            all == crate::background::marker_views(markers@),
            forall|key: MarkerKeyView| #[trigger]
                names@.contains(key) <==> old(names)@.contains(key) || (key.root == crate::text::bare_path(root@)
                    && names_in(all, key, i as nat)),
        decreases markers.len() - i,
    {
        assert(all[i as int] == markers@[i as int]@);
        let key = MarkerKey {
            root: crate::text::owned(root),
            version: markers[i].recorded_unix_ms,
            job_id: markers[i].job_id,
        };
        let ghost name = key@;
        names.insert(key);
        proof {
            assert(name == crate::background::marker_name(crate::text::bare_path(root@), all[i as int]));
            assert forall|key: MarkerKeyView| #[trigger]
                names@.contains(key) <==> old(names)@.contains(key) || (key.root == crate::text::bare_path(root@)
                    && names_in(all, key, i as nat + 1)) by {
                if key.root == crate::text::bare_path(root@) {
                    if names_in(all, key, i as nat) {
                        let k = choose|k: int|
                            0 <= k < i && k < all.len() && crate::background::marker_name(
                                key.root,
                                #[trigger] all[k],
                            ) == key;
                        assert(0 <= k < i + 1 && crate::background::marker_name(
                            key.root,
                            all[k],
                        ) == key);
                    }
                    if key == name {
                        assert(0 <= i < i + 1 && crate::background::marker_name(
                            key.root,
                            all[i as int],
                        ) == key);
                    }
                    if names_in(all, key, i as nat + 1) && key != name {
                        let k = choose|k: int|
                            0 <= k < i + 1 && k < all.len() && crate::background::marker_name(
                                key.root,
                                #[trigger] all[k],
                            ) == key;
                        assert(k < i);
                    }
                }
            }
        }
        i += 1;
    }
}

fn drop_marker(
    markers: &Vec<Marker>,
    target: &RemoteMutationTarget,
    version: u64,
    job_id: u64,
) -> (r: Vec<Marker>)
    ensures
        crate::background::marker_views(r@) == without_marker(
            crate::background::marker_views(markers@),
            target@,
            version,
            job_id,
        ),
{
    let ghost all = crate::background::marker_views(markers@);
    let mut out: Vec<Marker> = Vec::new();
    let mut i: usize = 0;
    assert(all.take(0) =~= Seq::<MarkerView>::empty());
    assert(crate::background::marker_views(out@) =~= Seq::<MarkerView>::empty());
    while i < markers.len()
        invariant
            i <= markers.len(),
            all == crate::background::marker_views(markers@),
            crate::background::marker_views(out@) == without_marker(
                all.take(i as int),
                target@,
                version,
                job_id,
            ),
        decreases markers.len() - i,
    {
        let ghost before = crate::background::marker_views(out@);
        assert(all.take(i + 1).drop_last() =~= all.take(i as int));
        assert(all.take(i + 1).last() == markers@[i as int]@);
        if !(markers[i].target.is(target) && markers[i].recorded_unix_ms == version
            && markers[i].job_id == job_id) {
            out.push(markers[i].copy());
            assert(crate::background::marker_views(out@) =~= before.push(markers@[i as int]@));
        }
        i += 1;
    }
    assert(all.take(all.len() as int) =~= all);
    out
}

/// What a map of markers stands for.
pub open spec fn marker_map(map: Map<Seq<char>, Vec<Marker>>) -> Map<Seq<char>, Seq<MarkerView>> {
    map.map_values(|markers: Vec<Marker>| crate::background::marker_views(markers@))
}

impl BackgroundRuntime {
    /// Takes over the stored markers of some repositories: what was known of their markers
    /// before gives way to what the store holds.
    pub fn apply_loaded_markers(
        &mut self,
        repositories: &KeySet<WorktreeRepositoryKey>,
        markers: Table<WorktreeRepositoryKey, Vec<Marker>>,
    )
        ensures
            final(self)@ == old(self)@.with_loaded(repositories@, marker_map(markers@)),
    {
        let ghost given = marker_map(markers@);
        let ghost given0 = markers@;
        let mut rest: Table<WorktreeRepositoryKey, Vec<Marker>> = markers;
        let keys: Vec<WorktreeRepositoryKey> = repositories.keys();
        let ghost all = crate::table::key_views(keys@);
        let mut i: usize = 0;
        while i < keys.len()
            invariant
                i <= keys.len(),
                all == crate::table::key_views(keys@),
                crate::table::in_order::<WorktreeRepositoryKey>(all),
                given == marker_map(given0),
                self@ == (RuntimeView {
                    loaded: self@.loaded,
                    markers: self@.markers,
                    persisted: self@.persisted,
                    ..old(self)@
                }),
                forall|root: Seq<char>| #[trigger]
                    self@.loaded.contains(root) <==> old(self)@.loaded.contains(root) || seen(
                        all,
                        i as int,
                        root,
                    ),
                forall|key: MarkerKeyView| #[trigger]
                    self@.persisted.contains(key) <==> (if seen(all, i as int, key.root) {
                        names_one(given, key)
                    } else {
                        old(self)@.persisted.contains(key)
                    }),
                forall|root: Seq<char>| #[trigger]
                    self@.markers.dom().contains(root) <==> (if seen(all, i as int, root) {
                        given.dom().contains(root)
                    } else {
                        old(self)@.markers.dom().contains(root)
                    }),
                forall|root: Seq<char>| #[trigger]
                    self@.markers.dom().contains(root) ==> self@.markers[root] == (if seen(
                        all,
                        i as int,
                        root,
                    ) {
                        given[root]
                    } else {
                        old(self)@.markers[root]
                    }),
                forall|root: Seq<char>|
                    !seen(all, i as int, root) ==> (#[trigger] rest@.dom().contains(root)
                        == given0.dom().contains(root)),
                forall|root: Seq<char>| #[trigger]
                    rest@.dom().contains(root) ==> given0.dom().contains(root) && rest@[root]
                        == given0[root],
            decreases keys.len() - i,
        {
            let ghost root = all[i as int];
            assert(root == keys@[i as int]@);
            proof {
                if seen(all, i as int, root) {
                    let k = choose|k: int| 0 <= k < i && k < all.len() && #[trigger] all[k] == root;
                    WorktreeRepositoryKey::order_is_total(all[k], all[i as int]);
                }
                assert(!seen(all, i as int, root));
            }
            let ghost was = self@;
            self.loaded.insert(keys[i].copy_key());
            forget_root(&mut self.persisted, keys[i].root.as_str());
            let _ = self.markers.remove(&keys[i]);
            match rest.remove(&keys[i]) {
                Some(entries) => {
                    add_names(&mut self.persisted, keys[i].root.as_str(), &entries);
                    assert(crate::background::marker_views(entries@) == given[root]);
                    self.markers.insert(keys[i].copy_key(), entries);
                },
                None => {},
            }
            proof {
                assert forall|other: Seq<char>| #[trigger]
                    seen(all, i + 1, other) == (seen(all, i as int, other) || other == root) by {
                    lemma_seen_step(all, i as int, other);
                }
                assert(self@.markers =~= (if given.dom().contains(root) {
                    was.markers.remove(root).insert(root, given[root])
                } else {
                    was.markers.remove(root)
                }));
                assert(self@.loaded =~= was.loaded.insert(root));
                assert forall|key: MarkerKeyView| #[trigger]
                    self@.persisted.contains(key) <==> (if key.root == root {
                        names_one(given, key)
                    } else {
                        was.persisted.contains(key)
                    }) by {}
            }
            i += 1;
        }
        proof {
            assert forall|root: Seq<char>| #[trigger]
                seen(all, all.len() as int, root) == repositories@.contains(root) by {
                assert(all.contains(root) <==> repositories@.contains(root));
                if all.contains(root) {
                    let k = choose|k: int| 0 <= k < all.len() && all[k] == root;
                    assert(0 <= k < all.len() && all[k] == root);
                }
            }
            let wanted = old(self)@.with_loaded(repositories@, given);
            assert(self@.loaded =~= wanted.loaded);
            assert(self@.markers =~= wanted.markers);
            assert(self@.persisted =~= wanted.persisted);
        }
    }

    /// Takes the result of looking into a marker. The marker can be looked into again. If
    /// the result is sure, the marker goes, unless a newer one has taken its place.
    pub fn finish_reconciliation(
        &mut self,
        root: &WorktreeRepositoryKey,
        version: u64,
        job_id: u64,
        target: &RemoteMutationTarget,
        succeeded: bool,
    )
        ensures
            final(self)@ == old(self)@.with_reconciled(
                (MarkerKeyView { root: root@, version, job_id }),
                target@,
                succeeded,
            ),
    {
        let key = MarkerKey { root: root.root.clone(), version, job_id };
        let ghost name = key@;
        self.reconciling.remove(&key);
        let ids: Vec<u64> = self.reconciliation_jobs.keys();
        let ghost all = crate::table::key_views(ids@);
        let ghost before = self.reconciliation_jobs@;
        let mut i: usize = 0;
        while i < ids.len()
            invariant
                i <= ids.len(),
                all == crate::table::key_views(ids@),
                crate::table::in_order::<u64>(all),
                key@ == name,
                self@ == (RuntimeView {
                    reconciling: old(self)@.reconciling.remove(name),
                    reconciliation_jobs: self@.reconciliation_jobs,
                    ..old(self)@
                }),
                forall|id: u64| #[trigger]
                    self.reconciliation_jobs@.dom().contains(id) <==> before.dom().contains(id)
                        && !(before[id]@ == name && exists|k: int|
                        0 <= k < i && #[trigger] all[k] == id),
                forall|id: u64| #[trigger]
                    self.reconciliation_jobs@.dom().contains(id)
                        ==> self.reconciliation_jobs@[id] == before[id],
            decreases ids.len() - i,
        {
            let id: u64 = ids[i];
            assert(all[i as int] == id);
            let matched: bool = match self.reconciliation_jobs.get(&id) {
                Some(held) => held.same_key(&key),
                None => false,
            };
            let ghost was = self.reconciliation_jobs@;
            if matched {
                let _ = self.reconciliation_jobs.remove(&id);
            }
            proof {
                assert forall|other: u64| #[trigger]
                    self.reconciliation_jobs@.dom().contains(other) <==> before.dom().contains(
                        other,
                    ) && !(before[other]@ == name && exists|k: int|
                        0 <= k < i + 1 && #[trigger] all[k] == other) by {
                    if other == id {
                        assert(0 <= i < i + 1 && all[i as int] == other);
                    }
                    if exists|k: int| 0 <= k < i && #[trigger] all[k] == other {
                        let k = choose|k: int| 0 <= k < i && #[trigger] all[k] == other;
                        assert(0 <= k < i + 1 && all[k] == other);
                    }
                }
            }
            i += 1;
        }
        proof {
            assert forall|id: u64| #[trigger]
                self.reconciliation_jobs@.dom().contains(id) <==> before.dom().contains(id)
                    && before[id]@ != name by {
                if before.dom().contains(id) {
                    assert(all.contains(id));
                }
            }
            assert(self@.reconciliation_jobs =~= old(self)@.reconciliation_jobs.restrict(
                Set::new(|id: u64| old(self)@.reconciliation_jobs[id] != name),
            ));
        }
        if !succeeded {
            return;
        }
        match self.markers.remove(root) {
            Some(markers) => {
                let rest: Vec<Marker> = drop_marker(&markers, target, version, job_id);
                let ghost left = crate::background::marker_views(rest@);
                assert(crate::background::marker_views(markers@) == old(self)@.markers[root@]);
                if rest.len() > 0 {
                    self.markers.insert(root.copy_key(), rest);
                    assert(self@.markers =~= old(self)@.markers.insert(root@, left));
                } else {
                    assert(self@.markers =~= old(self)@.markers.remove(root@));
                }
            },
            None => {
                assert(self@.markers =~= old(self)@.markers);
            },
        }
        self.persisted.remove(&key);
    }
}

/// A change to a remote waits until the stored markers of its repository are known, and
/// waits no longer once they are known to be none.
pub proof fn law_admission_waits_for_the_store(
    runtime: RuntimeView,
    root: Seq<char>,
    target: TargetView,
)
    ensures
        !runtime.loaded.contains(root) ==> runtime.blocks(root, target),
        !runtime.with_loaded(set![root], Map::empty()).blocks(root, target),
{
}

/// A recorded marker keeps every change waiting that overlaps it, and one of which nobody
/// can tell what it touched keeps every change of its repository waiting.
pub proof fn law_marker_blocks_what_it_touches(
    runtime: RuntimeView,
    root: Seq<char>,
    marker: MarkerView,
    target: TargetView,
)
    requires
        marker.target is Unknown || crate::background::targets_overlap(marker.target, target),
    ensures
        runtime.with_marker(root, marker).blocks(root, target),
{
    let before = if runtime.markers.dom().contains(root) {
        runtime.markers[root]
    } else {
        Seq::empty()
    };
    crate::background::lemma_marker_position(before, marker.target);
    let next = runtime.with_marker(root, marker);
    match crate::background::marker_position(before, marker.target) {
        Some(at) => {
            assert(next.markers[root][at] == marker);
        },
        None => {
            assert(next.markers[root][before.len() as int] == marker);
        },
    }
}

/// The work that looks into a marker can fail without consequences: the marker can be
/// looked into again.
pub proof fn law_failed_reconciliation_releases_its_marker(
    runtime: RuntimeView,
    job_id: u64,
    key: MarkerKeyView,
)
    requires
        runtime.reconciliation_jobs.dom().contains(job_id),
        runtime.reconciliation_jobs[job_id] == key,
    ensures
        !runtime.with_failed_reconciliation(job_id).reconciling.contains(key),
        runtime.with_failed_reconciliation(job_id).markers == runtime.markers,
{
}

/// Looking into a marker never takes away a marker that was recorded at another time or by
/// other work, nor one for another target, nor one of another repository.
pub proof fn law_stale_reconciliation_keeps_newer_markers(
    runtime: RuntimeView,
    key: MarkerKeyView,
    target: TargetView,
    succeeded: bool,
    root: Seq<char>,
    i: int,
)
    requires
        runtime.markers.dom().contains(root),
        0 <= i < runtime.markers[root].len(),
        root != key.root || runtime.markers[root][i].recorded_unix_ms != key.version
            || runtime.markers[root][i].job_id != key.job_id || runtime.markers[root][i].target
            != target,
    ensures
        runtime.with_reconciled(key, target, succeeded).markers.dom().contains(root),
        runtime.with_reconciled(key, target, succeeded).markers[root].contains(
            runtime.markers[root][i],
        ),
{
    let marker = runtime.markers[root][i];
    assert(runtime.markers[root].contains(marker));
    if succeeded && root == key.root {
        lemma_without_keeps(runtime.markers[root], target, key.version, key.job_id, i);
    }
}

proof fn lemma_without_keeps(
    markers: Seq<MarkerView>,
    target: TargetView,
    version: u64,
    job_id: u64,
    i: int,
)
    requires
        0 <= i < markers.len(),
        markers[i].target != target || markers[i].recorded_unix_ms != version || markers[i].job_id
            != job_id,
    ensures
        without_marker(markers, target, version, job_id).contains(markers[i]),
        without_marker(markers, target, version, job_id).len() > 0,
    decreases markers.len(),
{
    let before = without_marker(markers.drop_last(), target, version, job_id);
    let now = without_marker(markers, target, version, job_id);
    if i < markers.len() - 1 {
        lemma_without_keeps(markers.drop_last(), target, version, job_id, i);
        let k = choose|k: int| 0 <= k < before.len() && before[k] == markers[i];
        assert(now[k] == markers[i]);
    } else {
        assert(now[before.len() as int] == markers[i]);
    }
}

/// A sure result takes the marker away that was looked into.
pub proof fn law_sure_result_takes_the_marker_away(
    runtime: RuntimeView,
    key: MarkerKeyView,
    target: TargetView,
)
    ensures
        !runtime.with_reconciled(key, target, true).persisted.contains(key),
        !runtime.with_reconciled(key, target, true).reconciling.contains(key),
        runtime.with_reconciled(key, target, true).markers.dom().contains(key.root) ==> forall|
            i: int,
        |
            0 <= i < runtime.with_reconciled(key, target, true).markers[key.root].len() ==> {
                let marker =
                    #[trigger] runtime.with_reconciled(key, target, true).markers[key.root][i];
                marker.target != target || marker.recorded_unix_ms != key.version
                    || marker.job_id != key.job_id
            },
{
    if runtime.markers.dom().contains(key.root) {
        lemma_without_is_without(runtime.markers[key.root], target, key.version, key.job_id);
    }
}

proof fn lemma_without_is_without(
    markers: Seq<MarkerView>,
    target: TargetView,
    version: u64,
    job_id: u64,
)
    ensures
        forall|i: int|
            0 <= i < without_marker(markers, target, version, job_id).len() ==> {
                let marker = #[trigger] without_marker(markers, target, version, job_id)[i];
                marker.target != target || marker.recorded_unix_ms != version || marker.job_id
                    != job_id
            },
    decreases markers.len(),
{
    if markers.len() > 0 {
        lemma_without_is_without(markers.drop_last(), target, version, job_id);
        let before = without_marker(markers.drop_last(), target, version, job_id);
        let now = without_marker(markers, target, version, job_id);
        assert forall|i: int| 0 <= i < now.len() implies {
            let marker = #[trigger] now[i];
            marker.target != target || marker.recorded_unix_ms != version || marker.job_id
                != job_id
        } by {
            if i < before.len() {
                assert(now[i] == before[i]);
            }
        }
    }
}

/// A marker that is asked to be stored stays among those to be stored, whatever becomes
/// of the writer, until the writer has answered for it.
pub proof fn law_pending_markers_outlive_the_writer(runtime: RuntimeView, now_ms: u64)
    ensures
        runtime.with_writer_lost(now_ms).pending == runtime.pending,
        runtime.with_writer_lost(now_ms).enqueued == Set::<MarkerKeyView>::empty(),
{
}

} // verus!
