//! The life of background work that changes remotes: which changes are under way, which
//! ended without a sure result, and the markers that stand for those until they have been
//! looked into.
use vstd::prelude::*;

use crate::jobs::JobKeyView;
use crate::jobs::TuiJobKey;
use crate::order::path_before;
use crate::table::Key;
use crate::text::copy_opt;
use crate::text::copy_texts;
use crate::text::has_item;
use crate::text::is_same_path;
use crate::text::same;
use crate::text::same_texts;

verus! {

/// The longest wait between two attempts to write a marker.
pub const MARKER_RETRY_MAX_BACKOFF_MS: u64 = 250;

/// The longest wait between two attempts to start the writer of markers.
pub const MARKER_WRITER_START_MAX_BACKOFF_MS: u64 = 250;

/// A power of two.
pub open spec fn doubled(n: nat) -> nat
    decreases n,
{
    if n == 0 {
        1
    } else {
        2 * doubled((n - 1) as nat)
    }
}

/// How often the first wait is doubled after a number of failures.
pub open spec fn doublings(failures: u32) -> nat {
    if failures <= 1 {
        0
    } else if failures >= 6 {
        5
    } else {
        (failures - 1) as nat
    }
}

/// The wait after a number of failures: ten milliseconds, doubled with each further
/// failure up to five times, and never more than the maximum.
pub open spec fn backoff_of(failures: u32, maximum_ms: u64) -> int {
    let wait = 10 * doubled(doublings(failures));
    if wait < maximum_ms {
        wait as int
    } else {
        maximum_ms as int
    }
}

/// The wait after a number of failures.
pub fn retry_backoff(failures: u32, maximum_ms: u64) -> (r: u64)
    ensures
        r == backoff_of(failures, maximum_ms),
{
    let mut shift: u32 = if failures == 0 {
        0
    } else {
        failures - 1
    };
    if shift > 5 {
        shift = 5;
    }
    let mut wait: u64 = 10;
    let mut done: u32 = 0;
    while done < shift
        invariant
            done <= shift <= 5,
            wait == 10 * doubled(done as nat),
            wait <= 320,
            done == 0 ==> wait == 10,
            done == 1 ==> wait == 20,
            done == 2 ==> wait == 40,
            done == 3 ==> wait == 80,
            done == 4 ==> wait == 160,
        decreases shift - done,
    {
        wait = wait * 2;
        done += 1;
    }
    if wait < maximum_ms {
        wait
    } else {
        maximum_ms
    }
}

/// What follows a failed attempt to write a marker: the number of failures so far, and the
/// wait before the next attempt.
pub fn after_failed_write(failures: u32) -> (r: (u32, u64))
    ensures
        r.0 == (if failures == u32::MAX {
            u32::MAX as int
        } else {
            failures + 1
        }),
        r.1 == backoff_of(r.0, MARKER_RETRY_MAX_BACKOFF_MS),
{
    let next: u32 = failures.saturating_add(1);
    (next, retry_backoff(next, MARKER_RETRY_MAX_BACKOFF_MS))
}

/// More failures never shorten the wait, and no number of them makes it longer than the
/// maximum.
pub proof fn law_backoff_grows_to_its_maximum(fewer: u32, more: u32, maximum_ms: u64)
    requires
        fewer <= more,
    ensures
        backoff_of(fewer, maximum_ms) <= backoff_of(more, maximum_ms) <= maximum_ms,
        maximum_ms > 0 ==> backoff_of(fewer, maximum_ms) > 0,
{
    reveal_with_fuel(doubled, 7);
}

/// What a change to a remote touches.
#[derive(Debug)]
pub enum RemoteMutationTarget {
    /// Nobody can tell what it touched.
    Unknown { marker_id: String },
    /// It touches named things.
    Resources { names: Vec<String> },
}

/// What a change touches, as contracts speak of it.
#[verifier::ext_equal]
pub enum TargetView {
    Unknown(Seq<char>),
    Resources(Seq<Seq<char>>),
}

impl RemoteMutationTarget {
    /// The target as contracts speak of it.
    pub open spec fn view(&self) -> TargetView {
        match self {
            RemoteMutationTarget::Unknown { marker_id } => TargetView::Unknown(marker_id@),
            RemoteMutationTarget::Resources { names } => TargetView::Resources(
                crate::text::texts(names@),
            ),
        }
    }

    /// A copy of the target.
    pub fn copy(&self) -> (r: Self)
        ensures
            r@ == self@,
    {
        match self {
            RemoteMutationTarget::Unknown { marker_id } => RemoteMutationTarget::Unknown {
                marker_id: marker_id.clone(),
            },
            RemoteMutationTarget::Resources { names } => RemoteMutationTarget::Resources {
                names: copy_texts(names),
            },
        }
    }

    /// Whether two targets are the same.
    pub fn is(&self, other: &Self) -> (r: bool)
        ensures
            r == (self@ == other@),
    {
        match (self, other) {
            (
                RemoteMutationTarget::Unknown { marker_id: a },
                RemoteMutationTarget::Unknown { marker_id: b },
            ) => same(a.as_str(), b.as_str()),
            (
                RemoteMutationTarget::Resources { names: a },
                RemoteMutationTarget::Resources { names: b },
            ) => same_texts(a, b),
            _ => false,
        }
    }
}

/// Whether two changes touch a common thing. A change of which nobody can tell what it
/// touched has nothing in common with another.
pub open spec fn targets_overlap(a: TargetView, b: TargetView) -> bool {
    match (a, b) {
        (TargetView::Resources(x), TargetView::Resources(y)) => share(x, y),
        _ => false,
    }
}

/// Whether two lists have a common item.
pub open spec fn share(x: Seq<Seq<char>>, y: Seq<Seq<char>>) -> bool {
    exists|i: int| 0 <= i < x.len() && y.contains(#[trigger] x[i])
}

/// Whether two changes touch a common thing.
pub fn remote_mutation_targets_overlap(a: &RemoteMutationTarget, b: &RemoteMutationTarget) -> (r:
    bool)
    ensures
        r == targets_overlap(a@, b@),
{
    match (a, b) {
        (
            RemoteMutationTarget::Resources { names: x },
            RemoteMutationTarget::Resources { names: y },
        ) => {
            let ghost xs = crate::text::texts(x@);
            let ghost ys = crate::text::texts(y@);
            let mut i: usize = 0;
            while i < x.len()
                invariant
                    i <= x.len(),
                    xs == crate::text::texts(x@),
                    ys == crate::text::texts(y@),
                    a@ == TargetView::Resources(xs),
                    b@ == TargetView::Resources(ys),
                    forall|k: int| 0 <= k < i ==> !ys.contains(#[trigger] xs[k]),
                decreases x.len() - i,
            {
                if has_item(y, x[i].as_str()) {
                    assert(0 <= i < xs.len() && ys.contains(xs[i as int]));
                    assert(share(xs, ys));
                    return true;
                }
                i += 1;
            }
            false
        },
        _ => false,
    }
}

/// Two changes touch a common thing whichever is named first, and a change that touches
/// anything that can be named overlaps itself.
pub proof fn law_overlap_is_mutual(a: TargetView, b: TargetView)
    ensures
        targets_overlap(a, b) == targets_overlap(b, a),
        match a {
            TargetView::Resources(names) => names.len() > 0 ==> targets_overlap(a, a),
            TargetView::Unknown(_) => !targets_overlap(a, b),
        },
{
    match (a, b) {
        (TargetView::Resources(x), TargetView::Resources(y)) => {
            if targets_overlap(a, b) {
                let i = choose|i: int| 0 <= i < x.len() && y.contains(#[trigger] x[i]);
                let j = choose|j: int| 0 <= j < y.len() && y[j] == x[i];
                assert(x.contains(y[j]));
            }
            if targets_overlap(b, a) {
                let i = choose|i: int| 0 <= i < y.len() && x.contains(#[trigger] y[i]);
                let j = choose|j: int| 0 <= j < x.len() && x[j] == y[i];
                assert(y.contains(x[j]));
            }
        },
        _ => {},
    }
    match a {
        TargetView::Resources(names) => {
            if names.len() > 0 {
                assert(names.contains(names[0]));
            }
        },
        _ => {},
    }
}

/// A change to a remote that ended without a sure result.
#[derive(Debug)]
pub struct Marker {
    pub target: RemoteMutationTarget,
    pub ledger: Option<String>,
    pub database_path: String,
    pub job_id: u64,
    pub reason: String,
    pub recorded_unix_ms: u64,
}

/// A marker, as contracts speak of it.
#[verifier::ext_equal]
pub struct MarkerView {
    pub target: TargetView,
    pub ledger: Option<Seq<char>>,
    pub database_path: Seq<char>,
    pub job_id: u64,
    pub reason: Seq<char>,
    pub recorded_unix_ms: u64,
}

impl Marker {
    /// The marker as contracts speak of it.
    pub open spec fn view(&self) -> MarkerView {
        MarkerView {
            target: self.target@,
            ledger: crate::text::opt_text(self.ledger),
            database_path: self.database_path@,
            job_id: self.job_id,
            reason: self.reason@,
            recorded_unix_ms: self.recorded_unix_ms,
        }
    }

    /// A copy of the marker.
    pub fn copy(&self) -> (r: Self)
        ensures
            r@ == self@,
    {
        Marker {
            target: self.target.copy(),
            ledger: copy_opt(&self.ledger),
            database_path: self.database_path.clone(),
            job_id: self.job_id,
            reason: self.reason.clone(),
            recorded_unix_ms: self.recorded_unix_ms,
        }
    }
}

/// The markers as contracts speak of them.
pub open spec fn marker_views(markers: Seq<Marker>) -> Seq<MarkerView> {
    Seq::new(markers.len(), |i: int| markers[i]@)
}

/// The position of the first marker for a target.
pub open spec fn marker_position(markers: Seq<MarkerView>, target: TargetView) -> Option<int>
    decreases markers.len(),
{
    if markers.len() == 0 {
        None
    } else {
        match marker_position(markers.drop_last(), target) {
            Some(at) => Some(at),
            None => if markers.last().target == target {
                Some(markers.len() - 1)
            } else {
                None
            },
        }
    }
}

/// The position of the first marker for a target is that of the first one.
pub proof fn lemma_marker_position(markers: Seq<MarkerView>, target: TargetView)
    ensures
        match marker_position(markers, target) {
            Some(at) => {
                &&& 0 <= at < markers.len()
                &&& markers[at].target == target
                &&& forall|k: int| 0 <= k < at ==> (#[trigger] markers[k]).target != target
            },
            None => forall|k: int|
                0 <= k < markers.len() ==> (#[trigger] markers[k]).target != target,
        },
    decreases markers.len(),
{
    if markers.len() > 0 {
        lemma_marker_position(markers.drop_last(), target);
        assert forall|k: int| 0 <= k < markers.len() - 1 implies markers.drop_last()[k]
            == #[trigger] markers[k] by {}
    }
}

fn find_marker(markers: &Vec<Marker>, target: &RemoteMutationTarget) -> (r: Option<usize>)
    ensures
        match r {
            Some(at) => marker_position(marker_views(markers@), target@) == Some(at as int) && at
                < markers.len(),
            None => marker_position(marker_views(markers@), target@) is None,
        },
{
    let ghost all = marker_views(markers@);
    let mut found: Option<usize> = None;
    let mut i: usize = 0;
    assert(all.take(0) =~= Seq::<MarkerView>::empty());
    while i < markers.len()
        invariant
            i <= markers.len(),
            all == marker_views(markers@),
            match found {
                Some(at) => marker_position(all.take(i as int), target@) == Some(at as int) && at
                    < i,
                None => marker_position(all.take(i as int), target@) is None,
            },
        decreases markers.len() - i,
    {
        assert(all.take(i + 1).drop_last() =~= all.take(i as int));
        assert(all.take(i + 1).last() == markers@[i as int]@);
        if found.is_none() && markers[i].target.is(target) {
            found = Some(i);
        }
        i += 1;
    }
    assert(all.take(all.len() as int) =~= all);
    found
}

/// The markers with one put in the place of the first for its target, or at the end.
pub open spec fn upserted(markers: Seq<MarkerView>, marker: MarkerView) -> Seq<MarkerView> {
    match marker_position(markers, marker.target) {
        Some(at) => markers.update(at, marker),
        None => markers.push(marker),
    }
}

/// The stored markers with one put among them: in the place of the first for its target,
/// unless that one was recorded later, or at the end.
pub open spec fn stored(markers: Seq<MarkerView>, marker: MarkerView) -> Seq<MarkerView> {
    match marker_position(markers, marker.target) {
        Some(at) => if markers[at].recorded_unix_ms <= marker.recorded_unix_ms {
            markers.update(at, marker)
        } else {
            markers
        },
        None => markers.push(marker),
    }
}

/// Whether a marker with the target, the time and the job of another is among some.
pub open spec fn has_marker(markers: Seq<MarkerView>, marker: MarkerView) -> bool {
    exists|i: int|
        0 <= i < markers.len() && (#[trigger] markers[i]).target == marker.target
            && markers[i].recorded_unix_ms == marker.recorded_unix_ms && markers[i].job_id
            == marker.job_id
}

/// Puts a marker in the place of the first for its target, or at the end.
pub fn put_marker(markers: &mut Vec<Marker>, marker: Marker)
    ensures
        marker_views(final(markers)@) == upserted(marker_views(old(markers)@), marker@),
{
    let found: Option<usize> = find_marker(markers, &marker.target);
    match found {
        Some(at) => {
            markers.set(at, marker);
            assert(marker_views(markers@) =~= marker_views(old(markers)@).update(
                at as int,
                marker@,
            ));
        },
        None => {
            markers.push(marker);
            assert(marker_views(markers@) =~= marker_views(old(markers)@).push(marker@));
        },
    }
}

/// Puts a marker among the stored ones; says whether it is among them then. It is not
/// where a later one for the same target is in its place.
pub fn persist_marker_in(markers: &mut Vec<Marker>, marker: &Marker) -> (r: bool)
    ensures
        marker_views(final(markers)@) == stored(marker_views(old(markers)@), marker@),
        r == has_marker(stored(marker_views(old(markers)@), marker@), marker@),
{
    let found: Option<usize> = find_marker(markers, &marker.target);
    match found {
        Some(at) => {
            assert(marker_views(markers@)[at as int] == markers@[at as int]@);
            if markers[at].recorded_unix_ms <= marker.recorded_unix_ms {
                markers.set(at, marker.copy());
                assert(marker_views(markers@) =~= marker_views(old(markers)@).update(
                    at as int,
                    marker@,
                ));
            }
        },
        None => {
            markers.push(marker.copy());
            assert(marker_views(markers@) =~= marker_views(old(markers)@).push(marker@));
        },
    }
    let ghost all = marker_views(markers@);
    let mut i: usize = 0;
    while i < markers.len()
        invariant
            i <= markers.len(),
            all == marker_views(markers@),
            all == stored(marker_views(old(markers)@), marker@),
            forall|k: int|
                0 <= k < i ==> !((#[trigger] all[k]).target == marker@.target
                    && all[k].recorded_unix_ms == marker@.recorded_unix_ms && all[k].job_id
                    == marker@.job_id),
        decreases markers.len() - i,
    {
        assert(all[i as int] == markers@[i as int]@);
        if markers[i].target.is(&marker.target) && markers[i].recorded_unix_ms
            == marker.recorded_unix_ms && markers[i].job_id == marker.job_id {
            return true;
        }
        i += 1;
    }
    false
}

/// Whether one of the markers can touch anything or overlaps a change.
pub fn find_marker_overlap(markers: &Vec<Marker>, target: &RemoteMutationTarget) -> (r: bool)
    ensures
        r == exists|i: int|
            0 <= i < markers.len() && ((#[trigger] marker_views(markers@)[i]).target is Unknown
                || targets_overlap(marker_views(markers@)[i].target, target@)),
{
    let ghost all = marker_views(markers@);
    let mut i: usize = 0;
    while i < markers.len()
        invariant
            i <= markers.len(),
            all == marker_views(markers@),
            forall|k: int|
                0 <= k < i ==> !((#[trigger] all[k]).target is Unknown) && !targets_overlap(
                    all[k].target,
                    target@,
                ),
        decreases markers.len() - i,
    {
        assert(all[i as int] == markers@[i as int]@);
        if matches!(markers[i].target, RemoteMutationTarget::Unknown { .. }) {
            return true;
        }
        if remote_mutation_targets_overlap(&markers[i].target, target) {
            return true;
        }
        i += 1;
    }
    false
}

/// Whether no two markers are for the same target.
pub open spec fn one_per_target(markers: Seq<MarkerView>) -> bool {
    forall|i: int, j: int|
        #![trigger markers[i], markers[j]]
        0 <= i < j < markers.len() ==> markers[i].target != markers[j].target
}

/// Recording a marker and storing one keep one marker for each target, and the recorded
/// one is in place.
pub proof fn law_one_marker_per_target(markers: Seq<MarkerView>, marker: MarkerView)
    requires
        one_per_target(markers),
    ensures
        one_per_target(upserted(markers, marker)),
        one_per_target(stored(markers, marker)),
        upserted(markers, marker).contains(marker),
{
    lemma_marker_position(markers, marker.target);
    let next = upserted(markers, marker);
    match marker_position(markers, marker.target) {
        Some(at) => {
            assert(next[at] == marker);
        },
        None => {
            assert(next[markers.len() as int] == marker);
        },
    }
}

/// A marker that a later one for the same target has overtaken changes nothing in the
/// store and is not reported as stored. One that is not overtaken is stored.
pub proof fn law_superseded_marker_is_not_stored(markers: Seq<MarkerView>, marker: MarkerView)
    requires
        one_per_target(markers),
    ensures
        (exists|i: int|
            0 <= i < markers.len() && (#[trigger] markers[i]).target == marker.target
                && markers[i].recorded_unix_ms > marker.recorded_unix_ms) ==> stored(
            markers,
            marker,
        ) == markers && !has_marker(markers, marker),
        (forall|i: int|
            0 <= i < markers.len() && (#[trigger] markers[i]).target == marker.target
                ==> markers[i].recorded_unix_ms <= marker.recorded_unix_ms) ==> has_marker(
            stored(markers, marker),
            marker,
        ),
{
    lemma_marker_position(markers, marker.target);
    match marker_position(markers, marker.target) {
        Some(at) => {
            if markers[at].recorded_unix_ms <= marker.recorded_unix_ms {
                assert(stored(markers, marker)[at] == marker);
            }
        },
        None => {
            assert(stored(markers, marker)[markers.len() as int] == marker);
        },
    }
}

/// The name of a marker.
#[derive(Debug)]
pub struct MarkerKey {
    pub root: String,
    pub version: u64,
    pub job_id: u64,
}

/// The name of a marker, as contracts speak of it.
#[verifier::ext_equal]
pub struct MarkerKeyView {
    pub root: Seq<char>,
    pub version: u64,
    pub job_id: u64,
}

impl View for MarkerKey {
    type V = MarkerKeyView;

    open spec fn view(&self) -> MarkerKeyView {
        MarkerKeyView {
            root: crate::text::bare_path(self.root@),
            version: self.version,
            job_id: self.job_id,
        }
    }
}

impl Key for MarkerKey {
    open spec fn before(a: MarkerKeyView, b: MarkerKeyView) -> bool {
        ||| crate::order::path_less(a.root, b.root)
        ||| a.root == b.root && a.version < b.version
        ||| a.root == b.root && a.version == b.version && a.job_id < b.job_id
    }

    proof fn order_is_total(a: MarkerKeyView, b: MarkerKeyView) {
        crate::order::law_path_order_is_total(a.root, b.root);
    }

    proof fn order_is_transitive(a: MarkerKeyView, b: MarkerKeyView, c: MarkerKeyView) {
        if crate::order::path_less(a.root, b.root) && crate::order::path_less(b.root, c.root) {
            crate::order::law_path_order_is_transitive(a.root, b.root, c.root);
        }
    }

    fn comes_before(&self, other: &Self) -> (r: bool) {
        path_before(self.root.as_str(), other.root.as_str()) || (is_same_path(
            self.root.as_str(),
            other.root.as_str(),
        ) && (self.version < other.version || (self.version == other.version && self.job_id
            < other.job_id)))
    }

    fn same_key(&self, other: &Self) -> (r: bool) {
        is_same_path(self.root.as_str(), other.root.as_str()) && self.version == other.version
            && self.job_id == other.job_id
    }

    fn copy_key(&self) -> (r: Self) {
        MarkerKey { root: self.root.clone(), version: self.version, job_id: self.job_id }
    }
}

/// The name of a marker of a repository.
pub open spec fn marker_name(root: Seq<char>, marker: MarkerView) -> MarkerKeyView {
    MarkerKeyView { root, version: marker.recorded_unix_ms, job_id: marker.job_id }
}

/// What is needed to look into a change to a remote that ended without a sure result.
#[derive(Debug)]
pub struct RemoteContext {
    pub key: TuiJobKey,
    pub target: RemoteMutationTarget,
    pub ledger: String,
}

/// What is needed to look into a change, as contracts speak of it.
#[verifier::ext_equal]
pub struct ContextView {
    pub key: JobKeyView,
    pub target: TargetView,
    pub ledger: Seq<char>,
}

impl RemoteContext {
    /// The context as contracts speak of it.
    pub open spec fn view(&self) -> ContextView {
        ContextView { key: self.key@, target: self.target@, ledger: self.ledger@ }
    }

    /// A copy of the context.
    pub fn copy(&self) -> (r: Self)
        ensures
            r@ == self@,
    {
        RemoteContext {
            key: self.key.copy(),
            target: self.target.copy(),
            ledger: self.ledger.clone(),
        }
    }
}

} // verus!
