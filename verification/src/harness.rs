//! Which agent harness each worktree uses, and what happens when the default one changes.
use vstd::prelude::*;

use crate::dialog::choice_list;
use crate::dialog::ChoiceList;
use crate::dialog::ChoiceView;
use crate::keys::identity_key;
use crate::keys::WorktreeSessionKey;
use crate::keys::WorktreeView;
use crate::model::Session;
use crate::navigation::NavView;
use crate::navigation::Navigation;
use crate::table::Key;
use crate::table::KeySet;
use crate::table::Table;
use crate::text::join3;
use crate::text::owned;
use crate::text::same;
use crate::tracker::JobTracker;
use crate::tracker::TrackerView;

verus! {

/// The harness that a worktree uses, and whether it stays although the default is another.
#[derive(Debug)]
pub struct HarnessAssociation {
    pub harness_id: String,
    pub keep: bool,
}

/// The harnesses of worktrees, as far as they are known.
pub struct Harnesses {
    ids: Table<WorktreeSessionKey, String>,
}

/// The worktree of a session of a known repository.
pub open spec fn worktree_at(nav: NavView, index: int) -> WorktreeView {
    crate::keys::identity_view(
        nav.repos[nav.sessions[index].repo_index as int].repo.root@,
        nav.sessions[index],
    )
}

/// The sessions among the first `n` whose harness is not known.
pub open spec fn without_harness(
    nav: NavView,
    known: Map<WorktreeView, Seq<char>>,
    n: nat,
) -> Seq<usize>
    decreases n,
{
    if n == 0 {
        Seq::empty()
    } else {
        let before = without_harness(nav, known, (n - 1) as nat);
        if crate::tracker::is_known(nav, (n - 1) as usize) && !known.dom().contains(
            worktree_at(nav, n - 1),
        ) {
            before.push((n - 1) as usize)
        } else {
            before
        }
    }
}

/// Whether a worktree is among the first `n` of a list.
pub open spec fn met(all: Seq<WorktreeView>, n: int, key: WorktreeView) -> bool {
    exists|k: int| 0 <= k < n && #[trigger] all[k] == key
}

/// The worktrees of the sessions of known repositories.
pub fn known_worktree_keys(navigation: &Navigation) -> (r: KeySet<WorktreeSessionKey>)
    ensures
        r@ == crate::tracker::known_worktrees(navigation@, navigation@.sessions.len()),
{
    let mut keys: KeySet<WorktreeSessionKey> = KeySet::new();
    let mut i: usize = 0;
    while i < navigation.sessions.len()
        invariant
            i <= navigation.sessions@.len(),
            keys@ == crate::tracker::known_worktrees(navigation@, i as nat),
        decreases navigation.sessions.len() - i,
    {
        let session: &Session = &navigation.sessions[i];
        if session.repo_index < navigation.repos.len() {
            let root: &str = navigation.repos[session.repo_index].repo.root.as_str();
            keys.insert(identity_key(root, session));
        }
        i += 1;
    }
    keys
}

impl Harnesses {
    /// The harnesses as contracts speak of them.
    pub closed spec fn view(&self) -> Map<WorktreeView, Seq<char>> {
        self.ids@.map_values(|id: String| id@)
    }

    /// No harness is known.
    pub fn new() -> (r: Self)
        ensures
            r@ == Map::<WorktreeView, Seq<char>>::empty(),
    {
        let r = Harnesses { ids: Table::new() };
        assert(r@ =~= Map::<WorktreeView, Seq<char>>::empty());
        r
    }

    /// The harness of a worktree, where it is known.
    pub fn get(&self, worktree: &WorktreeSessionKey) -> (r: Option<&String>)
        ensures
            match r {
                Some(id) => self@.dom().contains(worktree@) && self@[worktree@] == id@,
                None => !self@.dom().contains(worktree@),
            },
    {
        self.ids.get(worktree)
    }

    /// Takes over the harness of a worktree, unless one is known.
    pub fn learn(&mut self, worktree: WorktreeSessionKey, id: String)
        ensures
            final(self)@ == (if old(self)@.dom().contains(worktree@) {
                old(self)@
            } else {
                old(self)@.insert(worktree@, id@)
            }),
    {
        if !self.ids.contains(&worktree) {
            let ghost name = worktree@;
            self.ids.insert(worktree, id);
            assert(self@ =~= old(self)@.insert(name, id@));
        }
    }

    /// Forgets the harness of a worktree.
    pub fn forget(&mut self, worktree: &WorktreeSessionKey)
        ensures
            final(self)@ == old(self)@.remove(worktree@),
    {
        let _ = self.ids.remove(worktree);
        assert(self@ =~= old(self)@.remove(worktree@));
    }

    fn retain(&mut self, live: &KeySet<WorktreeSessionKey>)
        ensures
            final(self)@ == old(self)@.restrict(live@),
    {
        let keys: Vec<WorktreeSessionKey> = self.ids.keys();
        let ghost all = crate::table::key_views(keys@);
        let ghost before = self.ids@;
        let mut i: usize = 0;
        while i < keys.len()
            invariant
                i <= keys@.len(),
                all == crate::table::key_views(keys@),
                before == old(self).ids@,
                crate::table::lists::<WorktreeSessionKey>(all, before.dom()),
                forall|key: WorktreeView| #[trigger]
                    self.ids@.dom().contains(key) <==> before.dom().contains(key) && (
                    live@.contains(key) || !met(all, i as int, key)),
                forall|key: WorktreeView| #[trigger]
                    self.ids@.dom().contains(key) ==> self.ids@[key] == before[key],
            decreases keys.len() - i,
        {
            assert(all[i as int] == keys@[i as int]@);
            if !live.contains(&keys[i]) {
                let _ = self.ids.remove(&keys[i]);
            }
            proof {
                assert forall|key: WorktreeView| met(all, i + 1, key) <==> met(all, i as int, key)
                    || key == all[i as int] by {
                    if met(all, i + 1, key) && key != all[i as int] {
                        let k = choose|k: int| 0 <= k < i + 1 && #[trigger] all[k] == key;
                        assert(0 <= k < i && all[k] == key);
                    }
                    if met(all, i as int, key) {
                        let k = choose|k: int| 0 <= k < i && #[trigger] all[k] == key;
                        assert(0 <= k < i + 1 && all[k] == key);
                    }
                    if key == all[i as int] {
                        assert(0 <= i < i + 1 && all[i as int] == key);
                    }
                }
            }
            i += 1;
        }
        proof {
            assert forall|key: WorktreeView| #[trigger] before.dom().contains(key) implies met(
                all,
                keys@.len() as int,
                key,
            ) by {
                assert(all.contains(key));
                let k = choose|k: int| 0 <= k < all.len() && all[k] == key;
                assert(0 <= k < keys@.len() && all[k] == key);
            }
            assert(self@ =~= old(self)@.restrict(live@));
        }
    }

    /// Forgets the harnesses of worktrees that are gone; gives back the sessions whose
    /// harness is to be looked up.
    pub fn refresh_worktree_harness_configs(&mut self, navigation: &Navigation) -> (r: Vec<usize>)
        ensures
            final(self)@ == old(self)@.restrict(
                crate::tracker::known_worktrees(navigation@, navigation@.sessions.len()),
            ),
            r@ == without_harness(navigation@, final(self)@, navigation@.sessions.len()),
    {
        let live: KeySet<WorktreeSessionKey> = known_worktree_keys(navigation);
        self.retain(&live);
        let mut wanted: Vec<usize> = Vec::new();
        let mut i: usize = 0;
        let ghost kept = self@;
        while i < navigation.sessions.len()
            invariant
                i <= navigation.sessions@.len(),
                self@ == kept,
                wanted@ == without_harness(navigation@, kept, i as nat),
            decreases navigation.sessions.len() - i,
        {
            let session: &Session = &navigation.sessions[i];
            if session.repo_index < navigation.repos.len() {
                let root: &str = navigation.repos[session.repo_index].repo.root.as_str();
                let key: WorktreeSessionKey = identity_key(root, session);
                if self.get(&key).is_none() {
                    wanted.push(i);
                }
            }
            i += 1;
        }
        wanted
    }

    /// Looks the harness of a session up anew: what is known of it is forgotten, and the
    /// list of worktrees that is being read is out of date. Gives back the sessions whose
    /// harness is to be looked up.
    pub fn reload_worktree_harness_config(
        &mut self,
        tracker: &mut JobTracker,
        navigation: &Navigation,
        index: usize,
    ) -> (r: Vec<usize>)
        ensures
            if crate::tracker::is_known(navigation@, index) {
                &&& final(self)@ == old(self)@.remove(
                    worktree_at(navigation@, index as int),
                ).restrict(
                    crate::tracker::known_worktrees(navigation@, navigation@.sessions.len()),
                )
                &&& r@ == without_harness(navigation@, final(self)@, navigation@.sessions.len())
                &&& final(tracker)@ == (TrackerView {
                    session_inventory_generation: if old(tracker)@.session_inventory_generation
                        == u64::MAX {
                        u64::MAX
                    } else {
                        (old(tracker)@.session_inventory_generation + 1) as u64
                    },
                    session_refresh_pending: old(tracker)@.session_refresh_pending || old(
                        tracker,
                    )@.session_refresh_in_flight,
                    ..old(tracker)@
                })
            } else {
                r@.len() == 0 && final(self)@ == old(self)@ && final(tracker)@ == old(tracker)@
            },
    {
        if index >= navigation.sessions.len() {
            return Vec::new();
        }
        let session: &Session = &navigation.sessions[index];
        if session.repo_index >= navigation.repos.len() {
            return Vec::new();
        }
        let root: &str = navigation.repos[session.repo_index].repo.root.as_str();
        let key: WorktreeSessionKey = identity_key(root, session);
        self.forget(&key);
        let wanted: Vec<usize> = self.refresh_worktree_harness_configs(navigation);
        tracker.session_inventory_generation = tracker.session_inventory_generation.saturating_add(
            1,
        );
        if tracker.session_refresh_in_flight {
            tracker.session_refresh_pending = true;
        }
        wanted
    }
}

// ---------------------------------------------------------------------------
// A default harness that changed
// ---------------------------------------------------------------------------

/// The default harness of the repository of a session.
pub open spec fn target_harness(nav: NavView, index: usize) -> Seq<char> {
    nav.repos[nav.sessions[index as int].repo_index as int].config.default_harness@
}

/// Whether the user is asked what to do about the harness of a worktree that is opened: it
/// is not the default one, and the user did not say to keep it.
pub open spec fn asks_about_harness(nav: NavView, index: usize, id: Seq<char>, keep: bool) -> bool {
    crate::tracker::is_known(nav, index) && id != target_harness(nav, index) && !keep
}

/// What the user can do about a harness.
pub open spec fn harness_options(target: Seq<char>, id: Seq<char>) -> Seq<ChoiceView> {
    seq![
        crate::dialog::choice("m"@, "Migrate to "@ + target),
        crate::dialog::choice("l"@, "Later; open "@ + id + " and ask next time"@),
        crate::dialog::choice("k"@, "Keep "@ + id + "; stop asking"@),
    ]
}

/// The question about the harness of a worktree that is opened, where there is one.
pub fn prepare_worktree_harness_for_open(
    navigation: &Navigation,
    index: usize,
    association: &HarnessAssociation,
) -> (r: Option<ChoiceList>)
    ensures
        match r {
            Some(list) => asks_about_harness(
                navigation@,
                index,
                association.harness_id@,
                association.keep,
            ) && list.title@ == "Worktree Harness Changed"@ && list.options() == harness_options(
                target_harness(navigation@, index),
                association.harness_id@,
            ),
            None => !asks_about_harness(
                navigation@,
                index,
                association.harness_id@,
                association.keep,
            ),
        },
{
    if index >= navigation.sessions.len() {
        return None;
    }
    let repo_index: usize = navigation.sessions[index].repo_index;
    if repo_index >= navigation.repos.len() {
        return None;
    }
    let target: &str = navigation.repos[repo_index].config.default_harness.as_str();
    let id: &str = association.harness_id.as_str();
    if same(id, target) || association.keep {
        return None;
    }
    let migrate: String = crate::text::join2("Migrate to ", target);
    let later: String = join3("Later; open ", id, " and ask next time");
    let keep: String = join3("Keep ", id, "; stop asking");
    let mut pairs: Vec<(&str, &str)> = Vec::new();
    pairs.push(("m", migrate.as_str()));
    pairs.push(("l", later.as_str()));
    pairs.push(("k", keep.as_str()));
    let list: ChoiceList = choice_list("Worktree Harness Changed", &pairs);
    assert(list.options() =~= harness_options(
        target_harness(navigation@, index),
        association.harness_id@,
    ));
    Some(list)
}

/// What is done about the harness of a worktree.
#[derive(Clone, Copy, Debug, PartialEq, Eq, Structural)]
pub enum HarnessChoice {
    /// The worktree moves to the default harness.
    Migrate,
    /// The worktree keeps its harness, and the user is not asked again.
    Keep,
    /// Nothing.
    Later,
}

/// What an answer to the question about a harness asks for.
pub open spec fn choice_of(answer: Option<Seq<char>>) -> HarnessChoice {
    match answer {
        Some(key) => if key == "m"@ {
            HarnessChoice::Migrate
        } else if key == "k"@ {
            HarnessChoice::Keep
        } else {
            HarnessChoice::Later
        },
        None => HarnessChoice::Later,
    }
}

/// What an answer to the question about a harness means; no answer means later.
pub fn harness_choice(answer: Option<&str>) -> (r: HarnessChoice)
    ensures
        r == choice_of(
            match answer {
                Some(key) => Some(key@),
                None => None,
            },
        ),
        r == (match answer {
            Some(key) => if key@ == "m"@ {
                HarnessChoice::Migrate
            } else if key@ == "k"@ {
                HarnessChoice::Keep
            } else {
                HarnessChoice::Later
            },
            None => HarnessChoice::Later,
        }),
{
    match answer {
        Some(key) => {
            if same(key, "m") {
                HarnessChoice::Migrate
            } else if same(key, "k") {
                HarnessChoice::Keep
            } else {
                HarnessChoice::Later
            }
        },
        None => HarnessChoice::Later,
    }
}

/// What the wish to move a worktree to the default harness comes to.
#[derive(Debug)]
pub enum Migration {
    /// The worktree is not known.
    Nothing,
    /// The worktree uses the default harness; the message says so.
    AlreadyUses(String),
    /// The worktree is to be moved; the message is shown once that is done.
    Move { target: String, message: String },
}

/// Whether a worktree is moved to its repository's default harness when that is asked for.
pub open spec fn moves_harness(nav: NavView, index: usize, id: Seq<char>, keep: bool) -> bool {
    crate::tracker::is_known(nav, index) && (id != target_harness(nav, index) || keep)
}

/// What the wish to move a worktree to the default harness comes to. A worktree that uses
/// the default harness but was to keep it is moved, so that it no longer is.
pub fn migrate_worktree_harness(
    navigation: &Navigation,
    index: usize,
    association: &HarnessAssociation,
) -> (r: Migration)
    ensures
        r is Move == moves_harness(navigation@, index, association.harness_id@, association.keep),
        !crate::tracker::is_known(navigation@, index) ==> r is Nothing,
        crate::tracker::is_known(navigation@, index) ==> {
            let target = target_harness(navigation@, index);
            if association.harness_id@ == target && !association.keep {
                r matches Migration::AlreadyUses(message) && message@
                    == "worktree already uses harness '"@ + target + "'"@
            } else {
                r matches Migration::Move { target: to, message } && to@ == target && message@
                    == "migrated worktree to harness '"@ + target + "'"@
            }
        },
{
    if index >= navigation.sessions.len() {
        return Migration::Nothing;
    }
    let repo_index: usize = navigation.sessions[index].repo_index;
    if repo_index >= navigation.repos.len() {
        return Migration::Nothing;
    }
    let target: &str = navigation.repos[repo_index].config.default_harness.as_str();
    if same(association.harness_id.as_str(), target) && !association.keep {
        return Migration::AlreadyUses(join3("worktree already uses harness '", target, "'"));
    }
    Migration::Move {
        target: owned(target),
        message: join3("migrated worktree to harness '", target, "'"),
    }
}

/// Once a worktree uses the default harness, the user is not asked about it, and a wish to
/// move it says that it already does.
pub proof fn law_migrated_worktrees_are_not_asked_about(nav: NavView, index: usize, keep: bool)
    requires
        crate::tracker::is_known(nav, index),
    ensures
        !asks_about_harness(nav, index, target_harness(nav, index), keep),
{
}

/// Every session of a known repository has a known harness, or is among those to look up.
pub proof fn law_every_worktree_gets_a_harness(
    nav: NavView,
    known: Map<WorktreeView, Seq<char>>,
    n: nat,
    index: usize,
)
    requires
        n <= nav.sessions.len() <= usize::MAX,
        index < n,
        crate::tracker::is_known(nav, index),
    ensures
        known.dom().contains(worktree_at(nav, index as int)) || without_harness(
            nav,
            known,
            n,
        ).contains(index),
    decreases n,
{
    let before = without_harness(nav, known, (n - 1) as nat);
    if index < n - 1 {
        law_every_worktree_gets_a_harness(nav, known, (n - 1) as nat, index);
        if before.contains(index) {
            let k = choose|k: int| 0 <= k < before.len() && before[k] == index;
            assert(without_harness(nav, known, n)[k] == index);
        }
    } else {
        if !known.dom().contains(worktree_at(nav, index as int)) {
            assert(without_harness(nav, known, n).last() == index);
        }
    }
}

} // verus!
