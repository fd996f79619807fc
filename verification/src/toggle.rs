//! Lists whose items are switched on and off, and put in order.
use vstd::prelude::*;

use crate::dialog::Verdict;
use crate::input::cancel_key;
use crate::input::plain_key;
use crate::input::KeyCode;
use crate::input::KeyEvent;
use crate::input::KeyEventKind;

verus! {

/// An item that is switched on or off.
#[derive(Debug)]
pub struct OrderedToggleItem {
    pub id: String,
    pub label: String,
    pub enabled: bool,
}

/// An item switched over.
pub open spec fn flipped(item: OrderedToggleItem) -> OrderedToggleItem {
    OrderedToggleItem { enabled: !item.enabled, ..item }
}

/// How many items at the start of a list are on.
pub open spec fn leading_enabled(items: Seq<OrderedToggleItem>) -> nat
    decreases items.len(),
{
    if items.len() > 0 && items[0].enabled {
        1 + leading_enabled(items.skip(1))
    } else {
        0
    }
}

/// Where an item goes that was switched over: one that is now on behind those that
/// are on at the start of the list, one that is now off to the end.
pub open spec fn new_place(rest: Seq<OrderedToggleItem>, item: OrderedToggleItem) -> int {
    if item.enabled {
        leading_enabled(rest) as int
    } else {
        rest.len() as int
    }
}

/// A list after the item at a position was switched over, and where the item went.
pub open spec fn toggled(items: Seq<OrderedToggleItem>, selected: usize) -> (
    Seq<OrderedToggleItem>,
    usize,
) {
    if selected >= items.len() {
        (items, selected)
    } else {
        let item = flipped(items[selected as int]);
        let rest = items.remove(selected as int);
        let place = new_place(rest, item);
        (rest.insert(place, item), place as usize)
    }
}

proof fn lemma_leading_bound(items: Seq<OrderedToggleItem>)
    ensures
        leading_enabled(items) <= items.len(),
        forall|i: int| 0 <= i < leading_enabled(items) ==> (#[trigger] items[i]).enabled,
        leading_enabled(items) < items.len() ==> !items[leading_enabled(items) as int].enabled,
    decreases items.len(),
{
    if items.len() > 0 && items[0].enabled {
        lemma_leading_bound(items.skip(1));
        assert forall|i: int| 0 <= i < leading_enabled(items) implies (
        #[trigger] items[i]).enabled by {
            if i > 0 {
                assert(items.skip(1)[i - 1] == items[i]);
            }
        }
    }
}

fn count_leading_enabled(items: &Vec<OrderedToggleItem>) -> (r: usize)
    ensures
        r == leading_enabled(items@),
        r <= items.len(),
{
    let mut n: usize = 0;
    assert(items@.skip(0) =~= items@);
    while n < items.len() && items[n].enabled
        invariant
            n <= items.len(),
            leading_enabled(items@) == n + leading_enabled(items@.skip(n as int)),
        decreases items.len() - n,
    {
        assert(items@.skip(n as int)[0] == items@[n as int]);
        assert(items@.skip(n as int).skip(1) =~= items@.skip(n + 1));
        n += 1;
    }
    proof {
        if n < items.len() {
            assert(items@.skip(n as int)[0] == items@[n as int]);
        }
    }
    n
}

/// Switches the item at a position over and moves it to its group.
pub fn toggle_ordered_item(items: &mut Vec<OrderedToggleItem>, selected: &mut usize)
    ensures
        (final(items)@, *final(selected)) == toggled(old(items)@, *old(selected)),
{
    if *selected >= items.len() {
        return;
    }
    let mut item: OrderedToggleItem = items.remove(*selected);
    item.enabled = !item.enabled;
    let place: usize = if item.enabled {
        count_leading_enabled(items)
    } else {
        items.len()
    };
    items.insert(place, item);
    *selected = place;
}

/// Switches the item at a position over and leaves it where it is.
pub fn toggle_item_in_place(items: &mut Vec<OrderedToggleItem>, selected: usize)
    ensures
        final(items)@ == (if selected < old(items)@.len() {
            old(items)@.update(selected as int, flipped(old(items)@[selected as int]))
        } else {
            old(items)@
        }),
{
    if selected < items.len() {
        let mut item: OrderedToggleItem = items.remove(selected);
        item.enabled = !item.enabled;
        items.insert(selected, item);
        assert(items@ =~= old(items)@.update(
            selected as int,
            flipped(old(items)@[selected as int]),
        ));
    }
}

/// The nearest item below a position that is on.
pub open spec fn enabled_below(items: Seq<OrderedToggleItem>, position: int) -> Option<usize>
    decreases position,
{
    if position <= 0 {
        None
    } else if items[position - 1].enabled {
        Some((position - 1) as usize)
    } else {
        enabled_below(items, position - 1)
    }
}

/// The nearest item from a position on that is on.
pub open spec fn enabled_from(items: Seq<OrderedToggleItem>, position: int) -> Option<usize>
    decreases items.len() - position,
{
    if position >= items.len() {
        None
    } else if items[position].enabled {
        Some(position as usize)
    } else {
        enabled_from(items, position + 1)
    }
}

/// Where an item that is on can be moved to: the place of the nearest item that is
/// on, towards the start for a negative direction and towards the end otherwise.
pub open spec fn move_target(
    items: Seq<OrderedToggleItem>,
    selected: usize,
    direction: isize,
) -> Option<usize> {
    if selected >= items.len() || !items[selected as int].enabled {
        None
    } else if direction < 0 {
        enabled_below(items, selected as int)
    } else {
        enabled_from(items, selected + 1)
    }
}

/// A list with two items in each other's places.
pub open spec fn exchanged(items: Seq<OrderedToggleItem>, a: int, b: int) -> Seq<
    OrderedToggleItem,
> {
    items.update(a, items[b]).update(b, items[a])
}

fn exchange(items: &mut Vec<OrderedToggleItem>, low: usize, high: usize)
    requires
        low < high < old(items).len(),
    ensures
        final(items)@ == exchanged(old(items)@, low as int, high as int),
        final(items)@ == exchanged(old(items)@, high as int, low as int),
{
    let upper: OrderedToggleItem = items.remove(high);
    let lower: OrderedToggleItem = items.remove(low);
    items.insert(low, upper);
    items.insert(high, lower);
    assert(items@ =~= exchanged(old(items)@, low as int, high as int));
    assert(items@ =~= exchanged(old(items)@, high as int, low as int));
}

/// Moves the item at a position among the items that are on.
pub fn move_enabled_ordered_item(
    items: &mut Vec<OrderedToggleItem>,
    selected: &mut usize,
    direction: isize,
)
    ensures
        match move_target(old(items)@, *old(selected), direction) {
            Some(target) => final(items)@ == exchanged(
                old(items)@,
                *old(selected) as int,
                target as int,
            ) && *final(selected) == target,
            None => final(items)@ == old(items)@ && *final(selected) == *old(selected),
        },
{
    let from: usize = *selected;
    if from >= items.len() || !items[from].enabled {
        return;
    }
    if direction < 0 {
        let mut at: usize = from;
        while at > 0
            invariant
                at <= from < items.len(),
                items@ == old(items)@,
                *selected == from,
                from == *old(selected),
                items@[from as int].enabled,
                direction < 0,
                enabled_below(items@, from as int) == enabled_below(items@, at as int),
            decreases at,
        {
            if items[at - 1].enabled {
                exchange(items, at - 1, from);
                *selected = at - 1;
                return;
            }
            at -= 1;
        }
    } else {
        let mut at: usize = from + 1;
        while at < items.len()
            invariant
                from < at <= items.len(),
                items@ == old(items)@,
                *selected == from,
                from == *old(selected),
                items@[from as int].enabled,
                direction >= 0,
                enabled_from(items@, from + 1) == enabled_from(items@, at as int),
            decreases items.len() - at,
        {
            if items[at].enabled {
                exchange(items, from, at);
                *selected = at;
                return;
            }
            at += 1;
        }
    }
}

/// The items that are on, or those that are off, in their order.
pub open spec fn group(items: Seq<OrderedToggleItem>, enabled: bool) -> Seq<OrderedToggleItem>
    decreases items.len(),
{
    if items.len() == 0 {
        Seq::empty()
    } else if items.last().enabled == enabled {
        group(items.drop_last(), enabled).push(items.last())
    } else {
        group(items.drop_last(), enabled)
    }
}

/// The names of the items that are on, in their order.
pub open spec fn enabled_ids(items: Seq<OrderedToggleItem>) -> Seq<Seq<char>>
    decreases items.len(),
{
    if items.len() == 0 {
        Seq::empty()
    } else if items.last().enabled {
        enabled_ids(items.drop_last()).push(items.last().id@)
    } else {
        enabled_ids(items.drop_last())
    }
}

fn chosen_ids(items: &Vec<OrderedToggleItem>) -> (r: Vec<String>)
    ensures
        crate::text::texts(r@) == enabled_ids(items@),
{
    let mut out: Vec<String> = Vec::new();
    let mut i: usize = 0;
    assert(crate::text::texts(out@) =~= enabled_ids(items@.take(0)));
    while i < items.len()
        invariant
            i <= items.len(),
            crate::text::texts(out@) == enabled_ids(items@.take(i as int)),
        decreases items.len() - i,
    {
        let ghost before = crate::text::texts(out@);
        proof {
            assert(items@.take(i + 1).drop_last() =~= items@.take(i as int));
            assert(items@.take(i + 1).last() == items@[i as int]);
        }
        if items[i].enabled {
            out.push(items[i].id.clone());
            assert(crate::text::texts(out@) =~= before.push(items@[i as int].id@));
        }
        i += 1;
    }
    assert(items@.take(items.len() as int) =~= items@);
    out
}

/// How a list of switches ends: with the names of the items that are on, or given
/// up.
#[derive(Debug)]
pub enum ToggleEnd {
    Accepted(Vec<String>),
    Cancelled,
}

/// A list of switches, as a dialog shows it.
#[derive(Debug)]
pub struct ToggleDialog {
    pub items: Vec<OrderedToggleItem>,
    pub selected: usize,
    /// Whether items change their places.
    pub reorderable: bool,
}

/// The dialog, as contracts speak of it.
#[verifier::ext_equal]
pub struct ToggleView {
    pub items: Seq<OrderedToggleItem>,
    pub selected: usize,
    pub reorderable: bool,
}

impl ToggleView {
    /// The dialog after an item was moved.
    pub open spec fn moved(self, direction: isize) -> ToggleView {
        match move_target(self.items, self.selected, direction) {
            Some(target) => ToggleView {
                items: exchanged(self.items, self.selected as int, target as int),
                selected: target,
                ..self
            },
            None => self,
        }
    }

    /// The dialog after an item was switched over.
    pub open spec fn switched(self) -> ToggleView {
        if self.reorderable {
            ToggleView {
                items: toggled(self.items, self.selected).0,
                selected: toggled(self.items, self.selected).1,
                ..self
            }
        } else if self.selected < self.items.len() {
            ToggleView {
                items: self.items.update(
                    self.selected as int,
                    flipped(self.items[self.selected as int]),
                ),
                ..self
            }
        } else {
            self
        }
    }

    /// The dialog after a plain key.
    pub open spec fn after(self, event: KeyEvent) -> ToggleView {
        if event.kind != KeyEventKind::Press || !event.is_plain() {
            self
        } else if crate::dialog::is_key(event, KeyCode::Up, 'k') {
            ToggleView { selected: crate::dialog::one_up(self.selected), ..self }
        } else if crate::dialog::is_key(event, KeyCode::Down, 'j') {
            ToggleView {
                selected: if self.selected + 1 < self.items.len() {
                    (self.selected + 1) as usize
                } else if self.items.len() == 0 {
                    0
                } else {
                    (self.items.len() - 1) as usize
                },
                ..self
            }
        } else if event.code == KeyCode::Char(' ') {
            self.switched()
        } else if self.reorderable && event.code == KeyCode::Char('K') {
            self.moved((-1) as isize)
        } else if self.reorderable && event.code == KeyCode::Char('J') {
            self.moved(1)
        } else {
            self
        }
    }
}

impl ToggleDialog {
    /// The dialog as contracts speak of it.
    pub open spec fn view(&self) -> ToggleView {
        ToggleView {
            items: self.items@,
            selected: self.selected,
            reorderable: self.reorderable,
        }
    }

    /// A list whose items can be put in order: those that are on come first.
    pub fn ordered(items: Vec<OrderedToggleItem>) -> (r: Self)
        ensures
            r@.items == group(items@, true) + group(items@, false),
            r@.selected == 0,
            r@.reorderable,
    {
        let mut rest: Vec<OrderedToggleItem> = items;
        let mut on: Vec<OrderedToggleItem> = Vec::new();
        let mut off: Vec<OrderedToggleItem> = Vec::new();
        let ghost all = items@;
        assert(all.skip(0) =~= all);
        while rest.len() > 0
            invariant
                rest@.len() <= all.len(),
                rest@ == all.skip(all.len() - rest@.len()),
                on@ == group(all.take(all.len() - rest@.len()), true),
                off@ == group(all.take(all.len() - rest@.len()), false),
            decreases rest.len(),
        {
            let ghost at = all.len() - rest@.len();
            let item: OrderedToggleItem = rest.remove(0);
            proof {
                assert(item == all[at]);
                assert(rest@ =~= all.skip(at + 1));
                assert(all.take(at + 1).drop_last() =~= all.take(at));
                assert(all.take(at + 1).last() == item);
            }
            if item.enabled {
                on.push(item);
            } else {
                off.push(item);
            }
        }
        assert(all.take(all.len() as int) =~= all);
        on.append(&mut off);
        ToggleDialog { items: on, selected: 0, reorderable: true }
    }

    /// A list whose items stay where they are.
    pub fn fixed(items: Vec<OrderedToggleItem>) -> (r: Self)
        ensures
            r@ == (ToggleView { items: items@, selected: 0, reorderable: false }),
    {
        ToggleDialog { items, selected: 0, reorderable: false }
    }

    /// What a key does: Enter accepts the list as it is, a cancel key gives it up,
    /// and the other keys move, switch and reorder.
    pub fn press(&mut self, event: KeyEvent) -> (r: Verdict<ToggleEnd>)
        ensures
            ({
                let cancels = event.kind == KeyEventKind::Press && event.is_cancel();
                let accepts = event.kind == KeyEventKind::Press && event.code == KeyCode::Enter
                    && event.is_plain();
                if cancels {
                    r == Verdict::Closed(ToggleEnd::Cancelled) && final(self)@ == old(self)@
                } else if accepts {
                    r matches Verdict::Closed(ToggleEnd::Accepted(ids)) && crate::text::texts(ids@)
                        == enabled_ids(old(self)@.items) && final(self)@ == old(self)@
                } else {
                    r is Open && final(self)@ == old(self)@.after(event)
                }
            }),
    {
        if event.kind != KeyEventKind::Press {
            return Verdict::Open;
        }
        if cancel_key(event) {
            return Verdict::Closed(ToggleEnd::Cancelled);
        }
        if !plain_key(event) {
            return Verdict::Open;
        }
        match event.code {
            KeyCode::Enter => Verdict::Closed(ToggleEnd::Accepted(chosen_ids(&self.items))),
            KeyCode::Up => {
                self.selected = self.selected.saturating_sub(1);
                Verdict::Open
            },
            KeyCode::Down => {
                self.select_next();
                Verdict::Open
            },
            KeyCode::Char(c) => {
                if c == 'k' {
                    self.selected = self.selected.saturating_sub(1);
                } else if c == 'j' {
                    self.select_next();
                } else if c == ' ' {
                    if self.reorderable {
                        toggle_ordered_item(&mut self.items, &mut self.selected);
                    } else {
                        toggle_item_in_place(&mut self.items, self.selected);
                    }
                } else if c == 'K' && self.reorderable {
                    move_enabled_ordered_item(&mut self.items, &mut self.selected, -1);
                } else if c == 'J' && self.reorderable {
                    move_enabled_ordered_item(&mut self.items, &mut self.selected, 1);
                }
                Verdict::Open
            },
            _ => Verdict::Open,
        }
    }

    fn select_next(&mut self)
        ensures
            final(self)@ == (ToggleView {
                selected: if old(self)@.selected + 1 < old(self)@.items.len() {
                    (old(self)@.selected + 1) as usize
                } else if old(self)@.items.len() == 0 {
                    0
                } else {
                    (old(self)@.items.len() - 1) as usize
                },
                ..old(self)@
            }),
    {
        let len: usize = self.items.len();
        self.selected = if len == 0 {
            0
        } else if self.selected < len - 1 {
            self.selected + 1
        } else {
            len - 1
        };
    }
}

// ---------------------------------------------------------------------------
// Laws
// ---------------------------------------------------------------------------

/// Whether the items that are on come before those that are off.
pub open spec fn grouped(items: Seq<OrderedToggleItem>) -> bool {
    forall|i: int, j: int|
        0 <= i < j < items.len() && (#[trigger] items[j]).enabled ==> (#[trigger] items[i]).enabled
}

proof fn lemma_group_flags(items: Seq<OrderedToggleItem>, enabled: bool)
    ensures
        forall|i: int|
            0 <= i < group(items, enabled).len() ==> (#[trigger] group(items, enabled)[i]).enabled
                == enabled,
    decreases items.len(),
{
    if items.len() > 0 {
        lemma_group_flags(items.drop_last(), enabled);
        let before = group(items.drop_last(), enabled);
        let all = group(items, enabled);
        assert forall|i: int| 0 <= i < all.len() implies (#[trigger] all[i]).enabled
            == enabled by {
            if i < before.len() {
                assert(all[i] == before[i]);
            }
        }
    }
}

/// A list that is put in order starts with the items that are on.
pub proof fn law_ordered_list_is_grouped(items: Seq<OrderedToggleItem>)
    ensures
        grouped(group(items, true) + group(items, false)),
{
    lemma_group_flags(items, true);
    lemma_group_flags(items, false);
    let on = group(items, true);
    let all = on + group(items, false);
    assert forall|i: int, j: int| 0 <= i < j < all.len() && (
    #[trigger] all[j]).enabled implies (#[trigger] all[i]).enabled by {
        if j >= on.len() {
            assert(all[j] == group(items, false)[j - on.len()]);
        }
        assert(all[i] == on[i]);
    }
}

/// Switching an item over keeps the items that are on before those that are off,
/// selects the item in its new place, and loses no item.
pub proof fn law_toggle_keeps_groups(items: Seq<OrderedToggleItem>, selected: usize)
    requires
        grouped(items),
        selected < items.len() <= usize::MAX,
    ensures
        grouped(toggled(items, selected).0),
        toggled(items, selected).0.len() == items.len(),
        toggled(items, selected).0[toggled(items, selected).1 as int] == flipped(
            items[selected as int],
        ),
{
    let item = flipped(items[selected as int]);
    let rest = items.remove(selected as int);
    assert forall|i: int, j: int| 0 <= i < j < rest.len() && (
    #[trigger] rest[j]).enabled implies (#[trigger] rest[i]).enabled by {
        let oi = if i < selected {
            i
        } else {
            i + 1
        };
        let oj = if j < selected {
            j
        } else {
            j + 1
        };
        assert(rest[i] == items[oi]);
        assert(rest[j] == items[oj]);
    }
    lemma_leading_bound(rest);
    let place = new_place(rest, item);
    let result = rest.insert(place, item);
    assert forall|i: int, j: int| 0 <= i < j < result.len() && (
    #[trigger] result[j]).enabled implies (#[trigger] result[i]).enabled by {
        let ri = if i < place {
            i
        } else {
            i - 1
        };
        let rj = if j < place {
            j
        } else {
            j - 1
        };
        if i != place && j != place {
            assert(result[i] == rest[ri]);
            assert(result[j] == rest[rj]);
        } else if i == place {
            assert(result[j] == rest[rj]);
            if !item.enabled {
                assert(false);
            }
        } else {
            assert(result[i] == rest[ri]);
        }
    }
}

/// Switching an item over in place leaves every other item as it is, and doing it
/// twice changes nothing.
pub proof fn law_toggle_in_place_is_its_own_inverse(
    items: Seq<OrderedToggleItem>,
    selected: int,
)
    requires
        0 <= selected < items.len(),
    ensures
        ({
            let once = items.update(selected, flipped(items[selected]));
            once.update(selected, flipped(once[selected])) == items
        }),
{
    let once = items.update(selected, flipped(items[selected]));
    assert(flipped(once[selected]) == items[selected]);
    assert(once.update(selected, flipped(once[selected])) =~= items);
}

proof fn lemma_enabled_below(items: Seq<OrderedToggleItem>, position: int)
    requires
        position <= items.len() <= usize::MAX,
    ensures
        enabled_below(items, position) matches Some(at) ==> at < position
            && items[at as int].enabled,
    decreases position,
{
    if position > 0 && !items[position - 1].enabled {
        lemma_enabled_below(items, position - 1);
    }
}

proof fn lemma_enabled_from(items: Seq<OrderedToggleItem>, position: int)
    requires
        0 <= position,
        items.len() <= usize::MAX,
    ensures
        enabled_from(items, position) matches Some(at) ==> position <= at < items.len()
            && items[at as int].enabled,
    decreases items.len() - position,
{
    if position < items.len() && !items[position].enabled {
        lemma_enabled_from(items, position + 1);
    }
}

/// Moving exchanges two items that are on: no switch changes its position, so the
/// groups stay as they are, and an item that is off is never moved.
pub proof fn law_move_keeps_switches(
    items: Seq<OrderedToggleItem>,
    selected: usize,
    direction: isize,
    i: int,
)
    requires
        items.len() <= usize::MAX,
        0 <= i < items.len(),
    ensures
        move_target(items, selected, direction) matches Some(target) ==> {
            &&& items[selected as int].enabled
            &&& items[target as int].enabled
            &&& exchanged(items, selected as int, target as int)[i].enabled == items[i].enabled
            &&& !items[i].enabled ==> exchanged(items, selected as int, target as int)[i]
                == items[i]
        },
{
    if selected < items.len() {
        lemma_enabled_below(items, selected as int);
        lemma_enabled_from(items, selected + 1);
    }
}

} // verus!
