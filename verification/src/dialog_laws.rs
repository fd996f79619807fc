//! What dialogs, switches, forms and notices make of keys.
use vstd::prelude::*;

use crate::dialog::answer_of;
use crate::dialog::edited;
use crate::dialog::is_key;
use crate::dialog::ChoiceView;
use crate::dialog::DialogJob;
use crate::dialog::HelpView;
use crate::dialog::PromptEnd;
use crate::dialog::Verdict;
use crate::form::check_from;
use crate::form::checked_values;
use crate::form::cycled;
use crate::form::leading_passed;
use crate::form::option_position;
use crate::form::CheckView;
use crate::form::FormVerdict;
use crate::form::FormView;
use crate::form::KindView;
use crate::form::WorkflowInput;
use crate::harness::without_harness;
use crate::harness::HarnessChoice;
use crate::input::KeyCode;
use crate::input::KeyEvent;
use crate::input::KeyEventKind;
use crate::keys::WorktreeView;
use crate::model::CommentRow;
use crate::navigation::NavView;
use crate::notices::recoverable;
use crate::notices::WorkflowEntry;
use crate::text::lower;
use crate::text::trimmed;
use crate::toggle::enabled_below;
use crate::toggle::enabled_from;
use crate::toggle::enabled_ids;
use crate::toggle::group;
use crate::toggle::leading_enabled;
use crate::toggle::move_target;
use crate::toggle::toggled;
use crate::toggle::OrderedToggleItem;
use crate::toggle::ToggleView;

verus! {

// ---------------------------------------------------------------------------
// Questions
// ---------------------------------------------------------------------------

/// A question is answered with `y` or `n`, in either case and with blanks around it; an
/// empty answer is the default, and anything else is no answer.
pub proof fn law_answers_to_questions(input: Seq<char>, default: bool)
    ensures
        trimmed(input).len() == 0 ==> answer_of(input, default) == Some(default),
        lower(trimmed(input)) == seq!['y'] ==> answer_of(input, default) == Some(true),
        lower(trimmed(input)) == seq!['n'] ==> answer_of(input, default) == Some(false),
        trimmed(input).len() > 0 && lower(trimmed(input)) != seq!['y'] && lower(trimmed(input))
            != seq!['n'] ==> answer_of(input, default) is None,
        trimmed(input).len() > 0 ==> answer_of(input, true) == answer_of(input, false),
{
    let yes = seq!['y'];
    let no = seq!['n'];
    assert(yes[0] == 'y' && no[0] == 'n');
}

/// A typed character is added at the end, Backspace takes the last one away, and any other
/// key leaves the text.
pub proof fn law_typed_text(text: Seq<char>, event: KeyEvent)
    ensures
        event.typed() matches Some(c) ==> edited(text, event).len() == text.len() + 1 && edited(
            text,
            event,
        ).last() == c && edited(text, event).drop_last() == text,
        event.code == KeyCode::Backspace && text.len() > 0 ==> edited(text, event)
            == text.drop_last(),
        event.code == KeyCode::Backspace && text.len() == 0 ==> edited(text, event) == text,
        event.code != KeyCode::Backspace && event.typed() is None ==> edited(text, event) == text,
{
}

/// Backspace undoes what was typed last.
pub proof fn law_backspace_undoes(text: Seq<char>, typed: KeyEvent, back: KeyEvent)
    requires
        typed.typed() is Some,
        back.code == KeyCode::Backspace,
    ensures
        edited(edited(text, typed), back) == text,
{
}

/// The help dialog scrolls by its keys, takes a filter after `/`, and is closed by any
/// other key.
pub proof fn law_help_dialog(help: HelpView, event: KeyEvent)
    requires
        event.kind == KeyEventKind::Press,
    ensures
        !help.editing_filter && !(event.code == KeyCode::Char('/') && event.is_plain()) && !is_key(
            event,
            KeyCode::Up,
            'k',
        ) && !is_key(event, KeyCode::Down, 'j') ==> help.closes(event),
        !help.editing_filter && event.code == KeyCode::Down ==> !help.closes(event) && (help.scroll
            < usize::MAX ==> help.after(event).scroll == help.scroll + 1),
        !help.editing_filter && event.code == KeyCode::Up ==> !help.closes(event) && (help.scroll
            > 0 ==> help.after(event).scroll == help.scroll - 1),
        !help.editing_filter && event.code == KeyCode::Char('/') && event.is_plain() ==> help.after(
            event,
        ) == (HelpView { filter: Seq::empty(), editing_filter: true, scroll: 0 }),
        help.editing_filter && event.code == KeyCode::Enter ==> help.after(event) == (HelpView {
            editing_filter: false,
            ..help
        }),
        help.editing_filter && event.code == KeyCode::Esc ==> help.closes(event),
        help.editing_filter && event.code == KeyCode::Char('q') && event.is_plain()
            ==> help.closes(event),
        help.editing_filter && !help.closes(event) && event.code != KeyCode::Enter ==> help.after(
            event,
        ).filter == edited(help.filter, event) && help.after(event).editing_filter,
        help.closes(event) ==> help.after(event) == help,
{
}

/// A key is let go without any effect on the help dialog.
pub proof fn law_help_ignores_released_keys(help: HelpView, event: KeyEvent)
    requires
        event.kind != KeyEventKind::Press,
    ensures
        !help.closes(event),
        help.after(event) == help,
{
}

/// The keys that move up or down are the arrow and its letter; a move is by one row, and
/// stops at the ends.
pub proof fn law_rows_up_and_down(n: usize, event: KeyEvent)
    ensures
        is_key(event, KeyCode::Up, 'k') <==> event.code == KeyCode::Up || event.code
            == KeyCode::Char('k'),
        is_key(event, KeyCode::Down, 'j') <==> event.code == KeyCode::Down || event.code
            == KeyCode::Char('j'),
        n > 0 ==> crate::dialog::one_up(n) == n - 1,
        crate::dialog::one_up(0) == 0,
        n < usize::MAX ==> crate::dialog::one_down(n) == n + 1,
        crate::dialog::one_down(usize::MAX) == usize::MAX,
{
}

/// An option answers to its key in either case, unless it is disabled.
pub proof fn law_options_answer_to_their_key(option: ChoiceView, key: Seq<char>)
    ensures
        option.disabled ==> !crate::dialog::answers_to(option, key),
        !option.disabled ==> crate::dialog::answers_to(option, option.key),
        crate::dialog::answers_to(option, key) ==> lower(option.key) == lower(key),
        !option.disabled && lower(option.key) == lower(key) ==> crate::dialog::answers_to(
            option,
            key,
        ),
{
}

/// An option that is offered carries its key and its label and can be chosen.
pub proof fn law_offered_options(key: Seq<char>, label: Seq<char>)
    ensures
        crate::dialog::choice(key, label).key == key,
        crate::dialog::choice(key, label).label == label,
        !crate::dialog::choice(key, label).disabled,
{
}

// ---------------------------------------------------------------------------
// Switches
// ---------------------------------------------------------------------------

proof fn lemma_leading_enabled(items: Seq<OrderedToggleItem>, i: int)
    requires
        0 <= i < items.len(),
    ensures
        leading_enabled(items) <= items.len(),
        i < leading_enabled(items) ==> items[i].enabled,
        i == leading_enabled(items) ==> !items[i].enabled,
    decreases items.len(),
{
    if items[0].enabled {
        let rest = items.skip(1);
        if rest.len() > 0 {
            if i > 0 {
                lemma_leading_enabled(rest, i - 1);
                assert(rest[i - 1] == items[i]);
            } else {
                lemma_leading_enabled(rest, 0);
            }
        }
    }
}

/// Switching an item turns it over. An item that is switched on goes behind the leading
/// items that are on, one that is switched off goes to the end, and the cursor goes with it.
pub proof fn law_switched_items(items: Seq<OrderedToggleItem>, selected: usize)
    requires
        selected < items.len() <= usize::MAX,
    ensures
        ({
            let (after, cursor) = toggled(items, selected);
            let item = items[selected as int];
            &&& after.len() == items.len()
            &&& cursor < after.len()
            &&& after[cursor as int].id == item.id
            &&& after[cursor as int].label == item.label
            &&& after[cursor as int].enabled == !item.enabled
            &&& after.remove(cursor as int) == items.remove(selected as int)
            &&& item.enabled ==> cursor == items.len() - 1
            &&& !item.enabled ==> forall|j: int|
                0 <= j < cursor ==> (#[trigger] after[j]).enabled
            &&& !item.enabled && cursor + 1 < after.len() ==> !after[cursor + 1].enabled
        }),
{
    let rest = items.remove(selected as int);
    let item = crate::toggle::flipped(items[selected as int]);
    let place = crate::toggle::new_place(rest, item);
    if rest.len() > 0 {
        lemma_leading_enabled(rest, 0);
    }
    assert(0 <= place <= rest.len());
    let after = rest.insert(place, item);
    assert(after.remove(place) =~= rest);
    if item.enabled {
        assert forall|j: int| 0 <= j < place implies (#[trigger] after[j]).enabled by {
            lemma_leading_enabled(rest, j);
            assert(after[j] == rest[j]);
        }
        if place + 1 < after.len() {
            lemma_leading_enabled(rest, place);
            assert(after[place + 1] == rest[place]);
        }
    }
}

proof fn lemma_enabled_below(items: Seq<OrderedToggleItem>, position: int, j: int)
    requires
        0 <= position <= items.len() <= usize::MAX,
    ensures
        ({
            let found = enabled_below(items, position);
            &&& found matches Some(at) ==> at < position && items[at as int].enabled
            &&& found is Some && found->0 < j < position ==> !items[j].enabled
            &&& found is None && 0 <= j < position ==> !items[j].enabled
        }),
    decreases position,
{
    if position > 0 && !items[position - 1].enabled {
        lemma_enabled_below(items, position - 1, j);
    }
}

proof fn lemma_enabled_from(items: Seq<OrderedToggleItem>, position: int, j: int)
    requires
        0 <= position <= items.len() <= usize::MAX,
    ensures
        ({
            let found = enabled_from(items, position);
            &&& found matches Some(at) ==> position <= at < items.len() && items[at as int].enabled
            &&& found is Some && position <= j < found->0 ==> !items[j].enabled
            &&& found is None && position <= j < items.len() ==> !items[j].enabled
        }),
    decreases items.len() - position,
{
    if position < items.len() && !items[position].enabled {
        lemma_enabled_from(items, position + 1, j);
    }
}

/// An item that is on changes places with the nearest one above it or below it that is on;
/// an item that is off, or that has none there, stays.
pub proof fn law_moved_items(
    items: Seq<OrderedToggleItem>,
    selected: usize,
    direction: isize,
    j: int,
)
    requires
        items.len() <= usize::MAX,
    ensures
        selected < items.len() && !items[selected as int].enabled ==> move_target(
            items,
            selected,
            direction,
        ) is None,
        selected < items.len() && items[selected as int].enabled ==> ({
            let target = move_target(items, selected, direction);
            &&& target is Some && direction < 0 ==> target->0 < selected && items[target->0 as int].enabled
            &&& target is Some && direction >= 0 ==> selected < target->0 < items.len()
                && items[target->0 as int].enabled
            &&& target is Some && target->0 < j < selected ==> !items[j].enabled
            &&& target is Some && selected < j < target->0 ==> !items[j].enabled
            &&& target is None && direction < 0 && 0 <= j < selected ==> !items[j].enabled
            &&& target is None && direction >= 0 && selected < j < items.len() ==> !items[j].enabled
        }),
{
    if selected < items.len() {
        lemma_enabled_below(items, selected as int, j);
        lemma_enabled_from(items, selected + 1, j);
    }
}

/// Two items that change places leave all others where they were.
pub proof fn law_items_change_places(items: Seq<OrderedToggleItem>, a: int, b: int, i: int)
    requires
        0 <= a < items.len(),
        0 <= b < items.len(),
        0 <= i < items.len(),
    ensures
        ({
            let after = crate::toggle::exchanged(items, a, b);
            &&& after.len() == items.len()
            &&& after[a] == items[b]
            &&& after[b] == items[a]
            &&& i != a && i != b ==> after[i] == items[i]
        }),
{
}

/// The keys of a list of switches: up and down move the cursor by one within the list, the
/// space switches, and `K` and `J` move the item where the list can be reordered.
pub proof fn law_switch_keys(list: ToggleView, event: KeyEvent)
    requires
        event.kind == KeyEventKind::Press,
        !event.modifiers.control,
        !event.modifiers.alt,
        list.items.len() <= usize::MAX,
    ensures
        event.code == KeyCode::Up || event.code == KeyCode::Char('k') ==> list.after(event).items
            == list.items && (list.selected > 0 ==> list.after(event).selected == list.selected - 1)
            && (list.selected == 0 ==> list.after(event).selected == 0),
        event.code == KeyCode::Down || event.code == KeyCode::Char('j') ==> list.after(event).items
            == list.items && (list.selected + 1 < list.items.len() ==> list.after(event).selected
            == list.selected + 1) && (list.selected + 1 == list.items.len() ==> list.after(
            event,
        ).selected == list.selected),
        event.code == KeyCode::Char(' ') && list.reorderable ==> (
        list.after(event).items,
        list.after(event).selected,
        ) == toggled(list.items, list.selected),
        event.code == KeyCode::Char(' ') && !list.reorderable && list.selected < list.items.len()
            ==> ({
            let before = list.items[list.selected as int];
            let now = list.after(event).items[list.selected as int];
            &&& list.after(event).selected == list.selected
            &&& list.after(event).items.len() == list.items.len()
            &&& now.enabled == !before.enabled
            &&& now.id == before.id
            &&& now.label == before.label
            &&& forall|i: int|
                0 <= i < list.items.len() && i != list.selected ==> (#[trigger] list.after(
                    event,
                ).items[i]) == list.items[i]
        }),
        event.code == KeyCode::Char('K') && list.reorderable ==> list.after(event).selected == (
        match move_target(list.items, list.selected, (-1) as isize) {
            Some(target) => target,
            None => list.selected,
        }),
        event.code == KeyCode::Char('J') && list.reorderable ==> list.after(event).selected == (
        match move_target(list.items, list.selected, 1) {
            Some(target) => target,
            None => list.selected,
        }),
        !list.reorderable && (event.code == KeyCode::Char('K') || event.code == KeyCode::Char('J'))
            ==> list.after(event) == list,
        list.after(event).reorderable == list.reorderable,
{
}

proof fn lemma_group(items: Seq<OrderedToggleItem>, enabled: bool, i: int)
    requires
        0 <= i < items.len(),
    ensures
        items[i].enabled == enabled ==> group(items, enabled).contains(items[i]),
    decreases items.len(),
{
    let before = group(items.drop_last(), enabled);
    if i < items.len() - 1 {
        lemma_group(items.drop_last(), enabled, i);
        assert(items.drop_last()[i] == items[i]);
        if items[i].enabled == enabled {
            let at = choose|k: int| 0 <= k < before.len() && before[k] == items[i];
            assert(before.push(items.last())[at] == items[i]);
        }
    } else if items[i].enabled == enabled {
        assert(before.push(items.last())[before.len() as int] == items[i]);
    }
}

proof fn lemma_group_members(items: Seq<OrderedToggleItem>, enabled: bool, k: int)
    requires
        0 <= k < group(items, enabled).len(),
    ensures
        group(items, enabled)[k].enabled == enabled,
        items.contains(group(items, enabled)[k]),
    decreases items.len(),
{
    let before = group(items.drop_last(), enabled);
    let now = group(items, enabled);
    if k < before.len() {
        lemma_group_members(items.drop_last(), enabled, k);
        assert(now[k] == before[k]);
        let at = choose|i: int|
            0 <= i < items.drop_last().len() && items.drop_last()[i] == before[k];
        assert(items[at] == now[k]);
    } else {
        assert(now[k] == items.last());
        assert(items[items.len() - 1] == now[k]);
    }
}

proof fn lemma_group_lengths(items: Seq<OrderedToggleItem>)
    ensures
        group(items, true).len() + group(items, false).len() == items.len(),
    decreases items.len(),
{
    if items.len() > 0 {
        lemma_group_lengths(items.drop_last());
    }
}

/// A list that can be reordered starts with the items that are on, followed by those that
/// are off; no item is lost and none is added.
pub proof fn law_items_that_are_on_come_first(items: Seq<OrderedToggleItem>, i: int)
    requires
        0 <= i < items.len(),
    ensures
        ({
            let listed = group(items, true) + group(items, false);
            &&& listed.len() == items.len()
            &&& listed.contains(items[i])
            &&& items.contains(listed[i])
            &&& i < group(items, true).len() ==> listed[i].enabled
            &&& i >= group(items, true).len() ==> !listed[i].enabled
        }),
{
    let on = group(items, true);
    let off = group(items, false);
    lemma_group_lengths(items);
    lemma_group(items, true, i);
    lemma_group(items, false, i);
    if items[i].enabled {
        let at = choose|k: int| 0 <= k < on.len() && on[k] == items[i];
        assert((on + off)[at] == items[i]);
    } else {
        let at = choose|k: int| 0 <= k < off.len() && off[k] == items[i];
        assert((on + off)[on.len() + at] == items[i]);
    }
    if i < on.len() {
        lemma_group_members(items, true, i);
    } else {
        lemma_group_members(items, false, i - on.len());
    }
}

/// What a list of switches gives back are the names of the items that are on, in their
/// order.
pub proof fn law_chosen_names(items: Seq<OrderedToggleItem>)
    ensures
        enabled_ids(items) == group(items, true).map_values(|item: OrderedToggleItem| item.id@),
    decreases items.len(),
{
    let names = |item: OrderedToggleItem| item.id@;
    if items.len() > 0 {
        law_chosen_names(items.drop_last());
        assert(group(items, true).map_values(names) =~= enabled_ids(items));
    } else {
        assert(group(items, true).map_values(names) =~= enabled_ids(items));
    }
}

// ---------------------------------------------------------------------------
// Forms
// ---------------------------------------------------------------------------

/// A field says how long its text or how large its number may be, or how many options it
/// has.
pub proof fn law_constraints_of_fields(low: Seq<char>, high: Seq<char>, unit: Seq<char>)
    ensures
        crate::form::bounds_text(Some(low), Some(high), unit) == Some(low + "–"@ + high + unit),
        crate::form::bounds_text(Some(low), None, unit) == Some("at least "@ + low + unit),
        crate::form::bounds_text(None, Some(high), unit) == Some("at most "@ + high + unit),
        crate::form::bounds_text(None, None, unit) is None,
{
}

/// The kind and the constraint of a field come from what the Workflow asks for.
pub proof fn law_fields_of_inputs(input: WorkflowInput)
    ensures
        input is Text <==> crate::form::kind_of(input) is Text,
        input is Number <==> crate::form::kind_of(input) is Number,
        input is Bool <==> crate::form::kind_of(input) is Bool,
        input is Choice <==> crate::form::kind_of(input) is Choice,
        input is File <==> crate::form::kind_of(input) is File,
        input matches WorkflowInput::Choice { options } ==> crate::form::kind_of(input)
            == KindView::Choice(crate::text::texts(options@)) && crate::form::constraint_of(input)
            == Some(crate::text::decimal_text(options@.len()) + " options"@),
        input matches WorkflowInput::File { glob } ==> crate::form::kind_of(input)
            == KindView::File(glob@) && crate::form::constraint_of(input) is None,
        input is Bool ==> crate::form::constraint_of(input) is None,
        input matches WorkflowInput::Text { min_length: None, max_length: None }
            ==> crate::form::constraint_of(input) is None,
        input matches WorkflowInput::Text { min_length: Some(low), max_length: Some(high) }
            ==> crate::form::constraint_of(input) == Some(
            crate::text::decimal_text(low as nat) + "–"@ + crate::text::decimal_text(high as nat)
                + " chars"@,
        ),
        input matches WorkflowInput::Number { min: None, max: None }
            ==> crate::form::constraint_of(input) is None,
        input matches WorkflowInput::Number { min: Some(low), max: None }
            ==> crate::form::constraint_of(input) == Some("at least "@ + low@ + ""@),
        input matches WorkflowInput::Number { min: None, max: Some(high) }
            ==> crate::form::constraint_of(input) == Some("at most "@ + high@ + ""@),
{
}

/// Turning a switch over twice gives back what it was.
pub proof fn law_switches_turn_over(value: Seq<char>)
    ensures
        value == "true"@ ==> crate::form::flipped_bool(value) == "false"@,
        value != "true"@ ==> crate::form::flipped_bool(value) == "true"@,
        value == "true"@ || value == "false"@ ==> crate::form::flipped_bool(
            crate::form::flipped_bool(value),
        ) == value,
{
    reveal_strlit("true");
    reveal_strlit("false");
    assert("true"@.len() == 4 && "false"@.len() == 5);
}

proof fn lemma_option_position(options: Seq<Seq<char>>, value: Seq<char>, k: int)
    requires
        options.len() <= usize::MAX,
        0 <= k < options.len(),
    ensures
        option_position(options, value) matches Some(at) ==> at < options.len()
            && options[at as int] == value && (k < at ==> options[k] != value),
        option_position(options, value) is None ==> options[k] != value,
    decreases options.len(),
{
    let before = options.drop_last();
    if k < before.len() {
        lemma_option_position(before, value, k);
    } else if before.len() > 0 {
        lemma_option_position(before, value, 0);
        if option_position(before, value) is Some {
            assert(before[option_position(before, value)->0 as int] == options[option_position(
                before,
                value,
            )->0 as int]);
        }
    }
}

/// The place of a value among the options is that of the first that equals it.
pub proof fn law_place_among_options(options: Seq<Seq<char>>, value: Seq<char>, k: int)
    requires
        options.len() <= usize::MAX,
        0 <= k < options.len(),
    ensures
        option_position(options, value) matches Some(at) ==> at < options.len()
            && options[at as int] == value && (k < at ==> options[k] != value),
        option_position(options, value) is None ==> options[k] != value,
        crate::form::option_of(options, value) == (match option_position(options, value) {
            Some(at) => at,
            None => 0,
        }),
{
    lemma_option_position(options, value, k);
}

/// Going right through options takes the next one and stops at the last; going left takes
/// the one before and stops at the first. A value that is none of them gives the first.
pub proof fn law_options_are_gone_through(options: Seq<Seq<char>>, k: int, forward: bool)
    requires
        0 <= k < options.len() <= usize::MAX,
        forall|i: int, j: int| 0 <= i < j < options.len() ==> options[i] != options[j],
    ensures
        k + 1 < options.len() ==> cycled(options[k], options, true) == options[k + 1],
        k + 1 == options.len() ==> cycled(options[k], options, true) == options[k],
        k > 0 ==> cycled(options[k], options, false) == options[k - 1],
        k == 0 ==> cycled(options[k], options, false) == options[0],
        forall|value: Seq<char>|
            !options.contains(value) ==> #[trigger] cycled(value, options, forward) == options[0],
{
    lemma_option_position(options, options[k], k);
    assert(option_position(options, options[k]) == Some(k as usize));
    assert forall|value: Seq<char>| !options.contains(value) implies #[trigger] cycled(
        value,
        options,
        forward,
    ) == options[0] by {
        lemma_option_position(options, value, 0);
        if let Some(at) = option_position(options, value) {
            assert(options[at as int] == value);
        }
    }
}

/// In a form whose menu is closed, Tab and Down go to the next field and BackTab and Up to
/// the one before; Enter behind the last field submits; Esc and Control-C cancel.
pub proof fn law_form_moves(form: FormView, event: KeyEvent)
    requires
        event.kind == KeyEventKind::Press,
        form.dropdown is None,
    ensures
        event.is_cancel() ==> form.after(event).1 is Cancelled && form.after(event).0 == (FormView {
            error: None,
            ..form
        }),
        event.is_plain() && (event.code == KeyCode::Tab || event.code == KeyCode::Down)
            && form.selected < form.kinds.len() <= usize::MAX ==> form.after(event).0 == (FormView {
            error: None,
            selected: (form.selected + 1) as usize,
            ..form
        }) && form.after(event).1 is Open,
        event.is_plain() && (event.code == KeyCode::BackTab || event.code == KeyCode::Up)
            && form.selected > 0 ==> form.after(event).0 == (FormView {
            error: None,
            selected: (form.selected - 1) as usize,
            ..form
        }) && form.after(event).1 is Open,
        event.is_plain() && event.code == KeyCode::Enter && form.selected == form.kinds.len()
            ==> form.after(event).1 is Submit,
        form.after(event).1 is Submit ==> event.is_plain() && event.code == KeyCode::Enter
            && form.selected == form.kinds.len(),
        form.after(event).1 is PickFile ==> form.after(event).1 == FormVerdict::PickFile(
            form.selected,
        ) && form.selected < form.kinds.len() && form.kinds[form.selected as int] is File && (
        event.code == KeyCode::Enter || event.code == KeyCode::Char(' ')),
        event.is_plain() && (event.code == KeyCode::Enter || event.code == KeyCode::Char(' '))
            && form.selected < form.kinds.len() && form.kinds[form.selected as int] is File
            ==> form.after(event).1 == FormVerdict::PickFile(form.selected),
{
}

/// What keys do to the field under the cursor depends on its kind: text and numbers are
/// typed, switches turn over, options open a menu or are gone through, and Delete empties
/// any field.
pub proof fn law_form_edits(form: FormView, event: KeyEvent)
    requires
        event.kind == KeyEventKind::Press,
        event.is_plain(),
        form.dropdown is None,
        form.selected < form.kinds.len() <= usize::MAX,
        form.values.len() == form.kinds.len(),
    ensures
        ({
            let kind = form.kinds[form.selected as int];
            let value = form.values[form.selected as int];
            let now = form.after(event).0.values[form.selected as int];
            let typed_in = kind is Text || kind is Number;
            &&& event.typed() is Some && event.code != KeyCode::Char(' ') && typed_in ==> now
                == value.push(event.typed()->0)
            &&& event.code == KeyCode::Char(' ') && kind is Text ==> now == value.push(' ')
            &&& event.code == KeyCode::Backspace && typed_in && value.len() > 0 ==> now
                == value.drop_last()
            &&& event.code == KeyCode::Backspace && kind is File ==> now.len() == 0
            &&& event.code == KeyCode::Delete ==> now.len() == 0
            &&& (event.code == KeyCode::Enter || event.code == KeyCode::Char(' ')) && kind is Bool
                ==> now == (if value == "true"@ {
                "false"@
            } else {
                "true"@
            })
            &&& event.code == KeyCode::Left && kind is Bool ==> now == "false"@
            &&& event.code == KeyCode::Right && kind is Bool ==> now == "true"@
            &&& event.code == KeyCode::Left && kind is Choice ==> now == cycled(
                value,
                kind->Choice_0,
                false,
            )
            &&& event.code == KeyCode::Right && kind is Choice ==> now == cycled(
                value,
                kind->Choice_0,
                true,
            )
            &&& (event.code == KeyCode::Enter || event.code == KeyCode::Char(' ')) && kind is Choice
                ==> form.after(event).0.dropdown == Some(
                crate::form::option_of(kind->Choice_0, value),
            ) && now == value
            &&& event.code == KeyCode::Enter && typed_in ==> form.after(event).0.selected
                == form.selected + 1 && now == value
        }),
{
}

/// In an open menu Enter takes the option under the cursor, Esc closes the menu and keeps
/// the value, and the other keys move the cursor within the options.
pub proof fn law_form_menus(form: FormView, menu: usize, event: KeyEvent)
    requires
        event.kind == KeyEventKind::Press,
        form.dropdown == Some(menu),
        form.selected < form.kinds.len(),
        form.values.len() == form.kinds.len(),
        form.kinds[form.selected as int] is Choice,
        0 < form.kinds[form.selected as int]->Choice_0.len() <= usize::MAX,
        menu < form.kinds[form.selected as int]->Choice_0.len(),
    ensures
        ({
            let options = form.kinds[form.selected as int]->Choice_0;
            let after = form.after(event).0;
            &&& event.code == KeyCode::Enter && event.is_plain() ==> after.dropdown is None
                && after.values[form.selected as int] == options[menu as int]
            &&& event.code == KeyCode::Esc ==> after.dropdown is None && after.values
                == form.values && form.after(event).1 is Open
            &&& event.code != KeyCode::Esc && event.is_cancel() ==> form.after(event).1 is Cancelled
            &&& !(event.code == KeyCode::Enter && event.is_plain()) ==> after.values == form.values
            &&& event.is_plain() && event.code == KeyCode::Down && menu + 1 < options.len()
                ==> after.dropdown == Some((menu + 1) as usize)
            &&& event.is_plain() && event.code == KeyCode::Down && menu + 1 == options.len()
                ==> after.dropdown == Some(menu)
            &&& event.is_plain() && event.code == KeyCode::Up && menu > 0 ==> after.dropdown == Some(
                (menu - 1) as usize,
            )
            &&& event.is_plain() && event.code == KeyCode::Up && menu == 0 ==> after.dropdown
                == Some(menu)
            &&& event.is_plain() && event.code == KeyCode::Home ==> after.dropdown == Some(0usize)
            &&& event.is_plain() && event.code == KeyCode::End ==> after.dropdown == Some(
                (options.len() - 1) as usize,
            )
        }),
{
}

proof fn lemma_leading_passed(checked: Seq<Result<String, String>>, n: nat, i: int)
    requires
        n <= checked.len(),
        0 <= i < n,
    ensures
        leading_passed(checked, n) <= n,
        i < leading_passed(checked, n) ==> checked[i] is Ok,
        leading_passed(checked, n) < n && i == leading_passed(checked, n) ==> checked[i] is Err,
    decreases n,
{
    if i < n - 1 {
        lemma_leading_passed(checked, (n - 1) as nat, i);
    } else if n > 1 {
        lemma_leading_passed(checked, (n - 1) as nat, 0);
        if leading_passed(checked, (n - 1) as nat) < n - 1 {
            lemma_leading_passed(
                checked,
                (n - 1) as nat,
                leading_passed(checked, (n - 1) as nat) as int,
            );
        }
    }
}

/// Values that passed their check before the first failure take the form that the check
/// gave them; all others stay as they were typed.
pub proof fn law_checked_values(
    values: Seq<Seq<char>>,
    checked: Seq<Result<String, String>>,
    i: int,
)
    requires
        checked.len() <= values.len(),
        0 <= i < values.len(),
    ensures
        ({
            let after = checked_values(values, checked, checked.len());
            let all_passed = forall|k: int| 0 <= k <= i ==> #[trigger] checked[k] is Ok;
            &&& after.len() == values.len()
            &&& i < checked.len() && all_passed ==> after[i] == checked[i]->Ok_0@
            &&& i >= checked.len() || !all_passed ==> after[i] == values[i]
        }),
{
    let passed = leading_passed(checked, checked.len());
    if checked.len() > 0 {
        lemma_leading_passed(checked, checked.len(), 0);
        if i < passed {
            assert forall|k: int| 0 <= k <= i implies #[trigger] checked[k] is Ok by {
                lemma_leading_passed(checked, checked.len(), k);
            }
        } else if passed < checked.len() {
            lemma_leading_passed(checked, checked.len(), passed as int);
            assert(checked[passed as int] is Err);
        }
    }
}

proof fn lemma_check_from(
    names: Seq<Seq<char>>,
    values: Seq<Seq<char>>,
    defaults: Seq<Option<String>>,
    checked: Seq<Result<String, String>>,
    at: nat,
    passed: Seq<Seq<char>>,
    i: int,
)
    requires
        names.len() <= usize::MAX,
        values.len() == names.len(),
        defaults.len() == names.len(),
        at <= names.len(),
        0 <= i,
    ensures
        ({
            let result = check_from(names, values, defaults, checked, at, passed);
            &&& result matches CheckView::Check(index, raw) ==> at <= index < names.len() && index
                >= checked.len() && (values[index as int].len() > 0 ==> raw == values[index as int])
                && (values[index as int].len() == 0 ==> defaults[index as int] is Some && raw
                == defaults[index as int]->0@)
            &&& result matches CheckView::Invalid(index, problem) ==> at <= index < names.len() && ({
                let missing = values[index as int].len() == 0 && defaults[index as int] is None;
                if missing {
                    problem == "Workflow input '"@ + names[index as int] + "' is required"@
                } else {
                    index < checked.len() && checked[index as int] is Err && problem
                        == "Workflow input '"@ + names[index as int] + "': "@ + (
                    checked[index as int]->Err_0)@
                }
            })
            &&& result matches CheckView::Check(index, _) ==> (at <= i < index ==> i
                < checked.len() && checked[i] is Ok)
            &&& result matches CheckView::Invalid(index, _) ==> (at <= i < index ==> i
                < checked.len() && checked[i] is Ok)
            &&& result matches CheckView::Passed(all) ==> all.len() == passed.len() + names.len()
                - at && (at <= i < names.len() ==> i < checked.len() && checked[i] is Ok
                && all[passed.len() + i - at] == checked[i]->Ok_0@) && (i < passed.len() ==> all[i]
                == passed[i])
        }),
    decreases names.len() - at,
{
    if at < names.len() {
        match crate::form::raw_value(values[at as int], crate::text::opt_text(defaults[at as int])) {
            None => {},
            Some(raw) => {
                if at < checked.len() {
                    if let Ok(value) = checked[at as int] {
                        let next = passed.push(value@);
                        lemma_check_from(names, values, defaults, checked, at + 1, next, i);
                        lemma_check_from(
                            names,
                            values,
                            defaults,
                            checked,
                            at + 1,
                            next,
                            passed.len() as int,
                        );
                    }
                }
            },
        }
    }
}

/// The fields of a form are checked in their order. An empty field takes its default, and
/// without one it is refused; a field whose check failed is refused with the reason; and the
/// form passes with what the checks gave for every field.
pub proof fn law_form_is_checked_in_order(
    names: Seq<Seq<char>>,
    values: Seq<Seq<char>>,
    defaults: Seq<Option<String>>,
    checked: Seq<Result<String, String>>,
    i: int,
)
    requires
        names.len() <= usize::MAX,
        values.len() == names.len(),
        defaults.len() == names.len(),
        0 <= i,
    ensures
        ({
            let result = check_from(names, values, defaults, checked, 0, Seq::empty());
            &&& result matches CheckView::Check(index, raw) ==> index < names.len() && index
                >= checked.len() && (values[index as int].len() > 0 ==> raw == values[index as int])
                && (values[index as int].len() == 0 ==> defaults[index as int] is Some && raw
                == defaults[index as int]->0@) && (i < index ==> i < checked.len() && checked[i]
                is Ok)
            &&& result matches CheckView::Invalid(index, problem) ==> index < names.len() && ({
                let missing = values[index as int].len() == 0 && defaults[index as int] is None;
                if missing {
                    problem == "Workflow input '"@ + names[index as int] + "' is required"@
                } else {
                    index < checked.len() && checked[index as int] is Err && problem
                        == "Workflow input '"@ + names[index as int] + "': "@ + (
                    checked[index as int]->Err_0)@
                }
            }) && (i < index ==> i < checked.len() && checked[i] is Ok)
            &&& result matches CheckView::Passed(all) ==> all.len() == names.len() && (i
                < names.len() ==> i < checked.len() && checked[i] is Ok && all[i]
                == checked[i]->Ok_0@)
        }),
{
    lemma_check_from(names, values, defaults, checked, 0, Seq::empty(), i);
}

/// The picker of files is told the name of the input and the pattern.
pub proof fn law_file_picker(name: Seq<char>, glob: Seq<char>)
    ensures
        ({
            let args = crate::form::picker_args(name, glob);
            &&& args.len() == 4
            &&& args[0] == "--prompt="@ + name + "> "@
            &&& args[1] == "--header=Select a file matching "@ + glob
            &&& args[2] == "--height=80%"@
            &&& args[3] == "--reverse"@
        }),
{
}

/// What a picker printed is taken without the line ends behind it, and otherwise as it is.
pub proof fn law_picked_lines(s: Seq<char>)
    ensures
        ({
            let line = crate::form::without_line_ends(s);
            &&& line.len() <= s.len()
            &&& line == s.take(line.len() as int)
            &&& line.len() > 0 ==> line.last() != '\r' && line.last() != '\n'
            &&& forall|i: int|
                line.len() <= i < s.len() ==> #[trigger] s[i] == '\r' || s[i] == '\n'
        }),
    decreases s.len(),
{
    if s.len() > 0 && (s.last() == '\r' || s.last() == '\n') {
        law_picked_lines(s.drop_last());
        let line = crate::form::without_line_ends(s);
        assert(s.drop_last().take(line.len() as int) =~= s.take(line.len() as int));
        assert forall|i: int| line.len() <= i < s.len() implies #[trigger] s[i] == '\r' || s[i]
            == '\n' by {
            if i < s.len() - 1 {
                assert(s.drop_last()[i] == s[i]);
            }
        }
    } else {
        assert(s.take(s.len() as int) =~= s);
    }
}

// ---------------------------------------------------------------------------
// Notices
// ---------------------------------------------------------------------------

/// A worktree is described by its branch, its path and its warnings, which are marked;
/// without a warning a plain line says so.
pub proof fn law_described_worktrees(
    branch: Seq<char>,
    path: Seq<char>,
    warnings: Seq<Seq<char>>,
    none: Seq<char>,
    i: int,
)
    requires
        0 <= i < warnings.len() || i == 0,
    ensures
        ({
            let lines = crate::notices::worktree_lines(branch, path, warnings, none);
            &&& lines[0].text == "branch: "@ + branch && !lines[0].attention
            &&& lines[1].text == "path: "@ + path && !lines[1].attention
            &&& warnings.len() == 0 ==> lines.len() == 3 && lines[2].text == none
                && !lines[2].attention
            &&& warnings.len() > 0 ==> lines.len() == 2 + warnings.len() && lines[2 + i].text
                == warnings[i] && lines[2 + i].attention
        }),
{
}

/// A comment is shown with its kind, its author, whether it is resolved, its context where
/// it has one, and its text behind an empty line; an open one is marked.
pub proof fn law_shown_comments(row: CommentRow)
    ensures
        ({
            let lines = crate::notices::comment_view(row);
            let with_context = trimmed(row.context@).len() > 0;
            &&& lines[0].text == "kind: "@ + row.kind@
            &&& lines[1].text == "author: "@ + row.author@
            &&& lines[2].text == "resolved: "@ + row.resolved@
            &&& lines[2].attention <==> lower(row.resolved@) == lower("no"@)
            &&& with_context ==> lines.len() == 6 && lines[3].text == "context: "@ + row.context@
            &&& !with_context ==> lines.len() == 5
            &&& lines[lines.len() - 2].text.len() == 0
            &&& lines[lines.len() - 1].text == row.body@
            &&& forall|i: int| 0 <= i < lines.len() && i != 2 ==> !(#[trigger] lines[i]).attention
        }),
{
}

proof fn lemma_recoverable(entries: Seq<WorkflowEntry>, n: nat, i: usize)
    requires
        n <= entries.len() <= usize::MAX,
    ensures
        recoverable(entries, n).contains(i) <==> i < n && entries[i as int].recover,
    decreases n,
{
    if n > 0 {
        let before = recoverable(entries, (n - 1) as nat);
        let now = recoverable(entries, n);
        lemma_recoverable(entries, (n - 1) as nat, i);
        if entries[n - 1].recover {
            if before.contains(i) {
                let at = choose|k: int| 0 <= k < before.len() && before[k] == i;
                assert(now[at] == i);
            }
            if now.contains(i) && i != n - 1 {
                let at = choose|k: int| 0 <= k < now.len() && now[k] == i;
                assert(before[at] == i);
            }
            assert(now[before.len() as int] == n - 1);
        }
    }
}

proof fn lemma_recoverable_order(entries: Seq<WorkflowEntry>, n: nat, a: int, b: int)
    requires
        n <= entries.len() <= usize::MAX,
        0 <= a < b < recoverable(entries, n).len(),
    ensures
        recoverable(entries, n)[a] < recoverable(entries, n)[b] < n,
    decreases n,
{
    let before = recoverable(entries, (n - 1) as nat);
    if b < before.len() {
        lemma_recoverable_order(entries, (n - 1) as nat, a, b);
    } else {
        let at = before[a];
        assert(before.contains(at));
        lemma_recoverable(entries, (n - 1) as nat, at);
    }
}

/// The Workflows that can be recovered are offered, each once and in their order, and no
/// others.
pub proof fn law_recoverable_workflows(entries: Seq<WorkflowEntry>, i: usize, a: int, b: int)
    requires
        entries.len() <= usize::MAX,
    ensures
        ({
            let offered = recoverable(entries, entries.len());
            &&& offered.contains(i) <==> i < entries.len() && entries[i as int].recover
            &&& 0 <= a < b < offered.len() ==> offered[a] < offered[b]
        }),
{
    lemma_recoverable(entries, entries.len(), i);
    if 0 <= a < b < recoverable(entries, entries.len()).len() {
        lemma_recoverable_order(entries, entries.len(), a, b);
    }
}

/// How long ago a Workflow was last heard of is shown in whole minutes from one minute on,
/// and in whole seconds before.
pub proof fn law_ages(now_ms: i64, heartbeat_ms: i64)
    requires
        heartbeat_ms <= now_ms,
        0 <= heartbeat_ms,
    ensures
        ({
            let age = now_ms - heartbeat_ms;
            let shown = crate::notices::age_text(
                crate::notices::age_of(now_ms, Some(heartbeat_ms)),
            );
            &&& age < 60000 ==> shown == crate::text::decimal_text((age / 1000) as nat) + "s ago"@
            &&& age >= 60000 ==> shown == crate::text::decimal_text((age / 60000) as nat)
                + "m ago"@
        }),
        crate::notices::age_of(now_ms, None) == 0,
{
}

/// A Workflow is offered under its repository, its worktree, its step and its age.
pub proof fn law_labels_of_workflows(entry: WorkflowEntry, now_ms: i64)
    ensures
        ({
            let age = crate::notices::age_text(
                crate::notices::age_of(now_ms, entry.heartbeat_unix_ms),
            );
            crate::notices::entry_label(entry, now_ms) == entry.repo_label@ + " / "@
                + entry.worktree@ + "  Workflow  "@ + (if entry.step is Some {
                entry.step->0@
            } else {
                "Workflow"@
            }) + "  "@ + age
        }),
{
}

// ---------------------------------------------------------------------------
// Harnesses
// ---------------------------------------------------------------------------

proof fn lemma_without_harness(
    nav: NavView,
    known: Map<WorktreeView, Seq<char>>,
    n: nat,
    i: usize,
)
    requires
        n <= nav.sessions.len() <= usize::MAX,
    ensures
        without_harness(nav, known, n).contains(i) <==> i < n && nav.sessions[i as int].repo_index
            < nav.repos.len() && !known.dom().contains(
            crate::keys::identity_view(
                nav.repos[nav.sessions[i as int].repo_index as int].repo.root@,
                nav.sessions[i as int],
            ),
        ),
    decreases n,
{
    if n > 0 {
        let before = without_harness(nav, known, (n - 1) as nat);
        let now = without_harness(nav, known, n);
        lemma_without_harness(nav, known, (n - 1) as nat, i);
        if now != before {
            if before.contains(i) {
                let at = choose|k: int| 0 <= k < before.len() && before[k] == i;
                assert(now[at] == i);
            }
            if now.contains(i) && i != n - 1 {
                let at = choose|k: int| 0 <= k < now.len() && now[k] == i;
                assert(before[at] == i);
            }
            assert(now[before.len() as int] == n - 1);
        }
    }
}

/// The worktrees that are asked for their harness are those of known repositories whose
/// harness is not known yet.
pub proof fn law_worktrees_without_harness(
    nav: NavView,
    known: Map<WorktreeView, Seq<char>>,
    i: usize,
)
    requires
        nav.sessions.len() <= usize::MAX,
    ensures
        without_harness(nav, known, nav.sessions.len()).contains(i) <==> i < nav.sessions.len()
            && nav.sessions[i as int].repo_index < nav.repos.len() && !known.dom().contains(
            crate::keys::identity_view(
                nav.repos[nav.sessions[i as int].repo_index as int].repo.root@,
                nav.sessions[i as int],
            ),
        ),
{
    lemma_without_harness(nav, known, nav.sessions.len(), i);
}

/// A worktree is asked about where it uses another harness than its repository's default
/// and was not told to keep it.
pub proof fn law_changed_harnesses(nav: NavView, index: usize, id: Seq<char>, keep: bool)
    requires
        index < nav.sessions.len(),
        nav.sessions[index as int].repo_index < nav.repos.len(),
    ensures
        crate::harness::asks_about_harness(nav, index, id, keep) <==> !keep && id
            != nav.repos[nav.sessions[index as int].repo_index as int].config.default_harness@,
        crate::harness::target_harness(nav, index)
            == nav.repos[nav.sessions[index as int].repo_index as int].config.default_harness@,
{
}

/// What is offered for a changed harness: to migrate to the default, to be asked again, or
/// to keep the one in use.
pub proof fn law_harness_options(target: Seq<char>, id: Seq<char>)
    ensures
        ({
            let options = crate::harness::harness_options(target, id);
            &&& options.len() == 3
            &&& options[0].key == "m"@ && options[0].label == "Migrate to "@ + target
            &&& options[1].key == "l"@ && options[1].label == "Later; open "@ + id
                + " and ask next time"@
            &&& options[2].key == "k"@ && options[2].label == "Keep "@ + id + "; stop asking"@
            &&& forall|i: int| 0 <= i < 3 ==> !(#[trigger] options[i]).disabled
        }),
{
}

// ---------------------------------------------------------------------------
// How dialogs end
// ---------------------------------------------------------------------------

/// A question ends with Enter once the answer is one, and with its default when it is
/// cancelled. An answer that is none empties the text and is marked; any other key edits it.
pub proof fn law_questions_end_with_an_answer(
    typed: Seq<char>,
    default: bool,
    invalid: bool,
    event: KeyEvent,
)
    ensures
        ({
            let (text, marked, verdict) = crate::dialog::question_after(
                typed,
                default,
                invalid,
                event,
            );
            let enters = event.kind == KeyEventKind::Press && event.code == KeyCode::Enter
                && !event.modifiers.control && !event.modifiers.alt;
            let answer = answer_of(typed, default);
            &&& verdict matches Verdict::Closed(answered) ==> event.kind == KeyEventKind::Press && (
            enters && answer == Some(answered) || event.is_cancel() && answered == default)
            &&& enters && answer is Some ==> verdict == Verdict::Closed(answer->0)
            &&& enters && answer is None ==> verdict is Open && text.len() == 0 && marked
            &&& event.kind == KeyEventKind::Press && event.is_cancel() ==> verdict
                == Verdict::Closed(default)
            &&& event.kind == KeyEventKind::Press && !enters && !event.is_cancel() ==> text
                == edited(typed, event) && marked == invalid && verdict is Open
            &&& event.kind != KeyEventKind::Press ==> text == typed && marked == invalid
                && verdict is Open
        }),
{
}

/// A prompt ends with Enter or when it is cancelled, and keeps what was typed; any other
/// key edits it.
pub proof fn law_prompts_end_with_enter(typed: Seq<char>, event: KeyEvent)
    ensures
        ({
            let (text, verdict) = crate::dialog::prompt_after(typed, event);
            let pressed = event.kind == KeyEventKind::Press;
            &&& verdict == Verdict::Closed(PromptEnd::Submitted) <==> pressed && event.code
                == KeyCode::Enter
            &&& verdict == Verdict::Closed(PromptEnd::Cancelled) <==> pressed && event.is_cancel()
            &&& verdict is Closed ==> text == typed
            &&& pressed && verdict is Open ==> text == edited(typed, event)
            &&& !pressed ==> text == typed && verdict is Open
        }),
{
}

/// A notice is scrolled by one line with its keys and closed with Esc, Enter or `q`.
pub proof fn law_notices_are_scrolled_and_closed(scroll: usize, event: KeyEvent)
    ensures
        ({
            let (line, verdict) = crate::dialog::notice_after(scroll, event);
            let pressed = event.kind == KeyEventKind::Press;
            &&& verdict is Closed <==> pressed && (event.code == KeyCode::Esc || event.code
                == KeyCode::Enter || event.code == KeyCode::Char('q'))
            &&& pressed && event.code == KeyCode::Down && scroll < usize::MAX ==> line == scroll + 1
            &&& pressed && event.code == KeyCode::Char('j') && scroll < usize::MAX ==> line
                == scroll + 1
            &&& pressed && event.code == KeyCode::Up && scroll > 0 ==> line == scroll - 1
            &&& pressed && event.code == KeyCode::Char('k') && scroll > 0 ==> line == scroll - 1
            &&& !pressed || verdict is Closed ==> line == scroll
        }),
{
}

/// A key chooses the option that answers to it; a released key, a key that cancels and a key
/// without an option choose none.
pub proof fn law_keys_choose_options(options: Seq<ChoiceView>, event: KeyEvent, i: int)
    requires
        0 <= i < options.len(),
    ensures
        event.kind == KeyEventKind::Press && !event.is_cancel() && event.typed() is Some
            && !options[i].disabled && lower(options[i].key) == lower(
            seq![crate::text::lower_char(event.typed()->0)],
        ) ==> crate::dialog::chosen_by(options, event) == Some(
            seq![crate::text::lower_char(event.typed()->0)],
        ),
        crate::dialog::chosen_by(options, event) matches Some(key) ==> event.kind
            == KeyEventKind::Press && !event.is_cancel() && exists|k: int|
            0 <= k < options.len() && !(#[trigger] options[k]).disabled && lower(options[k].key)
                == lower(key),
{
    if event.typed() is Some {
        let key = seq![crate::text::lower_char(event.typed()->0)];
        if !options[i].disabled && lower(options[i].key) == lower(key) {
            assert(crate::dialog::answers_to(options[i], key));
        }
    }
    if let Some(key) = crate::dialog::chosen_by(options, event) {
        let k = choose|k: int|
            0 <= k < options.len() && crate::dialog::answers_to(#[trigger] options[k], key);
        assert(!options[k].disabled && lower(options[k].key) == lower(key));
    }
}

/// The work that a dialog waits for is cancelled by Esc, and only while it is under way.
pub proof fn law_waits_are_cancelled_by_esc(job: DialogJob, event: KeyEvent)
    ensures
        crate::dialog::cancels_job(job, Some(event)) <==> job == DialogJob::Pending && event.kind
            == KeyEventKind::Press && event.code == KeyCode::Esc,
        !crate::dialog::cancels_job(job, None),
{
}

/// What a picker came to: nothing where it was left, why it failed, or the file that it
/// printed.
pub proof fn law_picker_results(
    code: Option<i32>,
    success: bool,
    status: Seq<char>,
    stdout: Seq<char>,
)
    ensures
        ({
            let result = crate::form::picker_result(code, success, status, stdout);
            let left = code == Some(1i32) || code == Some(130i32);
            let line = crate::form::without_line_ends(stdout);
            &&& left ==> result == Ok::<Option<Seq<char>>, Seq<char>>(None)
            &&& !left && !success ==> result == Err::<Option<Seq<char>>, Seq<char>>(
                "Workflow input picker exited with "@ + status,
            )
            &&& !left && success && line.len() == 0 ==> result == Ok::<
                Option<Seq<char>>,
                Seq<char>,
            >(None)
            &&& !left && success && line.len() > 0 ==> result == Ok::<
                Option<Seq<char>>,
                Seq<char>,
            >(Some(line))
        }),
{
}

/// Before a worktree is archived its branch, its path and its warnings are shown, and last
/// that its files stay and how it is restored; before one is deleted nothing is promised.
pub proof fn law_archive_and_delete_notices(
    branch: Seq<char>,
    path: Seq<char>,
    warnings: Seq<Seq<char>>,
)
    ensures
        ({
            let archive = crate::notices::archive_notice(branch, path, warnings);
            let delete = crate::notices::delete_notice(branch, path, warnings);
            &&& archive.len() == (if warnings.len() == 0 {
                4
            } else {
                3 + warnings.len() as int
            })
            &&& archive.last().text
                == "Archive hides this worktree from normal navigation. Restore with `git worktree list` and remove the archive marker from Prism state if needed."@
            &&& !archive.last().attention
            &&& archive[0].text == "branch: "@ + branch
            &&& archive[1].text == "path: "@ + path
            &&& warnings.len() == 0 ==> archive[2].text
                == "No warnings detected; worktree files stay on disk."@
            &&& delete.len() == (if warnings.len() == 0 {
                3
            } else {
                2 + warnings.len() as int
            })
            &&& delete[0].text == "branch: "@ + branch
            &&& delete[1].text == "path: "@ + path
            &&& warnings.len() == 0 ==> delete[2].text == "No warnings detected."@
            &&& warnings.len() > 0 ==> archive[2].attention && delete[2].attention
                && archive[2].text == warnings[0] && delete[2].text == warnings[0]
        }),
{
}

/// The answer `m` migrates a worktree, `k` keeps its harness, and anything else leaves the
/// question for the next time.
pub proof fn law_answers_about_harnesses(answer: Option<Seq<char>>)
    ensures
        crate::harness::choice_of(answer) == HarnessChoice::Migrate <==> answer == Some("m"@),
        crate::harness::choice_of(answer) == HarnessChoice::Keep <==> answer == Some("k"@),
{
    reveal_strlit("m");
    reveal_strlit("k");
    assert("m"@[0] != "k"@[0]);
}

/// A worktree is moved to the default harness of its repository unless it uses that one
/// already and was not told to keep its own.
pub proof fn law_moved_harnesses(nav: NavView, index: usize, id: Seq<char>, keep: bool)
    requires
        index < nav.sessions.len(),
        nav.sessions[index as int].repo_index < nav.repos.len(),
    ensures
        crate::harness::moves_harness(nav, index, id, keep) <==> keep || id
            != nav.repos[nav.sessions[index as int].repo_index as int].config.default_harness@,
        crate::harness::asks_about_harness(nav, index, id, keep) ==> crate::harness::moves_harness(
            nav,
            index,
            id,
            keep,
        ),
{
}

/// The help lists every key with what it does.
pub proof fn law_listed_keys()
    ensures
        ({
            let lines = crate::notices::keybinding_lines();
            &&& lines.len() == 32
            &&& lines[0] == "1 / 2 / 3    focus status / repos / worktrees sidebars; 3 toggles repo/all worktrees"@
            &&& lines[1] == "0            focus main panel for the selected sidebar"@
            &&& lines[2] == "Tab / Shift-Tab  move focus between panels"@
            &&& lines[3] == "[ / ]        switch repository views or worktree list scope"@
            &&& lines[4] == "h/l, left/right arrows  repos: switch view"@
            &&& lines[5] == "Enter       repos: open default-branch tmux; worktrees: open agent; main comments: details"@
            &&& lines[6] == "Ctrl-/       open tmux window 3: terminal"@
            &&& lines[7] == "p            repos: pull default branch"@
            &&& lines[8] == "W / Space w w  open the flat Workflow run/edit picker"@
            &&& lines[9] == "Space w a    create an AI one-off Workflow for the selected worktree"@
            &&& lines[10] == "Space c      open the unified configuration tree"@
            &&& lines[11] == "{ / }        cycle Workflow Runs for the selected worktree"@
            &&& lines[12] == "u / f        pause or resume the selected Workflow Run / retry its failed Step"@
            &&& lines[13] == "j/k          move the selection in the focused dashboard or comments panel"@
            &&& lines[14] == "Space g R    main comments: resolve all inline review conversations"@
            &&& lines[15] == "r            repos: reorder or remove repositories"@
            &&& lines[16] == "C            repos: open a worktree for a remote pull request"@
            &&& lines[17] == "c            repos: create worktree session in selected repo"@
            &&& lines[18] == "> / <        worktrees: raise/lower priority"@
            &&& lines[19] == "x            cancel selected Workflow Run, otherwise abort selected agent session"@
            &&& lines[20] == "M            worktrees: migrate selected worktree to the default harness"@
            &&& lines[21] == "o            worktrees: open the selected Worktrunk development URL"@
            &&& lines[22] == "L            worktrees: inspect bounded Worktrunk hook logs"@
            &&& lines[23] == "/            search/filter focused panel"@
            &&& lines[24] == "?            show keybindings; / filters this dialog"@
            &&& lines[25] == "D            archive non-default worktree/session"@
            &&& lines[26] == "U            repos: choose an archived worktree to unarchive"@
            &&& lines[27] == "X            permanently delete non-default worktree/session"@
            &&& lines[28] == "j/k, up/down move selection"@
            &&& lines[29] == "g g / G      top / bottom"@
            &&& lines[30] == "r            refresh outside the repos sidebar"@
            &&& lines[31] == "q, Ctrl-C    quit"@
        }),
{
}

} // verus!
