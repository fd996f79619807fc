use prism::dialog::confirmation_result;
use prism::dialog::selectable_choice_key;
use prism::dialog::wait_for_dialog_job;
use prism::dialog::ChoiceList;
use prism::dialog::DialogJob;
use prism::dialog::DialogWait;
use prism::dialog::KeyChoice;
use prism::input::KeyCode;
use prism::input::KeyEvent;
use prism::input::KeyModifiers;
use prism::toggle::move_enabled_ordered_item;
use prism::toggle::toggle_item_in_place;
use prism::toggle::toggle_ordered_item;
use prism::toggle::OrderedToggleItem;

#[test]
fn confirmation_empty_answer_uses_the_passed_default() {
    assert_eq!(confirmation_result("", true), Some(true));
    assert_eq!(confirmation_result("", false), Some(false));
}

#[test]
fn confirmation_yes_and_no_override_the_default() {
    assert_eq!(confirmation_result("y", false), Some(true));
    assert_eq!(confirmation_result("n", true), Some(false));
}

#[test]
fn confirmation_rejects_unknown_answers() {
    assert_eq!(confirmation_result("maybe", true), None);
    assert_eq!(confirmation_result("ny", false), None);
}

#[test]
fn disabled_choice_keys_are_not_selectable() {
    let choices = ChoiceList {
        title: "Harness".to_string(),
        choices: vec![
            KeyChoice::disabled("1", "OpenCode"),
            KeyChoice::new("2", "Codex"),
        ],
    };

    assert_eq!(selectable_choice_key(&choices, "1"), None);
    assert_eq!(selectable_choice_key(&choices, "2").as_deref(), Some("2"));
}

#[test]
fn choice_keys_ignore_the_case_of_letters() {
    let choices = ChoiceList {
        title: "Sorting".to_string(),
        choices: vec![KeyChoice::new("A", "Ascending")],
    };
    assert_eq!(selectable_choice_key(&choices, "a").as_deref(), Some("a"));
    assert_eq!(selectable_choice_key(&choices, "b"), None);
}

fn ordered_toggle_items() -> Vec<OrderedToggleItem> {
    vec![
        OrderedToggleItem {
            id: "one".to_string(),
            label: "First".to_string(),
            enabled: true,
        },
        OrderedToggleItem {
            id: "two".to_string(),
            label: "Second".to_string(),
            enabled: true,
        },
        OrderedToggleItem {
            id: "three".to_string(),
            label: "Third".to_string(),
            enabled: false,
        },
    ]
}

#[test]
fn ordered_toggle_groups_enabled_items_before_disabled_items() {
    let mut items = ordered_toggle_items();
    let mut selected = 1;

    toggle_ordered_item(&mut items, &mut selected);

    assert_eq!(selected, 2);
    assert_eq!(
        items
            .iter()
            .map(|item| (item.id.as_str(), item.enabled))
            .collect::<Vec<_>>(),
        vec![("one", true), ("three", false), ("two", false)]
    );

    toggle_ordered_item(&mut items, &mut selected);

    assert_eq!(selected, 1);
    assert_eq!(
        items
            .iter()
            .map(|item| (item.id.as_str(), item.enabled))
            .collect::<Vec<_>>(),
        vec![("one", true), ("two", true), ("three", false)]
    );
}

#[test]
fn ordered_toggle_moves_only_enabled_items() {
    let mut items = ordered_toggle_items();
    let mut selected = 1;

    move_enabled_ordered_item(&mut items, &mut selected, -1);

    assert_eq!(selected, 0);
    assert_eq!(
        items
            .iter()
            .map(|item| item.id.as_str())
            .collect::<Vec<_>>(),
        vec!["two", "one", "three"]
    );

    selected = 2;
    move_enabled_ordered_item(&mut items, &mut selected, -1);
    assert_eq!(selected, 2);
}

#[test]
fn recovery_toggle_keeps_stable_order() {
    let mut items = vec![
        OrderedToggleItem {
            id: "first".to_string(),
            label: "First".to_string(),
            enabled: false,
        },
        OrderedToggleItem {
            id: "second".to_string(),
            label: "Second".to_string(),
            enabled: false,
        },
    ];

    toggle_item_in_place(&mut items, 1);

    assert_eq!(items[0].id, "first");
    assert_eq!(items[1].id, "second");
    assert!(!items[0].enabled);
    assert!(items[1].enabled);
}

#[test]
fn only_escape_ends_the_wait_for_background_work() {
    let escape = KeyEvent::new(KeyCode::Esc, KeyModifiers::none());
    let other = KeyEvent::new(KeyCode::Enter, KeyModifiers::none());
    assert!(matches!(
        wait_for_dialog_job(DialogJob::Pending, Some(escape)),
        DialogWait::Cancel
    ));
    assert!(matches!(
        wait_for_dialog_job(DialogJob::Pending, Some(other)),
        DialogWait::Wait
    ));
    assert!(matches!(
        wait_for_dialog_job(DialogJob::Pending, None),
        DialogWait::Wait
    ));
    assert!(matches!(
        wait_for_dialog_job(DialogJob::Done, Some(escape)),
        DialogWait::Finish
    ));
    assert!(matches!(
        wait_for_dialog_job(DialogJob::Lost, None),
        DialogWait::Fail("background dialog job stopped unexpectedly")
    ));
}
