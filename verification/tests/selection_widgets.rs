use speed_typing::checkboxgroup::CheckboxGroup;
use speed_typing::keys::Key;
use speed_typing::radiogroup::RadioGroup;
use speed_typing::select_group::{item_looks, move_cursor, ItemLook, SelectionAction};

fn strings(items: &[&str]) -> Vec<String> {
    items.iter().map(|s| s.to_string()).collect()
}

#[test]
fn move_cursor_steps_right() {
    let mut cursor: usize = 1;
    assert_eq!(move_cursor(&mut cursor, 3, 1), SelectionAction::Navigate);
    assert_eq!(cursor, 2);
}

#[test]
fn move_cursor_clamps_at_both_ends() {
    let mut cursor: usize = 0;
    assert_eq!(move_cursor(&mut cursor, 3, -1), SelectionAction::Navigate);
    assert_eq!(cursor, 0);
    let mut cursor: usize = 2;
    move_cursor(&mut cursor, 3, 1);
    assert_eq!(cursor, 2);
    let mut cursor: usize = 1;
    move_cursor(&mut cursor, 3, 10);
    assert_eq!(cursor, 2);
    move_cursor(&mut cursor, 3, -10);
    assert_eq!(cursor, 0);
}

#[test]
fn move_cursor_over_empty_list_keeps_cursor() {
    let mut cursor: usize = 5;
    assert_eq!(move_cursor(&mut cursor, 0, 1), SelectionAction::Navigate);
    assert_eq!(cursor, 5);
}

#[test]
fn item_looks_combine_mark_and_cursor() {
    let looks = item_looks(&vec![true, false, true, false], 2);
    assert_eq!(
        looks,
        vec![ItemLook::Marked, ItemLook::Plain, ItemLook::MarkedAtCursor, ItemLook::Plain]
    );
    let looks = item_looks(&vec![false, false], 1);
    assert_eq!(looks, vec![ItemLook::Plain, ItemLook::AtCursor]);
}

#[test]
fn checkbox_group_starts_unchecked() {
    let group = CheckboxGroup::new(strings(&["punctuation", "numbers"]));
    assert!(group.checked_indices().is_empty());
    assert!(group.checked_keys().is_empty());
    assert_eq!(group.items_ref().len(), 2);
    assert_eq!(group.item_looks(), vec![ItemLook::AtCursor, ItemLook::Plain]);
}

#[test]
fn checkbox_group_enter_toggles_option_under_cursor() {
    let mut group = CheckboxGroup::new(strings(&["a", "b", "c"]));
    assert_eq!(group.handle_key_event(Key::Enter), SelectionAction::Select);
    assert_eq!(group.handle_key_event(Key::Right), SelectionAction::Navigate);
    assert_eq!(group.handle_key_event(Key::Right), SelectionAction::Navigate);
    assert_eq!(group.handle_key_event(Key::Enter), SelectionAction::Select);
    assert_eq!(group.checked_indices(), vec![0, 2]);
    let keys: Vec<&str> = group.checked_keys().iter().map(|s| s.as_str()).collect();
    assert_eq!(keys, vec!["a", "c"]);
    assert_eq!(
        group.item_looks(),
        vec![ItemLook::Marked, ItemLook::Plain, ItemLook::MarkedAtCursor]
    );
}

#[test]
fn checkbox_group_enter_twice_restores_checks() {
    let mut group = CheckboxGroup::new(strings(&["a", "b"]));
    group.handle_key_event(Key::Right);
    group.handle_key_event(Key::Enter);
    assert_eq!(group.checked_indices(), vec![1]);
    group.handle_key_event(Key::Enter);
    assert!(group.checked_indices().is_empty());
}

#[test]
fn checkbox_group_esc_and_discard_reset_cursor_keep_checks() {
    let mut group = CheckboxGroup::new(strings(&["a", "b", "c"]));
    group.handle_key_event(Key::Right);
    group.handle_key_event(Key::Enter);
    assert_eq!(group.handle_key_event(Key::Esc), SelectionAction::Discard);
    assert_eq!(group.checked_indices(), vec![1]);
    assert_eq!(group.item_looks()[0], ItemLook::AtCursor);
    group.handle_key_event(Key::Right);
    group.handle_key_event(Key::Right);
    assert_eq!(group.discard(), SelectionAction::Discard);
    assert_eq!(group.item_looks()[0], ItemLook::AtCursor);
}

#[test]
fn checkbox_group_ignores_other_keys() {
    let mut group = CheckboxGroup::new(strings(&["a", "b"]));
    assert_eq!(group.handle_key_event(Key::Char('x')), SelectionAction::Ignored);
    assert_eq!(group.handle_key_event(Key::Tab), SelectionAction::Ignored);
    assert!(group.checked_indices().is_empty());
}

#[test]
fn checkbox_group_cursor_stays_in_range() {
    let mut group = CheckboxGroup::new(strings(&["a", "b"]));
    group.handle_key_event(Key::Left);
    assert_eq!(group.item_looks(), vec![ItemLook::AtCursor, ItemLook::Plain]);
    for _ in 0..5 {
        group.handle_key_event(Key::Right);
    }
    assert_eq!(group.item_looks(), vec![ItemLook::Plain, ItemLook::AtCursor]);
}

#[test]
fn radio_group_starts_on_first_option() {
    let group = RadioGroup::new(strings(&["time", "words"]));
    assert_eq!(group.selected(), "time");
    assert_eq!(group.item_looks(), vec![ItemLook::MarkedAtCursor, ItemLook::Plain]);
}

#[test]
fn radio_group_enter_confirms_cursor() {
    let mut group = RadioGroup::new(strings(&["15", "30", "45", "60"]));
    group.handle_key_event(Key::Right);
    group.handle_key_event(Key::Right);
    assert_eq!(group.selected(), "15");
    group.handle_key_event(Key::Enter);
    assert_eq!(group.selected(), "45");
    assert_eq!(
        group.item_looks(),
        vec![ItemLook::Plain, ItemLook::Plain, ItemLook::MarkedAtCursor, ItemLook::Plain]
    );
}

#[test]
fn radio_group_esc_returns_cursor_to_selection() {
    let mut group = RadioGroup::new(strings(&["time", "words"]));
    group.handle_key_event(Key::Right);
    assert_eq!(group.item_looks(), vec![ItemLook::Marked, ItemLook::AtCursor]);
    group.handle_key_event(Key::Esc);
    assert_eq!(group.item_looks(), vec![ItemLook::MarkedAtCursor, ItemLook::Plain]);
    assert_eq!(group.selected(), "time");
    group.handle_key_event(Key::Right);
    group.discard();
    assert_eq!(group.item_looks(), vec![ItemLook::MarkedAtCursor, ItemLook::Plain]);
}

#[test]
fn radio_group_ignores_other_keys() {
    let mut group = RadioGroup::new(strings(&["time", "words"]));
    group.handle_key_event(Key::Backspace);
    group.handle_key_event(Key::Char('w'));
    assert_eq!(group.selected(), "time");
    assert_eq!(group.item_looks(), vec![ItemLook::MarkedAtCursor, ItemLook::Plain]);
}
