use vstd::prelude::*;

use crate::keys::Key;

verus! {

/// What a selection widget reports after it handled a key.
#[derive(Clone, Copy, Debug, PartialEq, Eq, Structural)]
pub enum SelectionAction {
    Select,
    Discard,
    Navigate,
    /// The key meant nothing to the widget.
    Ignored,
}

/// What a selection widget reports for a key: navigation for left and right,
/// a selection for Enter, a discard for Esc, nothing for any other key.
pub open spec fn key_action(key: Key) -> SelectionAction {
    match key {
        Key::Left | Key::Right => SelectionAction::Navigate,
        Key::Enter => SelectionAction::Select,
        Key::Esc => SelectionAction::Discard,
        _ => SelectionAction::Ignored,
    }
}

/// `value` limited to the index range `0 ..= len - 1`.
pub open spec fn clamp_index(value: int, len: int) -> int {
    if value < 0 {
        0
    } else if value > len - 1 {
        len - 1
    } else {
        value
    }
}

/// Whether a list of `len` items has, read as an `i32` count, a nonempty
/// index range `0 ..= len - 1` (true of every list of at most `i32::MAX` items).
pub open spec fn clampable(len: usize) -> bool {
    len == 0 || (len as i32) >= 1
}

/// The cursor that `move_cursor` leaves: unchanged over an empty list, else the
/// old cursor moved by `delta` and clamped to the list, both read as `i32`s.
pub open spec fn moved_cursor(cursor: usize, len: usize, delta: i32) -> int {
    if len == 0 {
        cursor as int
    } else {
        clamp_index((cursor as i32) + delta, (len as i32) as int)
    }
}

/// Moves `cursor` by `delta`, clamped to the valid index range for `len` items.
pub fn move_cursor(cursor: &mut usize, len: usize, delta: i32) -> (action: SelectionAction)
    requires
        clampable(len),
        len != 0 ==> i32::MIN <= (*old(cursor) as i32) + delta <= i32::MAX,
    ensures
        action == SelectionAction::Navigate,
        *final(cursor) == moved_cursor(*old(cursor), len, delta),
        len != 0 ==> *final(cursor) < len,
{
    if len != 0 {
        let moved: i32 = *cursor as i32 + delta;
        let count: i32 = len as i32;
        assert(count >= 1 ==> count <= len) by (bit_vector)
            requires
                count == len as i32,
        ;
        let last: i32 = count - 1;
        let clamped: i32 = if moved < 0 {
            0
        } else if moved > last {
            last
        } else {
            moved
        };
        *cursor = clamped as usize;
    }
    SelectionAction::Navigate
}

/// Over a list of at most `i32::MAX` items, moving the cursor by `delta`
/// lands on `cursor + delta` when that is an index of the list, on the first
/// item below it and on the last item beyond it; over an empty list the
/// cursor stays.
pub proof fn lemma_moved_cursor_clamps(cursor: usize, len: usize, delta: i32)
    requires
        len <= i32::MAX,
        cursor <= i32::MAX,
    ensures
        len == 0 ==> moved_cursor(cursor, len, delta) == cursor,
        len > 0 && 0 <= cursor + delta < len ==> moved_cursor(cursor, len, delta) == cursor + delta,
        len > 0 && cursor + delta < 0 ==> moved_cursor(cursor, len, delta) == 0,
        len > 0 && cursor + delta >= len ==> moved_cursor(cursor, len, delta) == len - 1,
{
}

/// How one item of a selection widget is drawn.
#[derive(Clone, Copy, Debug, PartialEq, Eq, Structural)]
pub enum ItemLook {
    /// Marked (checked, or the selected option) and under the cursor.
    MarkedAtCursor,
    /// Marked, not under the cursor.
    Marked,
    /// Under the cursor, not marked.
    AtCursor,
    /// Neither.
    Plain,
}

pub open spec fn look_of(marked: bool, at_cursor: bool) -> ItemLook {
    if marked && at_cursor {
        ItemLook::MarkedAtCursor
    } else if marked {
        ItemLook::Marked
    } else if at_cursor {
        ItemLook::AtCursor
    } else {
        ItemLook::Plain
    }
}

/// The look of each item of a horizontal selection list, given which items are
/// marked and where the cursor stands.
pub fn item_looks(marks: &Vec<bool>, cursor: usize) -> (looks: Vec<ItemLook>)
    ensures
        looks@.len() == marks@.len(),
        forall|i: int|
            0 <= i < marks@.len() ==> #[trigger] looks@[i] == look_of(marks@[i], i == cursor),
{
    let mut looks: Vec<ItemLook> = Vec::new();
    let n = marks.len();
    for i in 0..n
        invariant
            n == marks@.len(),
            looks@.len() == i,
            forall|j: int| 0 <= j < i ==> #[trigger] looks@[j] == look_of(marks@[j], j == cursor),
    {
        let marked = marks[i];
        let at_cursor = i == cursor;
        let look = if marked && at_cursor {
            ItemLook::MarkedAtCursor
        } else if marked {
            ItemLook::Marked
        } else if at_cursor {
            ItemLook::AtCursor
        } else {
            ItemLook::Plain
        };
        looks.push(look);
    }
    looks
}

/// An item looks marked exactly when it is marked, and looks like the cursor
/// exactly when the cursor is on it.
pub proof fn lemma_look_of_parts(marked: bool, at_cursor: bool)
    ensures
        (look_of(marked, at_cursor) == ItemLook::MarkedAtCursor || look_of(marked, at_cursor)
            == ItemLook::Marked) == marked,
        (look_of(marked, at_cursor) == ItemLook::MarkedAtCursor || look_of(marked, at_cursor)
            == ItemLook::AtCursor) == at_cursor,
{
}

/// A selection widget reports navigation exactly for the arrows, a
/// selection exactly for Enter, a discard exactly for Esc.
pub proof fn lemma_key_action_table(key: Key)
    ensures
        (key_action(key) == SelectionAction::Navigate) == (key == Key::Left || key == Key::Right),
        (key_action(key) == SelectionAction::Select) == (key == Key::Enter),
        (key_action(key) == SelectionAction::Discard) == (key == Key::Esc),
{
}

} // verus!
