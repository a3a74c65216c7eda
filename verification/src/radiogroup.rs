use vstd::prelude::*;

use crate::keys::Key;
use crate::select_group::{item_looks, look_of, clampable, move_cursor, moved_cursor, ItemLook};

verus! {

/// A row of options of which exactly one is selected, with a cursor that can
/// wander away from the selection until Enter confirms it or Esc discards it.
#[derive(Debug)]
pub struct RadioGroup {
    items: Vec<String>,
    selected: usize,
    cursor: usize,
}

impl RadioGroup {
    /// The selection and the cursor each stand on an option (or at 0 when there
    /// is none).
    pub closed spec fn wf(self) -> bool {
        &&& (self.selected < self.items@.len() || self.selected == 0)
        &&& (self.cursor < self.items@.len() || self.cursor == 0)
    }

    /// The options, in order.
    pub closed spec fn items(self) -> Seq<String> {
        self.items@
    }

    /// The index of the selected option.
    pub closed spec fn selection(self) -> usize {
        self.selected
    }

    /// The index under the cursor.
    pub closed spec fn cursor(self) -> usize {
        self.cursor
    }

    /// In a well-formed group the cursor stands on an option, if there is one.
    pub proof fn lemma_cursor_in_range(self)
        requires
            self.wf(),
        ensures
            self.items().len() > 0 ==> self.cursor() < self.items().len(),
            self.items().len() > 0 ==> self.selection() < self.items().len(),
    {
    }

    /// A group over `items` with the first selected and the cursor on it.
    pub fn new(items: Vec<String>) -> (group: Self)
        ensures
            group.wf(),
            group.items() == items@,
            group.selection() == 0,
            group.cursor() == 0,
    {
        RadioGroup { items, selected: 0, cursor: 0 }
    }

    /// Brings the cursor back to the selected option.
    pub fn discard(&mut self)
        requires
            old(self).wf(),
        ensures
            final(self).wf(),
            old(self).discarded(*final(self)),
    {
        self.cursor = self.selected;
    }

    /// The selected option.
    pub fn selected(&self) -> (option: &str)
        requires
            self.wf(),
            self.items().len() > 0,
        ensures
            option@ == self.items()[self.selection() as int]@,
    {
        self.items[self.selected].as_str()
    }

    /// `next` is `self` after the key: left and right move the cursor, Enter
    /// selects the option under it, Esc brings the cursor back to the
    /// selection; other keys change nothing.
    pub open spec fn reacts(self, next: Self, key: Key) -> bool {
        &&& next.items() == self.items()
        &&& match key {
            Key::Left => {
                &&& next.selection() == self.selection()
                &&& next.cursor() == moved_cursor(self.cursor(), self.items().len() as usize, -1i32)
            },
            Key::Right => {
                &&& next.selection() == self.selection()
                &&& next.cursor() == moved_cursor(self.cursor(), self.items().len() as usize, 1i32)
            },
            Key::Enter => {
                &&& next.selection() == self.cursor()
                &&& next.cursor() == self.cursor()
            },
            Key::Esc => self.discarded(next),
            _ => next == self,
        }
    }

    /// `next` is `self` with the cursor back on the selected option.
    pub open spec fn discarded(self, next: Self) -> bool {
        &&& next.items() == self.items()
        &&& next.selection() == self.selection()
        &&& next.cursor() == self.selection()
    }

    /// Left and right move the cursor, Enter selects the option under it, Esc
    /// brings the cursor back to the selection; other keys do nothing.
    pub fn handle_key_event(&mut self, key: Key)
        requires
            old(self).wf(),
            key == Key::Left || key == Key::Right ==> clampable(old(self).items().len() as usize),
            key == Key::Left && old(self).items().len() > 0 ==> (old(self).cursor() as i32) - 1 >= i32::MIN,
            key == Key::Right && old(self).items().len() > 0 ==> (old(self).cursor() as i32) + 1 <= i32::MAX,
        ensures
            final(self).wf(),
            old(self).reacts(*final(self), key),
    {
        match key {
            Key::Left => {
                let len = self.items.len();
                move_cursor(&mut self.cursor, len, -1);
            },
            Key::Right => {
                let len = self.items.len();
                move_cursor(&mut self.cursor, len, 1);
            },
            Key::Enter => {
                self.selected = self.cursor;
            },
            Key::Esc => {
                self.discard();
            },
            _ => {},
        }
    }

    /// How each option is drawn: marked where selected, and the one under the cursor.
    pub fn item_looks(&self) -> (looks: Vec<ItemLook>)
        requires
            self.wf(),
        ensures
            looks@.len() == self.items().len(),
            forall|i: int|
                0 <= i < looks@.len() ==> #[trigger] looks@[i] == look_of(
                    i == self.selection(),
                    i == self.cursor(),
                ),
    {
        let n = self.items.len();
        let mut marks: Vec<bool> = Vec::new();
        for i in 0..n
            invariant
                n == self.items@.len(),
                marks@.len() == i,
                forall|j: int| 0 <= j < i ==> #[trigger] marks@[j] == (j == self.selected),
        {
            marks.push(i == self.selected);
        }
        item_looks(&marks, self.cursor)
    }

    /// The options, in order.
    pub fn items_ref(&self) -> (items: &Vec<String>)
        ensures
            items@ == self.items(),
    {
        &self.items
    }
}

/// Only Enter changes the selection; after any wandering of the cursor, Esc
/// brings it back onto the selected option.
pub proof fn lemma_esc_returns_to_selection(a: RadioGroup, b: RadioGroup, c: RadioGroup, key: Key)
    requires
        a.reacts(b, key),
        key != Key::Enter,
        b.reacts(c, Key::Esc),
    ensures
        b.selection() == a.selection(),
        c.selection() == a.selection(),
        c.cursor() == a.selection(),
{
}

/// Enter selects the option under the cursor, and the cursor stays on it.
pub proof fn lemma_enter_selects_cursor(a: RadioGroup, b: RadioGroup)
    requires
        a.reacts(b, Key::Enter),
    ensures
        b.selection() == a.cursor(),
        b.cursor() == b.selection(),
{
}

/// Key by key, on a group with options (no more than an `i32` counts): Left
/// moves the cursor one option back unless it is on the first, Right one
/// option on unless it is on the last, neither touching the selection; Enter
/// selects the option under the cursor; Esc puts the cursor on the selected
/// option; no key changes the options, and any other key changes nothing.
pub proof fn lemma_radio_keys(a: RadioGroup, b: RadioGroup, key: Key)
    requires
        a.wf(),
        0 < a.items().len() <= i32::MAX,
        a.reacts(b, key),
    ensures
        b.items() == a.items(),
        key == Key::Left ==> b.selection() == a.selection() && b.cursor() == (if a.cursor() == 0 {
            0
        } else {
            a.cursor() - 1
        }),
        key == Key::Right ==> b.selection() == a.selection() && b.cursor() == (if a.cursor() + 1
            < a.items().len() {
            a.cursor() + 1
        } else {
            a.cursor() as int
        }),
        key == Key::Enter ==> b.selection() == a.cursor() && b.cursor() == a.cursor(),
        key == Key::Esc ==> b.selection() == a.selection() && b.cursor() == a.selection(),
        !(key == Key::Left || key == Key::Right || key == Key::Enter || key == Key::Esc) ==> b == a,
        b.selection() < b.items().len() && b.cursor() < b.items().len(),
{
}

} // verus!
