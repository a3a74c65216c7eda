use vstd::prelude::*;

use crate::keys::Key;
use crate::select_group::{item_looks, key_action, look_of, clampable, move_cursor, moved_cursor, ItemLook, SelectionAction};

verus! {

/// A row of options, each of which can be checked or unchecked, with a cursor.
#[derive(Debug)]
pub struct CheckboxGroup {
    items: Vec<String>,
    checked: Vec<bool>,
    cursor: usize,
}

/// Whether the indices in `indices` are, in increasing order, exactly those `i`
/// with `checked[i]`.
pub open spec fn lists_checked(checked: Seq<bool>, indices: Seq<usize>) -> bool {
    &&& forall|k: int| 0 <= k < indices.len() ==> #[trigger] indices[k] < checked.len()
    &&& forall|k: int| 0 <= k < indices.len() ==> checked[#[trigger] indices[k] as int]
    &&& forall|k: int, l: int| 0 <= k < l < indices.len() ==> #[trigger] indices[k] < #[trigger] indices[l]
    &&& forall|i: int| 0 <= i < checked.len() && #[trigger] checked[i] ==> indices.contains(i as usize)
}

impl CheckboxGroup {
    /// One check mark per option, and the cursor on an option (or at 0 when
    /// there is none).
    pub closed spec fn wf(self) -> bool {
        &&& self.checked@.len() == self.items@.len()
        &&& (self.cursor < self.items@.len() || self.cursor == 0)
    }

    /// The options, in order.
    pub closed spec fn items(self) -> Seq<String> {
        self.items@
    }

    /// Whether each option is checked.
    pub closed spec fn checked(self) -> Seq<bool> {
        self.checked@
    }

    /// The index under the cursor.
    pub closed spec fn cursor(self) -> usize {
        self.cursor
    }

    /// A well-formed group has one check mark per option, and its cursor stands
    /// on an option, if there is one.
    pub proof fn lemma_cursor_in_range(self)
        requires
            self.wf(),
        ensures
            self.checked().len() == self.items().len(),
            self.items().len() > 0 ==> self.cursor() < self.items().len(),
    {
    }

    /// A group over `items`, none checked, the cursor on the first.
    pub fn new(items: Vec<String>) -> (group: Self)
        ensures
            group.wf(),
            group.items() == items@,
            group.checked() == Seq::new(items@.len(), |i: int| false),
            group.cursor() == 0,
    {
        let n = items.len();
        let mut checked: Vec<bool> = Vec::new();
        for i in 0..n
            invariant
                checked@ == Seq::new(i as nat, |j: int| false),
        {
            checked.push(false);
        }
        CheckboxGroup { items, checked, cursor: 0 }
    }

    /// Puts the cursor back on the first option; the checks stay.
    pub fn discard(&mut self) -> (action: SelectionAction)
        requires
            old(self).wf(),
        ensures
            final(self).wf(),
            action == SelectionAction::Discard,
            old(self).discarded(*final(self)),
    {
        self.cursor = 0;
        SelectionAction::Discard
    }

    /// The indices of the checked options, in increasing order.
    pub fn checked_indices(&self) -> (indices: Vec<usize>)
        ensures
            lists_checked(self.checked(), indices@),
    {
        let n = self.checked.len();
        let mut indices: Vec<usize> = Vec::new();
        for i in 0..n
            invariant
                n == self.checked@.len(),
                forall|k: int| 0 <= k < indices@.len() ==> #[trigger] indices@[k] < i,
                forall|k: int| 0 <= k < indices@.len() ==> self.checked@[#[trigger] indices@[k] as int],
                forall|k: int, l: int|
                    0 <= k < l < indices@.len() ==> #[trigger] indices@[k] < #[trigger] indices@[l],
                forall|j: int| 0 <= j < i && #[trigger] self.checked@[j] ==> indices@.contains(j as usize),
        {
            let ghost prev = indices@;
            if self.checked[i] {
                indices.push(i);
                assert(indices@[indices@.len() - 1] == i);
            }
            assert forall|j: int| 0 <= j < i + 1 && #[trigger] self.checked@[j] implies indices@.contains(
                j as usize,
            ) by {
                if j < i {
                    let k = choose|k: int| 0 <= k < prev.len() && prev[k] == j as usize;
                    assert(indices@[k] == prev[k]);
                }
            }
        }
        indices
    }

    /// The checked options, in order.
    pub fn checked_keys(&self) -> (keys: Vec<&String>)
        requires
            self.wf(),
        ensures
            exists|indices: Seq<usize>|
                {
                    &&& lists_checked(self.checked(), indices)
                    &&& keys@.len() == indices.len()
                    &&& forall|k: int|
                        0 <= k < indices.len() ==> *#[trigger] keys@[k] == self.items()[indices[k] as int]
                },
    {
        let indices = self.checked_indices();
        let mut keys: Vec<&String> = Vec::new();
        let n = indices.len();
        for k in 0..n
            invariant
                n == indices@.len(),
                lists_checked(self.checked(), indices@),
                self.checked@.len() == self.items@.len(),
                keys@.len() == k,
                forall|m: int| 0 <= m < k ==> *#[trigger] keys@[m] == self.items@[indices@[m] as int],
        {
            let i = indices[k];
            keys.push(&self.items[i]);
        }
        assert(keys@.len() == indices@.len());
        keys
    }

    /// `next` is `self` after the key: left and right move the cursor, Enter
    /// checks or unchecks the option under it, Esc puts the cursor back on the
    /// first option; other keys change nothing.
    pub open spec fn reacts(self, next: Self, key: Key) -> bool {
        &&& next.items() == self.items()
        &&& match key {
            Key::Left => {
                &&& next.checked() == self.checked()
                &&& next.cursor() == moved_cursor(self.cursor(), self.items().len() as usize, -1i32)
            },
            Key::Right => {
                &&& next.checked() == self.checked()
                &&& next.cursor() == moved_cursor(self.cursor(), self.items().len() as usize, 1i32)
            },
            Key::Enter => {
                &&& next.cursor() == self.cursor()
                &&& next.checked() == self.checked().update(
                    self.cursor() as int,
                    !self.checked()[self.cursor() as int],
                )
            },
            Key::Esc => self.discarded(next),
            _ => next == self,
        }
    }

    /// `next` is `self` with the cursor back on the first option.
    pub open spec fn discarded(self, next: Self) -> bool {
        &&& next.items() == self.items()
        &&& next.checked() == self.checked()
        &&& next.cursor() == 0
    }

    /// Left and right move the cursor, Enter checks or unchecks the option under
    /// it, Esc puts the cursor back on the first option; other keys do nothing.
    pub fn handle_key_event(&mut self, key: Key) -> (action: SelectionAction)
        requires
            old(self).wf(),
            key == Key::Left || key == Key::Right ==> clampable(old(self).items().len() as usize),
            key == Key::Left && old(self).items().len() > 0 ==> (old(self).cursor() as i32) - 1 >= i32::MIN,
            key == Key::Right && old(self).items().len() > 0 ==> (old(self).cursor() as i32) + 1 <= i32::MAX,
            key == Key::Enter ==> old(self).items().len() > 0,
        ensures
            final(self).wf(),
            old(self).reacts(*final(self), key),
            action == key_action(key),
    {
        match key {
            Key::Left => {
                let len = self.items.len();
                move_cursor(&mut self.cursor, len, -1)
            },
            Key::Right => {
                let len = self.items.len();
                move_cursor(&mut self.cursor, len, 1)
            },
            Key::Enter => {
                let c = self.cursor;
                let flipped = !self.checked[c];
                self.checked.set(c, flipped);
                SelectionAction::Select
            },
            Key::Esc => self.discard(),
            _ => SelectionAction::Ignored,
        }
    }

    /// How each option is drawn: marked where checked, and the one under the cursor.
    pub fn item_looks(&self) -> (looks: Vec<ItemLook>)
        requires
            self.wf(),
        ensures
            looks@.len() == self.items().len(),
            forall|i: int|
                0 <= i < looks@.len() ==> #[trigger] looks@[i] == look_of(
                    self.checked()[i],
                    i == self.cursor(),
                ),
    {
        item_looks(&self.checked, self.cursor)
    }

    /// The options, in order.
    pub fn items_ref(&self) -> (items: &Vec<String>)
        ensures
            items@ == self.items(),
    {
        &self.items
    }
}

/// Enter twice on the same option leaves every check as it was.
pub proof fn lemma_enter_twice_restores(a: CheckboxGroup, b: CheckboxGroup, c: CheckboxGroup)
    requires
        a.wf(),
        a.items().len() > 0,
        a.reacts(b, Key::Enter),
        b.reacts(c, Key::Enter),
    ensures
        c.checked() == a.checked(),
        c.cursor() == a.cursor(),
        c.items() == a.items(),
{
    assert(c.checked() =~= a.checked());
}

/// No key but Enter changes which options are checked.
pub proof fn lemma_only_enter_checks(a: CheckboxGroup, b: CheckboxGroup, key: Key)
    requires
        a.reacts(b, key),
        key != Key::Enter,
    ensures
        b.checked() == a.checked(),
{
}

/// Key by key, on a group with options (no more than an `i32` counts): Left
/// moves the cursor one option back unless it is on the first, Right one
/// option on unless it is on the last, Enter flips the check of the option
/// under the cursor and no other, Esc puts the cursor on the first option,
/// and no key changes the options; a key other than these changes nothing.
pub proof fn lemma_checkbox_keys(a: CheckboxGroup, b: CheckboxGroup, key: Key)
    requires
        a.wf(),
        0 < a.items().len() <= i32::MAX,
        a.reacts(b, key),
    ensures
        b.items() == a.items(),
        key == Key::Left ==> b.checked() == a.checked() && b.cursor() == (if a.cursor() == 0 {
            0
        } else {
            a.cursor() - 1
        }),
        key == Key::Right ==> b.checked() == a.checked() && b.cursor() == (if a.cursor() + 1 < a.items().len() {
            a.cursor() + 1
        } else {
            a.cursor() as int
        }),
        key == Key::Enter ==> {
            &&& b.cursor() == a.cursor()
            &&& b.checked().len() == a.checked().len()
            &&& b.checked()[a.cursor() as int] == !a.checked()[a.cursor() as int]
            &&& forall|j: int| 0 <= j < a.checked().len() && j != a.cursor() ==> b.checked()[j] == a.checked()[j]
        },
        key == Key::Esc ==> b.checked() == a.checked() && b.cursor() == 0,
        !(key == Key::Left || key == Key::Right || key == Key::Enter || key == Key::Esc) ==> b == a,
{
}

} // verus!
