use vstd::prelude::*;

verus! {

/// A key press, as the widgets and the typing game see it.
///
/// The terminal front end turns each key-press event into one of these values;
/// every key that no widget reacts to arrives as `Other`.
#[derive(Clone, Copy, Debug, PartialEq, Eq, Structural)]
pub enum Key {
    /// A printable character, the space bar included.
    Char(char),
    Backspace,
    Enter,
    Left,
    Right,
    Tab,
    BackTab,
    Esc,
    Other,
}

} // verus!
