use vstd::prelude::*;

use crate::words::same_word;

verus! {

/// One drawn cell of a word, over characters of type `C` (the game draws
/// `char`s). The flag on a typed character says that the word was submitted
/// wrong and the cursor has moved past it, so the word is drawn on a red
/// background.
#[derive(Debug, PartialEq, Eq)]
pub enum Glyph<C> {
    /// The typing cursor, drawn before the next character to type.
    Cursor,
    /// A character of a word nobody has typed yet.
    Pending(C),
    /// A target character typed right.
    Correct(C, bool),
    /// A target character typed wrong (the target character is drawn).
    Wrong(C, bool),
    /// A target character not typed (the typed word is shorter).
    Skipped(C, bool),
    /// A typed character beyond the end of the target word.
    Extra(C, bool),
}

/// The glyph at position `i` of a typed word, if the target or the typed word
/// reaches that far.
pub open spec fn cell_glyph(target: Seq<char>, typed: Seq<char>, i: int, flagged: bool) -> Seq<Glyph<char>> {
    if i < target.len() && i < typed.len() {
        if target[i] == typed[i] {
            seq![Glyph::Correct(target[i], flagged)]
        } else {
            seq![Glyph::Wrong(target[i], flagged)]
        }
    } else if i < target.len() {
        seq![Glyph::Skipped(target[i], flagged)]
    } else if i < typed.len() {
        seq![Glyph::Extra(typed[i], flagged)]
    } else {
        seq![]
    }
}

/// The glyphs of positions `0 .. n` of a typed word, with the cursor before
/// position `typed.len()` when the word is the current one.
pub open spec fn typed_glyphs(target: Seq<char>, typed: Seq<char>, is_current: bool, n: nat) -> Seq<Glyph<char>>
    decreases n,
{
    if n == 0 {
        seq![]
    } else {
        let i = n - 1;
        let flagged = target != typed && !is_current;
        typed_glyphs(target, typed, is_current, (n - 1) as nat) + (if is_current && i == typed.len() {
            seq![Glyph::Cursor]
        } else {
            seq![]
        }) + cell_glyph(target, typed, i, flagged)
    }
}

pub open spec fn max_len(a: Seq<char>, b: Seq<char>) -> nat {
    if a.len() >= b.len() {
        a.len()
    } else {
        b.len()
    }
}

/// How a target word is drawn beside what the player typed for it (`None`
/// for a word not reached yet); `is_current` marks the word being typed.
pub open spec fn word_glyphs(target: Seq<char>, typed: Option<Seq<char>>, is_current: bool) -> Seq<Glyph<char>> {
    match typed {
        None => Seq::new(target.len(), |i: int| Glyph::Pending(target[i])),
        Some(u) => typed_glyphs(target, u, is_current, max_len(target, u) + 1),
    }
}

/// A typed word takes one cell per position of the longer of the two words,
/// and one more for the cursor when it is the current word.
pub proof fn lemma_typed_glyphs_len(target: Seq<char>, typed: Seq<char>, is_current: bool, n: nat)
    ensures
        typed_glyphs(target, typed, is_current, n).len() == (if n <= max_len(target, typed) {
            n
        } else {
            max_len(target, typed)
        }) + (if is_current && typed.len() < n {
            1nat
        } else {
            0nat
        }),
    decreases n,
{
    if n > 0 {
        lemma_typed_glyphs_len(target, typed, is_current, (n - 1) as nat);
        let i = n - 1;
        let flagged = target != typed && !is_current;
        assert(cell_glyph(target, typed, i, flagged).len() == if i < max_len(target, typed) {
            1nat
        } else {
            0nat
        });
    }
}

/// Where position `i` of a typed word is drawn: after the cursor, when the
/// word is the current one and `i` is at or past the typed length.
pub open spec fn glyph_index(typed: Seq<char>, is_current: bool, i: int) -> int {
    if is_current && i >= typed.len() {
        i + 1
    } else {
        i
    }
}

proof fn lemma_typed_glyphs_at(target: Seq<char>, typed: Seq<char>, is_current: bool, n: nat)
    requires
        n <= max_len(target, typed) + 1,
    ensures
        ({
            let g = typed_glyphs(target, typed, is_current, n);
            let flagged = target != typed && !is_current;
            &&& is_current && typed.len() < n ==> g[typed.len() as int] == Glyph::<char>::Cursor
            &&& forall|i: int|
                0 <= i < n && i < max_len(target, typed) ==> #[trigger] g[glyph_index(typed, is_current, i)]
                    == (if i < target.len() && i < typed.len() {
                    if target[i] == typed[i] {
                        Glyph::Correct(target[i], flagged)
                    } else {
                        Glyph::Wrong(target[i], flagged)
                    }
                } else if i < target.len() {
                    Glyph::Skipped(target[i], flagged)
                } else {
                    Glyph::Extra(typed[i], flagged)
                })
        }),
    decreases n,
{
    if n > 0 {
        let m = (n - 1) as nat;
        lemma_typed_glyphs_at(target, typed, is_current, m);
        lemma_typed_glyphs_len(target, typed, is_current, m);
        let flagged = target != typed && !is_current;
        let prev = typed_glyphs(target, typed, is_current, m);
        let cur = if is_current && m == typed.len() {
            seq![Glyph::<char>::Cursor]
        } else {
            seq![]
        };
        let g = typed_glyphs(target, typed, is_current, n);
        assert(g == prev + cur + cell_glyph(target, typed, m as int, flagged));
        assert forall|i: int| 0 <= i < m && i < max_len(target, typed) implies #[trigger] g[glyph_index(
            typed,
            is_current,
            i,
        )] == prev[glyph_index(typed, is_current, i)] by {}
    }
}

/// How a typed word is drawn, cell by cell: one glyph per position of the
/// longer of the target and the typed word, in order; for the current word
/// the cursor is drawn at the typed length, before the glyph of that
/// position. A position holding a target character shows it as correct when
/// typed the same, as wrong when typed differently, as skipped when not
/// typed; a typed character past the target's end shows as extra. Every
/// glyph of the word is flagged exactly when the word differs from its target
/// and is not the one being typed.
pub proof fn lemma_word_glyphs_cells(target: Seq<char>, typed: Seq<char>, is_current: bool)
    ensures
        ({
            let g = word_glyphs(target, Some(typed), is_current);
            let flagged = target != typed && !is_current;
            &&& g.len() == max_len(target, typed) + (if is_current {
                1nat
            } else {
                0nat
            })
            &&& is_current ==> g[typed.len() as int] == Glyph::<char>::Cursor
            &&& forall|i: int|
                0 <= i < max_len(target, typed) ==> #[trigger] g[glyph_index(typed, is_current, i)] == (if i
                    < target.len() && i < typed.len() {
                    if target[i] == typed[i] {
                        Glyph::Correct(target[i], flagged)
                    } else {
                        Glyph::Wrong(target[i], flagged)
                    }
                } else if i < target.len() {
                    Glyph::Skipped(target[i], flagged)
                } else {
                    Glyph::Extra(typed[i], flagged)
                })
        }),
{
    lemma_typed_glyphs_len(target, typed, is_current, max_len(target, typed) + 1);
    lemma_typed_glyphs_at(target, typed, is_current, max_len(target, typed) + 1);
}

/// A word not reached yet is drawn as its characters, pending, one each.
pub proof fn lemma_untyped_word_glyphs(target: Seq<char>, is_current: bool)
    ensures
        word_glyphs(target, None, is_current).len() == target.len(),
        forall|i: int|
            0 <= i < target.len() ==> #[trigger] word_glyphs(target, None, is_current)[i] == Glyph::Pending(
                target[i],
            ),
{
}

/// Renders a single target word alongside what the player typed for it.
/// `is_current` marks the word the cursor is currently sitting in.
pub fn render_word(target: &Vec<char>, typed: Option<&Vec<char>>, is_current: bool) -> (glyphs: Vec<Glyph<char>>)
    ensures
        glyphs@ == word_glyphs(
            target@,
            match typed {
                Some(u) => Some(u@),
                None => None,
            },
            is_current,
        ),
{
    match typed {
        None => {
            let mut glyphs: Vec<Glyph<char>> = Vec::new();
            let n = target.len();
            for i in 0..n
                invariant
                    n == target@.len(),
                    glyphs@.len() == i,
                    forall|j: int| 0 <= j < i ==> #[trigger] glyphs@[j] == Glyph::Pending(target@[j]),
            {
                glyphs.push(Glyph::Pending(target[i]));
            }
            assert(glyphs@ =~= Seq::new(target@.len(), |j: int| Glyph::Pending(target@[j])));
            glyphs
        },
        Some(typed) => {
            let is_wrong = !same_word(target, typed);
            let flagged = is_wrong && !is_current;
            let longest = if target.len() >= typed.len() {
                target.len()
            } else {
                typed.len()
            };
            let cursor_position = typed.len();
            let mut glyphs: Vec<Glyph<char>> = Vec::new();
            let mut i: usize = 0;
            loop
                invariant_except_break
                    i <= longest,
                    glyphs@ == typed_glyphs(target@, typed@, is_current, i as nat),
                invariant
                    longest == max_len(target@, typed@),
                    cursor_position == typed@.len(),
                    flagged == (target@ != typed@ && !is_current),
                ensures
                    glyphs@ == typed_glyphs(target@, typed@, is_current, (longest + 1) as nat),
                decreases longest - i,
            {
                let ghost before = glyphs@;
                if is_current && i == cursor_position {
                    glyphs.push(Glyph::Cursor);
                }
                let ghost middle = glyphs@;
                assert(middle =~= before + (if is_current && i == typed@.len() {
                    seq![Glyph::Cursor]
                } else {
                    seq![]
                }));
                if i < target.len() && i < typed.len() {
                    if target[i] == typed[i] {
                        glyphs.push(Glyph::Correct(target[i], flagged));
                    } else {
                        glyphs.push(Glyph::Wrong(target[i], flagged));
                    }
                } else if i < target.len() {
                    glyphs.push(Glyph::Skipped(target[i], flagged));
                } else if i < typed.len() {
                    glyphs.push(Glyph::Extra(typed[i], flagged));
                }
                assert(glyphs@ =~= middle + cell_glyph(target@, typed@, i as int, flagged));
                assert(glyphs@ =~= typed_glyphs(target@, typed@, is_current, (i + 1) as nat));
                if i == longest {
                    break;
                }
                i = i + 1;
            }
            glyphs
        },
    }
}

} // verus!
