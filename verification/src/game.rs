use vstd::prelude::*;

use crate::glyphs::{lemma_typed_glyphs_len, max_len, render_word, word_glyphs, Glyph};
use crate::keys::Key;
use crate::words::{same_word, split_on_space, split_words, word_seqs};

verus! {

/// The passage the player types.
pub const TEXT: &'static str = "Lorem ipsum dolor sit amet, consectetur adipiscing elit. Maecenas convallis magna vel turpis lobortis bibendum. Aenean consequat nisl ac augue lobortis ullamcorper. Cras elementum urna ut molestie venenatis. Mauris est eros, ullamcorper malesuada nulla sed, iaculis ultricies ligula. Vestibulum ante ipsum primis in faucibus orci luctus et ultrices posuere cubilia curae; Mauris egestas urna a mi pulvinar eleifend a ut eros. Vivamus in malesuada massa. Vestibulum pharetra arcu non enim dapibus, consectetur blandit eros posuere. Praesent imperdiet felis quis felis blandit posuere.";

/// A typing game as a value: the words to type, the words already submitted,
/// the word being typed, and the counters.
#[verifier::ext_equal]
pub struct TypingState {
    pub target: Seq<Seq<char>>,
    pub completed: Seq<Seq<char>>,
    pub current: Seq<char>,
    /// Keystrokes that did not match the expected character.
    pub errors: nat,
    /// Words submitted equal to their target word (a restart keeps the count).
    pub words: nat,
    /// Characters of those words.
    pub chars: nat,
}

/// The word the player is expected to be typing, if any.
pub open spec fn expected_word(s: TypingState) -> Option<Seq<char>> {
    if s.completed.len() < s.target.len() {
        Some(s.target[s.completed.len() as int])
    } else {
        None
    }
}

/// Whether every target word has been typed and submitted.
pub open spec fn finished(s: TypingState) -> bool {
    s.completed.len() >= s.target.len()
}

/// Whether submitted word `i` equals target word `i`.
pub open spec fn submitted_correctly(completed: Seq<Seq<char>>, target: Seq<Seq<char>>, i: int) -> bool {
    0 <= i < completed.len() && i < target.len() && completed[i] == target[i]
}

/// The number of submitted words that equal their target word.
pub open spec fn correct_words(completed: Seq<Seq<char>>, target: Seq<Seq<char>>) -> nat
    decreases completed.len(),
{
    if completed.len() == 0 {
        0
    } else {
        correct_words(completed.drop_last(), target) + if submitted_correctly(
            completed,
            target,
            completed.len() - 1,
        ) {
            1nat
        } else {
            0nat
        }
    }
}

/// The number of characters in the submitted words that equal their target word.
pub open spec fn correct_chars(completed: Seq<Seq<char>>, target: Seq<Seq<char>>) -> nat
    decreases completed.len(),
{
    if completed.len() == 0 {
        0
    } else {
        correct_chars(completed.drop_last(), target) + if submitted_correctly(
            completed,
            target,
            completed.len() - 1,
        ) {
            completed.last().len()
        } else {
            0nat
        }
    }
}

/// What every reachable game satisfies: no more words submitted than there
/// are to type.
pub open spec fn consistent(s: TypingState) -> bool {
    s.completed.len() <= s.target.len()
}

/// Whether the counters of `s` fit in a `usize`.
pub open spec fn counters_fit(s: TypingState) -> bool {
    &&& s.errors <= usize::MAX
    &&& s.words <= usize::MAX
    &&& s.chars <= usize::MAX
}

/// A typed character other than the space: appended to the word being typed,
/// counted as an error unless it is the expected character at that position.
/// Nothing happens when no word is expected.
pub open spec fn after_char(s: TypingState, ch: char) -> TypingState {
    match expected_word(s) {
        None => s,
        Some(w) => TypingState {
            current: s.current.push(ch),
            errors: if s.current.len() < w.len() && w[s.current.len() as int] == ch {
                s.errors
            } else {
                s.errors + 1
            },
            ..s
        },
    }
}

/// The space: submits the word being typed, unless it is empty; a word equal
/// to the expected one adds one word and its length in characters.
pub open spec fn after_space(s: TypingState) -> TypingState {
    if s.current.len() == 0 {
        s
    } else {
        let hit = expected_word(s) == Some(s.current);
        TypingState {
            completed: s.completed.push(s.current),
            current: Seq::empty(),
            words: if hit {
                s.words + 1
            } else {
                s.words
            },
            chars: if hit {
                s.chars + s.current.len()
            } else {
                s.chars
            },
            ..s
        }
    }
}

/// Backspace: removes the last typed character; with nothing typed, reopens
/// the last submitted word for editing, unless it was typed correctly.
pub open spec fn after_backspace(s: TypingState) -> TypingState {
    if s.current.len() > 0 {
        TypingState { current: s.current.drop_last(), ..s }
    } else if s.completed.len() == 0 {
        s
    } else if submitted_correctly(s.completed, s.target, s.completed.len() - 1) {
        s
    } else {
        TypingState { completed: s.completed.drop_last(), current: s.completed.last(), ..s }
    }
}

/// The game after one key press. A finished game ignores every key.
pub open spec fn step(s: TypingState, key: Key) -> TypingState {
    if finished(s) {
        s
    } else {
        match key {
            Key::Char(c) => if c == ' ' {
                after_space(s)
            } else {
                after_char(s, c)
            },
            Key::Backspace => after_backspace(s),
            _ => s,
        }
    }
}

/// Whether the key press submits a word (after which the typing rates are
/// worth recomputing).
pub open spec fn submits(s: TypingState, key: Key) -> bool {
    !finished(s) && key == Key::Char(' ') && s.current.len() > 0
}

/// A fresh game over `target`: nothing typed, the counters as given.
pub open spec fn fresh(target: Seq<Seq<char>>, errors: nat, words: nat, chars: nat) -> TypingState {
    TypingState { target, completed: Seq::empty(), current: Seq::empty(), errors, words, chars }
}

// ---------------------------------------------------------------------------
// Lemmas on the counters.

proof fn lemma_counts_push(completed: Seq<Seq<char>>, target: Seq<Seq<char>>, w: Seq<char>)
    ensures
        correct_words(completed.push(w), target) == correct_words(completed, target) + if submitted_correctly(
            completed.push(w),
            target,
            completed.len() as int,
        ) {
            1nat
        } else {
            0nat
        },
        correct_chars(completed.push(w), target) == correct_chars(completed, target) + if submitted_correctly(
            completed.push(w),
            target,
            completed.len() as int,
        ) {
            w.len()
        } else {
            0nat
        },
{
    assert(completed.push(w).drop_last() =~= completed);
}

/// Every key press keeps a game consistent, leaves the words to type alone,
/// never lowers a counter, and moves the word and character counters exactly
/// as the correctly submitted words and their characters move: what the
/// counters hold beyond the correct submissions on the screen stays the same.
pub proof fn lemma_step_tallies(s: TypingState, key: Key)
    requires
        consistent(s),
    ensures
        consistent(step(s, key)),
        step(s, key).target == s.target,
        step(s, key).errors >= s.errors,
        step(s, key).words >= s.words,
        step(s, key).chars >= s.chars,
        correct_words(step(s, key).completed, s.target) >= correct_words(s.completed, s.target),
        finished(s) ==> step(s, key) == s,
        step(s, key).words - correct_words(step(s, key).completed, s.target) == s.words
            - correct_words(s.completed, s.target),
        step(s, key).chars - correct_chars(step(s, key).completed, s.target) == s.chars
            - correct_chars(s.completed, s.target),
{
    if !finished(s) {
        match key {
            Key::Char(c) => {
                if c == ' ' && s.current.len() > 0 {
                    lemma_counts_push(s.completed, s.target, s.current);
                }
            },
            Key::Backspace => {
                if s.current.len() == 0 && s.completed.len() > 0 {
                    assert(s.completed.drop_last().push(s.completed.last()) =~= s.completed);
                    lemma_counts_push(s.completed.drop_last(), s.target, s.completed.last());
                }
            },
            _ => {},
        }
    }
}

/// The game after a sequence of key presses.
pub open spec fn run(s: TypingState, keys: Seq<Key>) -> TypingState
    decreases keys.len(),
{
    if keys.len() == 0 {
        s
    } else {
        step(run(s, keys.drop_last()), keys.last())
    }
}

/// Backspace right after a character takes the character back: the game is
/// as before, but for the error that the character may have counted.
pub proof fn lemma_backspace_undoes_char(s: TypingState, c: char)
    requires
        !finished(s),
        c != ' ',
    ensures
        step(step(s, Key::Char(c)), Key::Backspace) == (TypingState {
            errors: step(s, Key::Char(c)).errors,
            ..s
        }),
{
    assert(s.current.push(c).drop_last() =~= s.current);
}

proof fn lemma_typing_prefix(s: TypingState, w: Seq<char>, keys: Seq<Key>, k: nat)
    requires
        !finished(s),
        s.current.len() == 0,
        expected_word(s) == Some(w),
        k <= w.len(),
        keys.len() >= k,
        forall|i: int| 0 <= i < w.len() ==> w[i] != ' ',
        forall|i: int| 0 <= i < w.len() && i < keys.len() ==> (#[trigger] keys[i] matches Key::Char(c) && c == w[i]),
    ensures
        run(s, keys.take(k as int)) == (TypingState { current: w.take(k as int), ..s }),
    decreases k,
{
    if k == 0 {
        assert(keys.take(0) =~= Seq::<Key>::empty());
        assert(w.take(0) =~= s.current);
    } else {
        let j = (k - 1) as nat;
        lemma_typing_prefix(s, w, keys, j);
        assert(keys.take(k as int).drop_last() =~= keys.take(j as int));
        assert(keys.take(k as int).last() == keys[j as int]);
        let prev = TypingState { current: w.take(j as int), ..s };
        assert(keys[j as int] matches Key::Char(c) && c == w[j as int]);
        assert(w.take(j as int).push(w[j as int]) =~= w.take(k as int));
        assert(step(prev, keys[j as int]) == after_char(prev, w[j as int]));
    }
}

/// Typing the expected word exactly, then the space, submits it as a correct
/// word: one more word, its length more characters, and no error.
pub proof fn lemma_typing_word(s: TypingState, w: Seq<char>, keys: Seq<Key>)
    requires
        !finished(s),
        s.current.len() == 0,
        expected_word(s) == Some(w),
        w.len() > 0,
        forall|i: int| 0 <= i < w.len() ==> w[i] != ' ',
        keys.len() == w.len() + 1,
        forall|i: int| 0 <= i < w.len() ==> (#[trigger] keys[i] matches Key::Char(c) && c == w[i]),
        keys.last() == Key::Char(' '),
    ensures
        run(s, keys) == (TypingState {
            completed: s.completed.push(w),
            current: Seq::empty(),
            words: s.words + 1,
            chars: s.chars + w.len(),
            ..s
        }),
{
    lemma_typing_prefix(s, w, keys, w.len());
    assert(keys.drop_last() =~= keys.take(w.len() as int));
    assert(w.take(w.len() as int) =~= w);
}

/// A character other than the space, in an unfinished game, is appended to
/// the word being typed, and counts exactly one error when it is not the
/// character of the expected word at the position typed (or lies past the
/// expected word's end), none otherwise. Nothing else changes.
pub proof fn lemma_char_key(s: TypingState, c: char)
    requires
        s.completed.len() < s.target.len(),
        c != ' ',
    ensures
        ({
            let w = s.target[s.completed.len() as int];
            let i = s.current.len();
            let t = step(s, Key::Char(c));
            &&& t.current == s.current.push(c)
            &&& t.current.len() == s.current.len() + 1
            &&& t.completed == s.completed
            &&& t.target == s.target
            &&& t.words == s.words
            &&& t.chars == s.chars
            &&& (i < w.len() && w[i as int] == c ==> t.errors == s.errors)
            &&& (!(i < w.len() && w[i as int] == c) ==> t.errors == s.errors + 1)
        }),
{
}

/// The space in an unfinished game: with nothing typed nothing happens;
/// otherwise the typed word is appended to the submitted words, the word
/// being typed becomes empty, and the word and character counters rise by one
/// and by its length exactly when it equals the expected word. Errors stay.
pub proof fn lemma_space_key(s: TypingState)
    requires
        s.completed.len() < s.target.len(),
    ensures
        ({
            let t = step(s, Key::Char(' '));
            let w = s.target[s.completed.len() as int];
            &&& s.current.len() == 0 ==> t == s
            &&& s.current.len() > 0 ==> {
                &&& t.completed == s.completed.push(s.current)
                &&& t.completed.len() == s.completed.len() + 1
                &&& t.completed.last() == s.current
                &&& t.current.len() == 0
                &&& t.target == s.target
                &&& t.errors == s.errors
                &&& (s.current == w ==> t.words == s.words + 1 && t.chars == s.chars + w.len())
                &&& (s.current != w ==> t.words == s.words && t.chars == s.chars)
            }
        }),
{
}

/// A key reports a submission exactly when it makes the list of submitted
/// words one longer, whether the submitted word is right or wrong.
pub proof fn lemma_submits_iff_completed_grows(s: TypingState, key: Key)
    requires
        consistent(s),
    ensures
        submits(s, key) == (step(s, key).completed.len() == s.completed.len() + 1),
        !submits(s, key) ==> step(s, key).completed.len() <= s.completed.len(),
{
}

/// Backspace in an unfinished game: with something typed, the last typed
/// character goes; with nothing typed, a last submitted word that differs
/// from its target word is taken back into the word being typed, while one
/// that equals its target word (or no submitted word at all) leaves the game
/// as it is. The counters never change.
pub proof fn lemma_backspace_key(s: TypingState)
    requires
        s.completed.len() < s.target.len(),
    ensures
        ({
            let t = step(s, Key::Backspace);
            let n = s.completed.len();
            &&& t.target == s.target
            &&& t.errors == s.errors && t.words == s.words && t.chars == s.chars
            &&& s.current.len() > 0 ==> t.current == s.current.take(s.current.len() - 1)
                && t.completed == s.completed
            &&& s.current.len() == 0 && n == 0 ==> t == s
            &&& s.current.len() == 0 && n > 0 && s.completed[n - 1] == s.target[n - 1] ==> t == s
            &&& s.current.len() == 0 && n > 0 && s.completed[n - 1] != s.target[n - 1] ==> {
                &&& t.completed == s.completed.take(n - 1)
                &&& t.current == s.completed[n - 1]
            }
        }),
{
    assert(s.current.drop_last() =~= s.current.take(s.current.len() - 1));
    if s.completed.len() > 0 {
        assert(s.completed.drop_last() =~= s.completed.take(s.completed.len() - 1));
    }
}

/// Keys other than characters and backspace change nothing, and a finished
/// game ignores every key.
pub proof fn lemma_other_keys(s: TypingState, key: Key)
    requires
        finished(s) || !(key is Char || key is Backspace),
    ensures
        step(s, key) == s,
{
}

/// A fresh game (as `new` and `reset` leave it) has the given words to type,
/// nothing submitted, nothing typed, and the given counters; it is
/// consistent, and finished only when there is nothing to type.
pub proof fn lemma_fresh_game(target: Seq<Seq<char>>, errors: nat, words: nat, chars: nat)
    ensures
        fresh(target, errors, words, chars).target == target,
        fresh(target, errors, words, chars).completed.len() == 0,
        fresh(target, errors, words, chars).current.len() == 0,
        fresh(target, errors, words, chars).errors == errors,
        fresh(target, errors, words, chars).words == words,
        fresh(target, errors, words, chars).chars == chars,
        consistent(fresh(target, errors, words, chars)),
        finished(fresh(target, errors, words, chars)) == (target.len() == 0),
{
}

// ---------------------------------------------------------------------------
// The game.

/// The counters of a game. Typing speed and accuracy, which are rates over
/// elapsed time, are derived from these by the front end.
#[derive(Debug)]
pub struct GameStatistics {
    errors: usize,
    words: usize,
    chars: usize,
}

impl GameStatistics {
    pub closed spec fn error_count(self) -> nat {
        self.errors as nat
    }

    pub closed spec fn word_count(self) -> nat {
        self.words as nat
    }

    pub closed spec fn char_count(self) -> nat {
        self.chars as nat
    }

    /// Keystrokes that did not match the expected character.
    pub fn errors(&self) -> (n: usize)
        ensures
            n == self.error_count(),
    {
        self.errors
    }

    /// Submitted words that equal their target word.
    pub fn words(&self) -> (n: usize)
        ensures
            n == self.word_count(),
    {
        self.words
    }

    /// Characters of the submitted words that equal their target word.
    pub fn chars(&self) -> (n: usize)
        ensures
            n == self.char_count(),
    {
        self.chars
    }
}

/// A typing test over the passage `TEXT`.
#[derive(Debug)]
pub struct Game {
    target_words: Vec<Vec<char>>,
    completed_words: Vec<Vec<char>>,
    current_word: Vec<char>,
    statistics: GameStatistics,
}

impl Game {
    /// The game as a value.
    pub closed spec fn state(self) -> TypingState {
        TypingState {
            target: word_seqs(self.target_words@),
            completed: word_seqs(self.completed_words@),
            current: self.current_word@,
            errors: self.statistics.errors as nat,
            words: self.statistics.words as nat,
            chars: self.statistics.chars as nat,
        }
    }

    pub open spec fn wf(self) -> bool {
        consistent(self.state())
    }

    /// A game over the words of `TEXT`, nothing typed, the counters at zero.
    pub fn new() -> (game: Self)
        ensures
            game.wf(),
            game.state() == fresh(split_on_space(TEXT@), 0, 0, 0),
    {
        let game = Game {
            target_words: split_words(TEXT),
            completed_words: Vec::new(),
            current_word: Vec::new(),
            statistics: GameStatistics { errors: 0, words: 0, chars: 0 },
        };
        proof {
            assert(game.state().completed =~= Seq::<Seq<char>>::empty());
            assert(game.state() =~= fresh(split_on_space(TEXT@), 0, 0, 0));
        }
        game
    }

    /// Starts over on the words of `TEXT`; the counters are kept.
    pub fn reset(&mut self)
        requires
            old(self).wf(),
        ensures
            final(self).wf(),
            final(self).state() == fresh(
                split_on_space(TEXT@),
                old(self).state().errors,
                old(self).state().words,
                old(self).state().chars,
            ),
    {
        self.target_words = split_words(TEXT);
        self.completed_words = Vec::new();
        self.current_word = Vec::new();
        proof {
            assert(self.state().completed =~= Seq::<Seq<char>>::empty());
            assert(self.state() =~= fresh(
                split_on_space(TEXT@),
                old(self).state().errors,
                old(self).state().words,
                old(self).state().chars,
            ));
        }
    }

    /// Whether every target word has been typed and submitted.
    pub fn is_finished(&self) -> (done: bool)
        ensures
            done == finished(self.state()),
    {
        self.completed_words.len() >= self.target_words.len()
    }

    fn process_char(&mut self, ch: char)
        requires
            old(self).wf(),
            !finished(old(self).state()),
            counters_fit(after_char(old(self).state(), ch)),
        ensures
            final(self).state() == after_char(old(self).state(), ch),
    {
        let n = self.completed_words.len();
        if n >= self.target_words.len() {
            return;
        }
        let typed_index = self.current_word.len();
        let expected = &self.target_words[n];
        let matches = typed_index < expected.len() && expected[typed_index] == ch;
        if !matches {
            self.statistics.errors = self.statistics.errors + 1;
        }
        self.current_word.push(ch);
        proof {
            assert(self.state() =~= after_char(old(self).state(), ch));
        }
    }

    fn process_space(&mut self) -> (submitted: bool)
        requires
            old(self).wf(),
            !finished(old(self).state()),
            counters_fit(after_space(old(self).state())),
        ensures
            final(self).state() == after_space(old(self).state()),
            submitted == (old(self).state().current.len() > 0),
    {
        if self.current_word.len() == 0 {
            return false;
        }
        let ghost s = self.state();
        let n = self.completed_words.len();
        if n < self.target_words.len() && same_word(&self.current_word, &self.target_words[n]) {
            proof {
                assert(expected_word(s) == Some(s.current));
            }
            self.statistics.words = self.statistics.words + 1;
            self.statistics.chars = self.statistics.chars + self.current_word.len();
        } else {
            proof {
                if expected_word(s) == Some(s.current) {
                    assert(s.target[n as int] == self.target_words@[n as int]@);
                }
            }
        }
        let mut word: Vec<char> = Vec::new();
        std::mem::swap(&mut word, &mut self.current_word);
        let ghost typed = word@;
        self.completed_words.push(word);
        proof {
            assert(word_seqs(self.completed_words@) =~= s.completed.push(typed));
            assert(self.state() =~= after_space(s));
        }
        true
    }

    fn process_backspace(&mut self)
        requires
            old(self).wf(),
            !finished(old(self).state()),
        ensures
            final(self).state() == after_backspace(old(self).state()),
    {
        let ghost s = self.state();
        if self.current_word.len() > 0 {
            self.current_word.pop();
            proof {
                assert(self.state() =~= after_backspace(s));
            }
            return;
        }
        let n = self.completed_words.len();
        if n == 0 {
            return;
        }
        let last_index = n - 1;
        if last_index < self.target_words.len() && same_word(
            &self.completed_words[last_index],
            &self.target_words[last_index],
        ) {
            return;
        }
        match self.completed_words.pop() {
            Some(word) => {
                self.current_word = word;
            },
            None => {},
        }
        proof {
            assert(word_seqs(self.completed_words@) =~= s.completed.drop_last());
            assert(self.state() =~= after_backspace(s));
        }
    }

    /// Feeds one key press to the game: a character, the space (which submits
    /// the word) or backspace; other keys, and every key once the game is
    /// finished, do nothing. Returns whether a word was submitted.
    pub fn handle_key_event(&mut self, key: Key) -> (submitted: bool)
        requires
            old(self).wf(),
            counters_fit(step(old(self).state(), key)),
        ensures
            final(self).wf(),
            final(self).state() == step(old(self).state(), key),
            final(self).state().target == old(self).state().target,
            final(self).state().completed.len() <= final(self).state().target.len(),
            submitted == submits(old(self).state(), key),
    {
        proof {
            lemma_step_tallies(self.state(), key);
        }
        if self.is_finished() {
            return false;
        }
        match key {
            Key::Char(c) => {
                if c == ' ' {
                    self.process_space()
                } else {
                    self.process_char(c);
                    false
                }
            },
            Key::Backspace => {
                self.process_backspace();
                false
            },
            _ => false,
        }
    }

    /// The counters.
    pub fn statistics(&self) -> (stats: &GameStatistics)
        ensures
            stats.error_count() == self.state().errors,
            stats.word_count() == self.state().words,
            stats.char_count() == self.state().chars,
    {
        &self.statistics
    }

    /// The words to type.
    pub fn target_words(&self) -> (words: &Vec<Vec<char>>)
        ensures
            word_seqs(words@) == self.state().target,
    {
        &self.target_words
    }

    /// The words submitted so far.
    pub fn completed_words(&self) -> (words: &Vec<Vec<char>>)
        ensures
            word_seqs(words@) == self.state().completed,
    {
        &self.completed_words
    }

    /// The word being typed.
    pub fn current_word(&self) -> (word: &Vec<char>)
        ensures
            word@ == self.state().current,
    {
        &self.current_word
    }
}


/// What the player typed for word `i`: the submitted word, or the word being
/// typed for the word at the cursor.
pub open spec fn typed_at(s: TypingState, i: int) -> Seq<char> {
    if i < s.completed.len() {
        s.completed[i]
    } else {
        s.current
    }
}

/// The number of cells word `i` takes on screen, the cursor included.
pub open spec fn drawn_width(s: TypingState, i: int) -> nat {
    max_len(s.target[i], typed_at(s, i)) + if i == s.completed.len() {
        1nat
    } else {
        0nat
    }
}

/// The words up to and including the one being typed (all of them once the
/// game is finished): those whose width decides the scrolling.
pub open spec fn reached_words(s: TypingState) -> nat {
    if s.completed.len() < s.target.len() {
        s.completed.len() + 1
    } else {
        s.target.len()
    }
}

/// The line and the width on that line after laying out words `0 .. k`
/// greedily into lines of `body_width` cells, each word followed by a space.
pub open spec fn laid_out(s: TypingState, body_width: nat, k: nat) -> (nat, nat)
    decreases k,
{
    if k == 0 {
        (0, 0)
    } else {
        let prev = laid_out(s, body_width, (k - 1) as nat);
        let w = drawn_width(s, k - 1);
        if prev.1 + w > body_width {
            (prev.0 + 1, w + 1)
        } else {
            (prev.0, prev.1 + w + 1)
        }
    }
}

/// The number of lines scrolled away so that the line with the cursor is the
/// second line shown (or the first, while it is the first line).
pub open spec fn scroll_lines(s: TypingState, body_width: nat) -> nat {
    let line = laid_out(s, body_width, reached_words(s)).0;
    if line > 0 {
        (line - 1) as nat
    } else {
        0
    }
}

/// The cells that words `0 .. k` take, a space after each.
pub open spec fn layout_span(s: TypingState, k: nat) -> nat
    decreases k,
{
    if k == 0 {
        0
    } else {
        layout_span(s, (k - 1) as nat) + drawn_width(s, k - 1) + 1
    }
}

/// The width of a reached word is the number of glyphs it is drawn with.
pub proof fn lemma_drawn_width(s: TypingState, i: int)
    requires
        0 <= i < reached_words(s),
    ensures
        drawn_width(s, i) == word_glyphs(s.target[i], Some(typed_at(s, i)), i == s.completed.len()).len(),
{
    let t = s.target[i];
    let u = typed_at(s, i);
    lemma_typed_glyphs_len(t, u, i == s.completed.len(), max_len(t, u) + 1);
}

/// The greedy layout, stated word by word: no words take no line and no
/// width; then each word goes on the current line, followed by one space,
/// exactly when it fits there (the width used so far plus the word is at most
/// `body_width`), and otherwise starts the next line, which then holds the
/// word and one space.
pub proof fn lemma_layout_places_words(s: TypingState, body_width: nat, k: nat)
    ensures
        laid_out(s, body_width, 0) == (0nat, 0nat),
        ({
            let (line, used) = laid_out(s, body_width, k);
            let (next_line, next_used) = laid_out(s, body_width, k + 1);
            let w = drawn_width(s, k as int);
            &&& used + w <= body_width ==> next_line == line && next_used == used + w + 1
            &&& used + w > body_width ==> next_line == line + 1 && next_used == w + 1
            &&& next_used <= body_width + 1 || next_used == w + 1
        }),
{
    assert(((k + 1) as nat - 1) as nat == k);
}

/// The words laid out are those submitted and the one being typed, if any.
pub proof fn lemma_reached_words(s: TypingState)
    requires
        consistent(s),
    ensures
        s.completed.len() < s.target.len() ==> reached_words(s) == s.completed.len() + 1,
        s.completed.len() == s.target.len() ==> reached_words(s) == s.completed.len(),
{
}

/// The line of the cursor word is the number of line breaks before it, and
/// the area is scrolled by one line less (by none while it is the first line).
pub proof fn lemma_scroll_is_cursor_line_less_one(s: TypingState, body_width: nat)
    ensures
        laid_out(s, body_width, reached_words(s)).0 == 0 ==> scroll_lines(s, body_width) == 0,
        laid_out(s, body_width, reached_words(s)).0 > 0 ==> scroll_lines(s, body_width) + 1
            == laid_out(s, body_width, reached_words(s)).0,
        laid_out(s, body_width, reached_words(s)).0 <= reached_words(s),
{
    lemma_laid_out_bounds(s, body_width, reached_words(s));
}

proof fn lemma_layout_span_mono(s: TypingState, j: nat, k: nat)
    requires
        j <= k,
    ensures
        layout_span(s, j) <= layout_span(s, k),
    decreases k,
{
    if j < k {
        lemma_layout_span_mono(s, j, (k - 1) as nat);
    }
}

proof fn lemma_laid_out_bounds(s: TypingState, body_width: nat, k: nat)
    ensures
        laid_out(s, body_width, k).1 <= layout_span(s, k),
        laid_out(s, body_width, k).0 <= k,
    decreases k,
{
    if k > 0 {
        lemma_laid_out_bounds(s, body_width, (k - 1) as nat);
    }
}

impl Game {
    /// How many lines the word area is scrolled so that the line holding the
    /// cursor is the second one shown, for a word area `body_width` cells wide.
    /// `None` when the words up to the cursor take more cells than a `usize`
    /// counts.
    pub fn scroll_offset(&self, body_width: usize) -> (offset: Option<usize>)
        requires
            self.wf(),
        ensures
            offset == if layout_span(self.state(), reached_words(self.state())) <= usize::MAX {
                Some(scroll_lines(self.state(), body_width as nat) as usize)
            } else {
                None
            },
    {
        let ghost s = self.state();
        let n = self.completed_words.len();
        let reached = if n < self.target_words.len() {
            n + 1
        } else {
            self.target_words.len()
        };
        let mut span: usize = 0;
        let mut k: usize = 0;
        while k < reached
            invariant
                s == self.state(),
                self.wf(),
                n == s.completed.len(),
                reached == reached_words(s),
                reached <= s.target.len(),
                k <= reached,
                span == layout_span(s, k as nat),
            decreases reached - k,
        {
            let w = self.width_parts(k);
            let cells = match w.0.checked_add(w.1) {
                Some(x) => x,
                None => {
                    proof {
                        lemma_layout_span_mono(s, (k + 1) as nat, reached as nat);
                    }
                    return None;
                },
            };
            span = match span.checked_add(cells) {
                Some(x) => x,
                None => {
                    proof {
                        lemma_layout_span_mono(s, (k + 1) as nat, reached as nat);
                    }
                    return None;
                },
            };
            k = k + 1;
        }
        let mut line: usize = 0;
        let mut width: usize = 0;
        let mut k: usize = 0;
        while k < reached
            invariant
                s == self.state(),
                self.wf(),
                n == s.completed.len(),
                reached == reached_words(s),
                reached <= s.target.len(),
                k <= reached,
                span == layout_span(s, reached as nat),
                span <= usize::MAX,
                (line as nat, width as nat) == laid_out(s, body_width as nat, k as nat),
            decreases reached - k,
        {
            proof {
                lemma_laid_out_bounds(s, body_width as nat, k as nat);
                lemma_layout_span_mono(s, (k + 1) as nat, reached as nat);
            }
            let w = self.width_parts(k);
            let word_width = w.0 + w.1 - 1;
            if width + word_width > body_width {
                line = line + 1;
                width = 0;
            }
            width = width + word_width + 1;
            k = k + 1;
        }
        Some(if line > 0 {
            line - 1
        } else {
            0
        })
    }

    /// How target word `i` is drawn: beside the submitted word, beside the word
    /// being typed (with the cursor), or untyped.
    pub fn glyphs_for(&self, i: usize) -> (glyphs: Vec<Glyph<char>>)
        requires
            i < self.state().target.len(),
        ensures
            glyphs@ == word_glyphs(
                self.state().target[i as int],
                if i < self.state().completed.len() {
                    Some(self.state().completed[i as int])
                } else if i == self.state().completed.len() {
                    Some(self.state().current)
                } else {
                    None
                },
                i == self.state().completed.len(),
            ),
    {
        let n = self.completed_words.len();
        let typed = if i < n {
            Some(&self.completed_words[i])
        } else if i == n {
            Some(&self.current_word)
        } else {
            None
        };
        render_word(&self.target_words[i], typed, i == n)
    }

    /// The width of word `k` plus one, as two summands that each fit: the
    /// longer of the target and the typed word, and 2 for the word at the
    /// cursor (whose glyphs include the cursor) or 1 for any other.
    fn width_parts(&self, k: usize) -> (parts: (usize, usize))
        requires
            self.wf(),
            k < reached_words(self.state()),
        ensures
            parts.0 + parts.1 == drawn_width(self.state(), k as int) + 1,
    {
        let n = self.completed_words.len();
        let t = self.target_words[k].len();
        let u = if k < n {
            self.completed_words[k].len()
        } else {
            self.current_word.len()
        };
        let longest = if t >= u {
            t
        } else {
            u
        };
        let extra: usize = if k == n {
            2
        } else {
            1
        };
        (longest, extra)
    }
}

} // verus!
