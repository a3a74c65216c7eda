use vstd::prelude::*;

verus! {

/// `s` cut at every space, as `str::split(' ')` cuts it: the pieces between
/// spaces, empty ones included, so a text with `k` spaces gives `k + 1` pieces.
pub open spec fn split_on_space(s: Seq<char>) -> Seq<Seq<char>>
    decreases s.len(),
{
    if s.len() == 0 {
        seq![Seq::empty()]
    } else {
        let prev = split_on_space(s.drop_last());
        if s.last() == ' ' {
            prev.push(Seq::empty())
        } else {
            prev.update(prev.len() - 1, prev.last().push(s.last()))
        }
    }
}

pub proof fn lemma_split_nonempty(s: Seq<char>)
    ensures
        split_on_space(s).len() >= 1,
    decreases s.len(),
{
    if s.len() > 0 {
        lemma_split_nonempty(s.drop_last());
    }
}

/// The number of spaces in `s`.
pub open spec fn space_count(s: Seq<char>) -> nat
    decreases s.len(),
{
    if s.len() == 0 {
        0
    } else {
        space_count(s.drop_last()) + if s.last() == ' ' {
            1nat
        } else {
            0nat
        }
    }
}

/// A text with `k` spaces splits into `k + 1` words, none holding a space.
pub proof fn lemma_split_shape(s: Seq<char>)
    ensures
        split_on_space(s).len() == space_count(s) + 1,
        forall|i: int, j: int|
            0 <= i < split_on_space(s).len() && 0 <= j < split_on_space(s)[i].len()
                ==> #[trigger] split_on_space(s)[i][j] != ' ',
    decreases s.len(),
{
    if s.len() > 0 {
        lemma_split_shape(s.drop_last());
        let prev = split_on_space(s.drop_last());
        if s.last() != ' ' {
            let next = split_on_space(s);
            assert forall|i: int, j: int| 0 <= i < next.len() && 0 <= j < next[i].len() implies #[trigger] next[i][j]
                != ' ' by {
                if i == prev.len() - 1 {
                    if j < prev.last().len() {
                        assert(next[i][j] == prev[i][j]);
                    }
                } else {
                    assert(next[i] == prev[i]);
                }
            }
        } else {
            let next = split_on_space(s);
            assert forall|i: int, j: int| 0 <= i < next.len() && 0 <= j < next[i].len() implies #[trigger] next[i][j]
                != ' ' by {
                assert(next[i] == prev[i]);
            }
        }
    }
}

/// Words put back together with one space between each two.
pub open spec fn join_with_spaces(words: Seq<Seq<char>>) -> Seq<char>
    decreases words.len(),
{
    if words.len() <= 1 {
        if words.len() == 1 {
            words[0]
        } else {
            Seq::empty()
        }
    } else {
        join_with_spaces(words.drop_last()).push(' ') + words.last()
    }
}

/// Splitting at spaces loses nothing: joining the words with single spaces
/// gives back the text.
pub proof fn lemma_split_join(s: Seq<char>)
    ensures
        join_with_spaces(split_on_space(s)) == s,
    decreases s.len(),
{
    if s.len() > 0 {
        let prev = split_on_space(s.drop_last());
        lemma_split_join(s.drop_last());
        lemma_split_nonempty(s.drop_last());
        let c = s.last();
        if c == ' ' {
            let next = prev.push(Seq::<char>::empty());
            assert(next.drop_last() =~= prev);
            assert(join_with_spaces(next) =~= s);
        } else {
            let next = prev.update(prev.len() - 1, prev.last().push(c));
            if prev.len() == 1 {
                assert(next[0] =~= s);
            } else {
                assert(next.drop_last() =~= prev.drop_last());
                assert(join_with_spaces(next) =~= join_with_spaces(prev).push(c));
            }
            assert(join_with_spaces(next) =~= s);
        }
    } else {
        assert(split_on_space(s)[0] =~= s);
    }
}

/// The characters of each word of a list.
pub open spec fn word_seqs(words: Seq<Vec<char>>) -> Seq<Seq<char>> {
    words.map_values(|w: Vec<char>| w@)
}

/// The words of `text`, split at each space.
pub fn split_words(text: &str) -> (words: Vec<Vec<char>>)
    ensures
        word_seqs(words@) == split_on_space(text@),
{
    let mut words: Vec<Vec<char>> = Vec::new();
    let mut word: Vec<char> = Vec::new();
    let ghost mut seen: Seq<char> = Seq::empty();
    assert(seen =~= text@.take(0));
    for c in it: text.chars()
        invariant
            it.seq() == text@,
            seen == text@.take(it.index() as int),
            word_seqs(words@).push(word@) == split_on_space(seen),
    {
        proof {
            lemma_split_nonempty(seen);
        }
        let ghost before = seen;
        proof {
            seen = seen.push(c);
            assert(seen.drop_last() =~= before);
            assert(seen =~= text@.take(it.index() + 1));
        }
        if c == ' ' {
            let ghost old_words = word_seqs(words@);
            let mut finished: Vec<char> = Vec::new();
            std::mem::swap(&mut finished, &mut word);
            let ghost done = finished@;
            words.push(finished);
            assert(word_seqs(words@) =~= old_words.push(done));
            assert(word@ =~= Seq::<char>::empty());
            assert(word_seqs(words@).push(word@) =~= split_on_space(seen));
        } else {
            word.push(c);
            assert(word_seqs(words@).push(word@) =~= split_on_space(seen));
        }
    }
    assert(seen =~= text@);
    let ghost old_words = word_seqs(words@);
    let ghost last = word@;
    words.push(word);
    assert(word_seqs(words@) =~= old_words.push(last));
    words
}

/// Whether two words hold the same characters.
pub fn same_word(a: &Vec<char>, b: &Vec<char>) -> (same: bool)
    ensures
        same == (a@ == b@),
{
    if a.len() != b.len() {
        return false;
    }
    let n = a.len();
    for i in 0..n
        invariant
            n == a@.len(),
            n == b@.len(),
            forall|j: int| 0 <= j < i ==> a@[j] == b@[j],
    {
        if a[i] != b[i] {
            return false;
        }
    }
    assert(a@ =~= b@);
    true
}

} // verus!
