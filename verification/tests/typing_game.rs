use speed_typing::game::{Game, TEXT};
use speed_typing::glyphs::{render_word, Glyph};
use speed_typing::keys::Key;
use speed_typing::words::{same_word, split_words};

fn chars(s: &str) -> Vec<char> {
    s.chars().collect()
}

fn word(v: &Vec<char>) -> String {
    v.iter().collect()
}

fn type_str(game: &mut Game, s: &str) -> Vec<bool> {
    s.chars().map(|c| game.handle_key_event(Key::Char(c))).collect()
}

#[test]
fn split_words_cuts_at_every_space() {
    let words = split_words("ab cd  e");
    assert_eq!(words, vec![chars("ab"), chars("cd"), chars(""), chars("e")]);
    assert_eq!(split_words(""), vec![chars("")]);
    assert_eq!(split_words("a "), vec![chars("a"), chars("")]);
}

#[test]
fn split_words_matches_str_split() {
    let ours: Vec<String> = split_words(TEXT).iter().map(word).collect();
    let std: Vec<String> = TEXT.split(' ').map(str::to_string).collect();
    assert_eq!(ours, std);
}

#[test]
fn same_word_compares_characters() {
    assert!(same_word(&chars("abc"), &chars("abc")));
    assert!(!same_word(&chars("abc"), &chars("abd")));
    assert!(!same_word(&chars("ab"), &chars("abc")));
    assert!(same_word(&chars(""), &chars("")));
}

#[test]
fn new_game_holds_the_passage() {
    let game = Game::new();
    assert_eq!(game.target_words().len(), 82);
    assert_eq!(word(&game.target_words()[0]), "Lorem");
    assert_eq!(word(&game.target_words()[81]), "posuere.");
    assert!(game.completed_words().is_empty());
    assert!(game.current_word().is_empty());
    assert!(!game.is_finished());
    assert_eq!(game.statistics().errors(), 0);
    assert_eq!(game.statistics().words(), 0);
    assert_eq!(game.statistics().chars(), 0);
}

#[test]
fn typing_the_expected_word_scores_it() {
    let mut game = Game::new();
    let submitted = type_str(&mut game, "Lorem ");
    assert_eq!(submitted, vec![false, false, false, false, false, true]);
    assert_eq!(game.statistics().errors(), 0);
    assert_eq!(game.statistics().words(), 1);
    assert_eq!(game.statistics().chars(), 5);
    assert_eq!(game.completed_words().len(), 1);
    assert!(game.current_word().is_empty());
}

#[test]
fn mistyped_characters_count_errors() {
    let mut game = Game::new();
    type_str(&mut game, "Lxrem!");
    assert_eq!(game.statistics().errors(), 2);
    assert_eq!(word(game.current_word()), "Lxrem!");
    type_str(&mut game, " ");
    assert_eq!(game.statistics().words(), 0);
    assert_eq!(game.statistics().chars(), 0);
    assert_eq!(game.completed_words().len(), 1);
}

#[test]
fn backspace_takes_back_a_character_but_not_its_error() {
    let mut game = Game::new();
    type_str(&mut game, "Lo");
    game.handle_key_event(Key::Char('x'));
    assert_eq!(game.statistics().errors(), 1);
    assert!(!game.handle_key_event(Key::Backspace));
    assert_eq!(word(game.current_word()), "Lo");
    assert_eq!(game.statistics().errors(), 1);
}

#[test]
fn space_on_empty_word_submits_nothing() {
    let mut game = Game::new();
    assert!(!game.handle_key_event(Key::Char(' ')));
    assert!(game.completed_words().is_empty());
}

#[test]
fn backspace_reopens_a_wrong_word_only() {
    let mut game = Game::new();
    type_str(&mut game, "Lorem ipsm ");
    assert_eq!(game.completed_words().len(), 2);
    game.handle_key_event(Key::Backspace);
    assert_eq!(game.completed_words().len(), 1);
    assert_eq!(word(game.current_word()), "ipsm");
    // Clear the reopened word; the correct "Lorem" stays submitted.
    for _ in 0..4 {
        game.handle_key_event(Key::Backspace);
    }
    assert!(game.current_word().is_empty());
    game.handle_key_event(Key::Backspace);
    assert_eq!(game.completed_words().len(), 1);
    assert!(game.current_word().is_empty());
    assert_eq!(game.statistics().words(), 1);
}

#[test]
fn backspace_with_nothing_typed_does_nothing() {
    let mut game = Game::new();
    game.handle_key_event(Key::Backspace);
    assert!(game.completed_words().is_empty());
    assert!(game.current_word().is_empty());
}

#[test]
fn other_keys_are_ignored() {
    let mut game = Game::new();
    for key in [Key::Enter, Key::Left, Key::Right, Key::Tab, Key::BackTab, Key::Esc, Key::Other] {
        assert!(!game.handle_key_event(key));
    }
    assert!(game.current_word().is_empty());
    assert_eq!(game.statistics().errors(), 0);
}

#[test]
fn typing_the_whole_passage_finishes_the_game() {
    let mut game = Game::new();
    type_str(&mut game, TEXT);
    type_str(&mut game, " ");
    assert!(game.is_finished());
    assert_eq!(game.statistics().words(), 82);
    assert_eq!(game.statistics().errors(), 0);
    let letters = TEXT.chars().filter(|c| *c != ' ').count();
    assert_eq!(game.statistics().chars(), letters);
    // A finished game ignores every key.
    assert!(!game.handle_key_event(Key::Char('x')));
    game.handle_key_event(Key::Backspace);
    assert!(game.current_word().is_empty());
    assert_eq!(game.completed_words().len(), 82);
    assert_eq!(game.statistics().errors(), 0);
}

#[test]
fn reset_starts_over_and_keeps_counters() {
    let mut game = Game::new();
    type_str(&mut game, "Lorem ipsun");
    game.reset();
    assert!(game.completed_words().is_empty());
    assert!(game.current_word().is_empty());
    assert_eq!(game.target_words().len(), 82);
    assert_eq!(game.statistics().words(), 1);
    assert_eq!(game.statistics().chars(), 5);
    assert_eq!(game.statistics().errors(), 1);
}

#[test]
fn render_untyped_word() {
    let glyphs = render_word(&chars("ab"), None, false);
    assert_eq!(glyphs, vec![Glyph::Pending('a'), Glyph::Pending('b')]);
}

#[test]
fn render_current_word_with_cursor() {
    let glyphs = render_word(&chars("abc"), Some(&chars("ax")), true);
    assert_eq!(
        glyphs,
        vec![
            Glyph::Correct('a', false),
            Glyph::Wrong('b', false),
            Glyph::Cursor,
            Glyph::Skipped('c', false),
        ]
    );
    let glyphs = render_word(&chars("ab"), Some(&chars("")), true);
    assert_eq!(
        glyphs,
        vec![Glyph::Cursor, Glyph::Skipped('a', false), Glyph::Skipped('b', false)]
    );
    let glyphs = render_word(&chars("ab"), Some(&chars("ab")), true);
    assert_eq!(
        glyphs,
        vec![Glyph::Correct('a', false), Glyph::Correct('b', false), Glyph::Cursor]
    );
}

#[test]
fn render_wrong_submitted_word_is_flagged() {
    let glyphs = render_word(&chars("ab"), Some(&chars("abcd")), false);
    assert_eq!(
        glyphs,
        vec![
            Glyph::Correct('a', true),
            Glyph::Correct('b', true),
            Glyph::Extra('c', true),
            Glyph::Extra('d', true),
        ]
    );
    let glyphs = render_word(&chars("ab"), Some(&chars("ab")), false);
    assert_eq!(glyphs, vec![Glyph::Correct('a', false), Glyph::Correct('b', false)]);
}

#[test]
fn scroll_offset_keeps_cursor_on_second_line() {
    let mut game = Game::new();
    assert_eq!(game.scroll_offset(20), Some(0));
    // "Lorem" (5) "ipsum" (5) "dolor" (5) "sit" (3), a space after each.
    type_str(&mut game, "Lorem ipsum dolor sit ");
    // Widths: 5,5,5,3 and the current word "amet," with the cursor: 6.
    // Width 12 per line: [Lorem ipsum ] [dolor sit ] [amet,|] -> line 2.
    assert_eq!(game.scroll_offset(12), Some(1));
    assert_eq!(game.scroll_offset(100), Some(0));
    // Width 5: every word on its own line: lines 0..4, cursor word on line 4.
    assert_eq!(game.scroll_offset(5), Some(3));
}

#[test]
fn scroll_offset_widths_match_rendered_words() {
    let mut game = Game::new();
    type_str(&mut game, "Lorxm ipsumxx do");
    let completed = game.completed_words().clone();
    let targets = game.target_words().clone();
    let mut widths = Vec::new();
    for i in 0..=completed.len() {
        let typed = if i < completed.len() { &completed[i] } else { game.current_word() };
        widths.push(render_word(&targets[i], Some(typed), i == completed.len()).len());
    }
    assert_eq!(widths, vec![5, 7, 6]);
    // 5+1+7+1 = 14 fits in 14; at 12 "ipsumxx" and then "do" each start a line.
    assert_eq!(game.scroll_offset(14), Some(0));
    assert_eq!(game.scroll_offset(12), Some(1));
}

#[test]
fn glyphs_for_each_word_of_the_game() {
    let mut game = Game::new();
    type_str(&mut game, "Lorxm i");
    assert_eq!(
        game.glyphs_for(0),
        vec![
            Glyph::Correct('L', true),
            Glyph::Correct('o', true),
            Glyph::Correct('r', true),
            Glyph::Wrong('e', true),
            Glyph::Correct('m', true),
        ]
    );
    assert_eq!(
        game.glyphs_for(1),
        vec![
            Glyph::Correct('i', false),
            Glyph::Cursor,
            Glyph::Skipped('p', false),
            Glyph::Skipped('s', false),
            Glyph::Skipped('u', false),
            Glyph::Skipped('m', false),
        ]
    );
    assert_eq!(
        game.glyphs_for(2),
        vec![
            Glyph::Pending('d'),
            Glyph::Pending('o'),
            Glyph::Pending('l'),
            Glyph::Pending('o'),
            Glyph::Pending('r'),
        ]
    );
}
