use vstd::prelude::*;

use crate::checkboxgroup::CheckboxGroup;
use crate::game::{fresh, step, submits, Game, TEXT};
use crate::keys::Key;
use crate::radiogroup::RadioGroup;
use crate::words::split_on_space;

verus! {

/// The part of the screen that receives keys.
#[derive(Clone, Copy, Debug, PartialEq, Eq, Structural)]
pub enum Focus {
    /// The typing area.
    Main,
    /// The extras (punctuation, numbers) check boxes.
    Extra,
    /// The mode (time, words) options.
    Mode,
    /// The value (15, 30, 45, 60) options.
    Value,
}

/// The focus that Tab moves to.
pub open spec fn focus_after(f: Focus) -> Focus {
    match f {
        Focus::Main => Focus::Extra,
        Focus::Extra => Focus::Mode,
        Focus::Mode => Focus::Value,
        Focus::Value => Focus::Main,
    }
}

/// The focus that Shift-Tab moves to.
pub open spec fn focus_before(f: Focus) -> Focus {
    match f {
        Focus::Main => Focus::Value,
        Focus::Extra => Focus::Main,
        Focus::Mode => Focus::Extra,
        Focus::Value => Focus::Mode,
    }
}

impl Focus {
    /// The next part of the screen, in the order main, extras, mode, value.
    pub fn next(self) -> (f: Self)
        ensures
            f == focus_after(self),
    {
        match self {
            Focus::Main => Focus::Extra,
            Focus::Extra => Focus::Mode,
            Focus::Mode => Focus::Value,
            Focus::Value => Focus::Main,
        }
    }

    /// The previous part of the screen.
    pub fn prev(self) -> (f: Self)
        ensures
            f == focus_before(self),
    {
        match self {
            Focus::Main => Focus::Value,
            Focus::Extra => Focus::Main,
            Focus::Mode => Focus::Extra,
            Focus::Value => Focus::Mode,
        }
    }
}

/// Tab and Shift-Tab undo each other, and four Tabs come back around.
pub proof fn lemma_focus_cycle(f: Focus)
    ensures
        focus_before(focus_after(f)) == f,
        focus_after(focus_before(f)) == f,
        focus_after(focus_after(focus_after(focus_after(f)))) == f,
{
}

/// Whether a test is running.
#[derive(Clone, Copy, Debug, PartialEq, Eq, Structural)]
pub enum State {
    Idle,
    Game,
}

/// What the front end has to do after a key press, beyond drawing the new
/// state: restart the clock of the test, and recompute the typing rates.
#[derive(Clone, Copy, Debug, PartialEq, Eq, Structural)]
pub struct Outcome {
    pub restart_timer: bool,
    pub word_submitted: bool,
}

/// The key bindings that hold whatever has the focus.
#[derive(Clone, Copy, Debug, PartialEq, Eq, Structural)]
pub enum Command {
    FocusNext,
    FocusPrev,
    Exit,
    StopGame,
    FocusMain,
}

/// The binding that `key` triggers in `state` with `focus`, if any: Tab and
/// Shift-Tab cycle the focus while idle; Esc quits from the idle typing area,
/// stops a running test, and otherwise brings the focus back to the typing
/// area while idle.
pub open spec fn command_for(key: Key, state: State, focus: Focus) -> Option<Command> {
    match (key, state, focus) {
        (Key::Tab, State::Idle, _) => Some(Command::FocusNext),
        (Key::BackTab, State::Idle, _) => Some(Command::FocusPrev),
        (Key::Esc, State::Idle, Focus::Main) => Some(Command::Exit),
        (Key::Esc, State::Game, Focus::Main) => Some(Command::StopGame),
        (Key::Esc, State::Idle, _) => Some(Command::FocusMain),
        _ => None,
    }
}

/// Which set of key hints the footer shows.
#[derive(Clone, Copy, Debug, PartialEq, Eq, Structural)]
pub enum Hints {
    /// Navigate, exit, start typing.
    Idle,
    /// Stop the test.
    Playing,
    /// Navigate, select, check or uncheck, discard.
    Checkboxes,
    /// Navigate, select, confirm, discard.
    Options,
}

/// The typing-test application: its settings widgets, its game, and where the
/// keys go.
#[derive(Debug)]
pub struct App {
    is_running: bool,
    focus: Focus,
    state: State,
    extra_box: CheckboxGroup,
    mode_box: RadioGroup,
    value_box: RadioGroup,
    game: Game,
}

impl App {
    pub closed spec fn spec_running(self) -> bool {
        self.is_running
    }

    pub closed spec fn spec_focus(self) -> Focus {
        self.focus
    }

    pub closed spec fn spec_state(self) -> State {
        self.state
    }

    pub closed spec fn spec_extra_box(self) -> CheckboxGroup {
        self.extra_box
    }

    pub closed spec fn spec_mode_box(self) -> RadioGroup {
        self.mode_box
    }

    pub closed spec fn spec_value_box(self) -> RadioGroup {
        self.value_box
    }

    pub closed spec fn spec_game(self) -> Game {
        self.game
    }

    /// The widgets and the game are well formed, each widget has options (no
    /// more than an `i32` counts), and a running test has the focus.
    pub open spec fn wf(self) -> bool {
        &&& self.spec_extra_box().wf()
        &&& self.spec_mode_box().wf()
        &&& self.spec_value_box().wf()
        &&& self.spec_game().wf()
        &&& 0 < self.spec_extra_box().items().len() <= i32::MAX
        &&& 0 < self.spec_mode_box().items().len() <= i32::MAX
        &&& 0 < self.spec_value_box().items().len() <= i32::MAX
        &&& self.spec_state() == State::Game ==> self.spec_focus() == Focus::Main
    }

    /// Whether `key` reaches the game (rather than a binding or a widget).
    pub open spec fn routes_to_game(self, key: Key) -> bool {
        command_for(key, self.spec_state(), self.spec_focus()) is None && self.spec_focus()
            == Focus::Main
    }

    /// `next` is `self` with the focus on `f` and every widget's cursor
    /// discarded.
    pub open spec fn refocused(self, next: Self, f: Focus) -> bool {
        &&& next.spec_focus() == f
        &&& self.spec_extra_box().discarded(next.spec_extra_box())
        &&& self.spec_mode_box().discarded(next.spec_mode_box())
        &&& self.spec_value_box().discarded(next.spec_value_box())
        &&& next.spec_running() == self.spec_running()
        &&& next.spec_state() == self.spec_state()
        &&& next.spec_game() == self.spec_game()
    }

    /// `next` differs from `self` at most in the widgets and the game named.
    pub open spec fn keeps_rest(self, next: Self, extra: bool, mode: bool, value: bool) -> bool {
        &&& next.spec_running() == self.spec_running()
        &&& next.spec_focus() == self.spec_focus()
        &&& (!extra ==> next.spec_extra_box() == self.spec_extra_box())
        &&& (!mode ==> next.spec_mode_box() == self.spec_mode_box())
        &&& (!value ==> next.spec_value_box() == self.spec_value_box())
    }

    /// `next` is `self` with the main loop told to stop.
    pub open spec fn halted(self, next: Self) -> bool {
        &&& !next.spec_running()
        &&& next.spec_focus() == self.spec_focus()
        &&& next.spec_state() == self.spec_state()
        &&& next.spec_extra_box() == self.spec_extra_box()
        &&& next.spec_mode_box() == self.spec_mode_box()
        &&& next.spec_value_box() == self.spec_value_box()
        &&& next.spec_game() == self.spec_game()
    }

    /// `next` and `outcome` are what a key press makes of `self`: first the
    /// bindings (see `command_for`), else the key goes to the focused widget,
    /// or to the game; a key in the idle typing area starts a test with it.
    pub open spec fn reacts(self, next: Self, key: Key, outcome: Outcome) -> bool {
        match command_for(key, self.spec_state(), self.spec_focus()) {
            Some(Command::FocusNext) => self.refocused(next, focus_after(self.spec_focus()))
                && outcome == Outcome { restart_timer: false, word_submitted: false },
            Some(Command::FocusPrev) => self.refocused(next, focus_before(self.spec_focus()))
                && outcome == Outcome { restart_timer: false, word_submitted: false },
            Some(Command::FocusMain) => self.refocused(next, Focus::Main) && outcome == Outcome {
                restart_timer: false,
                word_submitted: false,
            },
            Some(Command::Exit) => {
                &&& self.halted(next)
                &&& outcome == Outcome { restart_timer: false, word_submitted: false }
            },
            Some(Command::StopGame) => {
                &&& self.keeps_rest(next, false, false, false)
                &&& next.spec_state() == State::Idle
                &&& next.spec_game().state() == fresh(
                    split_on_space(TEXT@),
                    self.spec_game().state().errors,
                    self.spec_game().state().words,
                    self.spec_game().state().chars,
                )
                &&& outcome == Outcome { restart_timer: true, word_submitted: false }
            },
            None => match self.spec_focus() {
                Focus::Extra => {
                    &&& self.keeps_rest(next, true, false, false)
                    &&& self.spec_extra_box().reacts(next.spec_extra_box(), key)
                    &&& next.spec_state() == self.spec_state()
                    &&& next.spec_game() == self.spec_game()
                    &&& outcome == Outcome { restart_timer: false, word_submitted: false }
                },
                Focus::Mode => {
                    &&& self.keeps_rest(next, false, true, false)
                    &&& self.spec_mode_box().reacts(next.spec_mode_box(), key)
                    &&& next.spec_state() == self.spec_state()
                    &&& next.spec_game() == self.spec_game()
                    &&& outcome == Outcome { restart_timer: false, word_submitted: false }
                },
                Focus::Value => {
                    &&& self.keeps_rest(next, false, false, true)
                    &&& self.spec_value_box().reacts(next.spec_value_box(), key)
                    &&& next.spec_state() == self.spec_state()
                    &&& next.spec_game() == self.spec_game()
                    &&& outcome == Outcome { restart_timer: false, word_submitted: false }
                },
                Focus::Main => {
                    &&& self.keeps_rest(next, false, false, false)
                    &&& next.spec_state() == State::Game
                    &&& next.spec_game().state() == step(self.spec_game().state(), key)
                    &&& outcome == Outcome {
                        restart_timer: self.spec_state() == State::Idle,
                        word_submitted: submits(self.spec_game().state(), key),
                    }
                },
            },
        }
    }

    /// Handles a key press: the global bindings first (Tab and Shift-Tab
    /// cycle the focus, Esc quits, stops the test or returns to the typing
    /// area), else the focused widget or the game gets the key.
    pub fn handle_key_event(&mut self, key: Key) -> (outcome: Outcome)
        requires
            old(self).wf(),
            old(self).routes_to_game(key) ==> crate::game::counters_fit(
                step(old(self).spec_game().state(), key),
            ),
        ensures
            final(self).wf(),
            old(self).reacts(*final(self), key, outcome),
    {
        let quiet = Outcome { restart_timer: false, word_submitted: false };
        proof {
            self.extra_box.lemma_cursor_in_range();
            self.mode_box.lemma_cursor_in_range();
            self.value_box.lemma_cursor_in_range();
        }
        match (key, self.state, self.focus) {
            (Key::Tab, State::Idle, _) => {
                let f = self.focus.next();
                self.set_focus(f);
                return quiet;
            },
            (Key::BackTab, State::Idle, _) => {
                let f = self.focus.prev();
                self.set_focus(f);
                return quiet;
            },
            (Key::Esc, State::Idle, Focus::Main) => {
                self.exit();
                return quiet;
            },
            (Key::Esc, State::Game, Focus::Main) => {
                self.state = State::Idle;
                self.game.reset();
                return Outcome { restart_timer: true, word_submitted: false };
            },
            (Key::Esc, State::Idle, _) => {
                self.set_focus(Focus::Main);
                return quiet;
            },
            _ => {},
        }
        match self.focus {
            Focus::Extra => {
                self.extra_box.handle_key_event(key);
                quiet
            },
            Focus::Mode => {
                self.mode_box.handle_key_event(key);
                quiet
            },
            Focus::Value => {
                self.value_box.handle_key_event(key);
                quiet
            },
            Focus::Main => {
                let starting = self.state == State::Idle;
                if starting {
                    self.state = State::Game;
                }
                let submitted = self.game.handle_key_event(key);
                Outcome { restart_timer: starting, word_submitted: submitted }
            },
        }
    }

    fn set_focus(&mut self, focus: Focus)
        requires
            old(self).wf(),
            old(self).spec_state() == State::Idle,
        ensures
            final(self).wf(),
            old(self).refocused(*final(self), focus),
    {
        self.extra_box.discard();
        self.mode_box.discard();
        self.value_box.discard();
        self.focus = focus;
    }

    /// Stops the main loop.
    pub fn exit(&mut self)
        ensures
            old(self).halted(*final(self)),
    {
        self.is_running = false;
    }

    /// Whether the main loop goes on.
    pub fn is_running(&self) -> (running: bool)
        ensures
            running == self.spec_running(),
    {
        self.is_running
    }

    /// The part of the screen that has the focus.
    pub fn focus(&self) -> (focus: Focus)
        ensures
            focus == self.spec_focus(),
    {
        self.focus
    }

    /// Whether a test is running.
    pub fn state(&self) -> (state: State)
        ensures
            state == self.spec_state(),
    {
        self.state
    }

    pub fn extra_box(&self) -> (b: &CheckboxGroup)
        ensures
            *b == self.spec_extra_box(),
    {
        &self.extra_box
    }

    pub fn mode_box(&self) -> (b: &RadioGroup)
        ensures
            *b == self.spec_mode_box(),
    {
        &self.mode_box
    }

    pub fn value_box(&self) -> (b: &RadioGroup)
        ensures
            *b == self.spec_value_box(),
    {
        &self.value_box
    }

    pub fn game(&self) -> (g: &Game)
        ensures
            *g == self.spec_game(),
    {
        &self.game
    }

    /// The key hints for the footer: those of the typing area (idle or
    /// running), of the check boxes, or of the option rows.
    pub fn hints(&self) -> (hints: Hints)
        ensures
            hints == (match self.spec_focus() {
                Focus::Main => if self.spec_state() == State::Idle {
                    Hints::Idle
                } else {
                    Hints::Playing
                },
                Focus::Extra => Hints::Checkboxes,
                Focus::Mode | Focus::Value => Hints::Options,
            }),
    {
        match self.focus {
            Focus::Main => if self.state == State::Idle {
                Hints::Idle
            } else {
                Hints::Playing
            },
            Focus::Extra => Hints::Checkboxes,
            Focus::Mode | Focus::Value => Hints::Options,
        }
    }
}

/// While idle, Shift-Tab after Tab brings the focus back where it was,
/// without touching the game or the settings (only the widgets' cursors are
/// brought back to rest).
pub proof fn lemma_tab_then_back_tab(a: App, b: App, c: App, o1: Outcome, o2: Outcome)
    requires
        a.spec_state() == State::Idle,
        a.reacts(b, Key::Tab, o1),
        b.reacts(c, Key::BackTab, o2),
    ensures
        c.spec_focus() == a.spec_focus(),
        c.spec_state() == State::Idle,
        c.spec_game() == a.spec_game(),
        c.spec_running() == a.spec_running(),
        c.spec_extra_box().checked() == a.spec_extra_box().checked(),
        c.spec_mode_box().selection() == a.spec_mode_box().selection(),
        c.spec_value_box().selection() == a.spec_value_box().selection(),
{
    lemma_focus_cycle(a.spec_focus());
}

/// Esc during a test ends it: the application is idle again, the clock is
/// restarted, and the game starts over on the whole passage with its counters
/// kept; a second Esc then quits.
pub proof fn lemma_esc_stops_then_quits(a: App, b: App, c: App, o1: Outcome, o2: Outcome)
    requires
        a.wf(),
        a.spec_state() == State::Game,
        a.reacts(b, Key::Esc, o1),
        b.reacts(c, Key::Esc, o2),
    ensures
        b.spec_state() == State::Idle,
        b.spec_running() == a.spec_running(),
        o1.restart_timer,
        b.spec_game().state().completed.len() == 0,
        b.spec_game().state().current.len() == 0,
        !c.spec_running(),
{
}

/// A key in the idle typing area starts a test with that key: the clock is
/// restarted and the game takes the key.
pub proof fn lemma_first_key_starts(a: App, b: App, key: Key, o: Outcome)
    requires
        a.spec_state() == State::Idle,
        a.spec_focus() == Focus::Main,
        key != Key::Tab,
        key != Key::BackTab,
        key != Key::Esc,
        a.reacts(b, key, o),
    ensures
        b.spec_state() == State::Game,
        o.restart_timer,
        b.spec_game().state() == step(a.spec_game().state(), key),
{
}

/// A running test keeps the focus on the typing area: the focus moves only
/// while idle, and a test starts only from the typing area.
pub proof fn lemma_test_keeps_focus(a: App, b: App, key: Key, o: Outcome)
    requires
        a.spec_state() == State::Game ==> a.spec_focus() == Focus::Main,
        a.reacts(b, key, o),
    ensures
        b.spec_state() == State::Game ==> b.spec_focus() == Focus::Main,
{
}

/// The main loop's flag falls on Esc in the idle typing area and on no other
/// key, and nothing raises it again.
pub proof fn lemma_running_flag(a: App, b: App, key: Key, o: Outcome)
    requires
        a.reacts(b, key, o),
    ensures
        b.spec_running() == (a.spec_running() && !(key == Key::Esc && a.spec_state() == State::Idle
            && a.spec_focus() == Focus::Main)),
{
}

/// While idle, Esc on any widget row brings the focus back to the typing
/// area, putting every widget's cursor back to rest; the application keeps
/// running and stays idle, and the game is untouched.
pub proof fn lemma_esc_returns_to_typing_area(a: App, b: App, o: Outcome)
    requires
        a.spec_state() == State::Idle,
        a.spec_focus() != Focus::Main,
        a.reacts(b, Key::Esc, o),
    ensures
        b.spec_focus() == Focus::Main,
        b.spec_state() == State::Idle,
        b.spec_running() == a.spec_running(),
        b.spec_game() == a.spec_game(),
        b.spec_extra_box().cursor() == 0,
        b.spec_extra_box().checked() == a.spec_extra_box().checked(),
        b.spec_mode_box().cursor() == a.spec_mode_box().selection(),
        b.spec_value_box().cursor() == a.spec_value_box().selection(),
        !o.restart_timer && !o.word_submitted,
{
}

/// The focus order, key by key, while idle: Tab goes main, extras, mode,
/// value and around; Shift-Tab goes the other way. Neither starts a test,
/// touches the game or stops the application.
pub proof fn lemma_tab_order(a: App, b: App, key: Key, o: Outcome)
    requires
        a.spec_state() == State::Idle,
        key == Key::Tab || key == Key::BackTab,
        a.reacts(b, key, o),
    ensures
        key == Key::Tab ==> b.spec_focus() == (match a.spec_focus() {
            Focus::Main => Focus::Extra,
            Focus::Extra => Focus::Mode,
            Focus::Mode => Focus::Value,
            Focus::Value => Focus::Main,
        }),
        key == Key::BackTab ==> b.spec_focus() == (match a.spec_focus() {
            Focus::Main => Focus::Value,
            Focus::Extra => Focus::Main,
            Focus::Mode => Focus::Extra,
            Focus::Value => Focus::Mode,
        }),
        b.spec_state() == State::Idle,
        b.spec_running() == a.spec_running(),
        b.spec_game() == a.spec_game(),
        !o.restart_timer && !o.word_submitted,
{
}

/// During a test, every key but Esc goes to the game (Tab and Shift-Tab
/// included): the focus and the widgets stay, the game takes one step, and
/// the outcome reports a submission exactly when the game made one.
pub proof fn lemma_test_takes_keys(a: App, b: App, key: Key, o: Outcome)
    requires
        a.spec_state() == State::Game,
        a.spec_focus() == Focus::Main,
        key != Key::Esc,
        a.reacts(b, key, o),
    ensures
        b.spec_state() == State::Game,
        b.spec_focus() == Focus::Main,
        b.spec_running() == a.spec_running(),
        b.spec_extra_box() == a.spec_extra_box(),
        b.spec_mode_box() == a.spec_mode_box(),
        b.spec_value_box() == a.spec_value_box(),
        b.spec_game().state() == step(a.spec_game().state(), key),
        !o.restart_timer,
        o.word_submitted == submits(a.spec_game().state(), key),
{
}

/// Keys on a widget row while idle (other than Tab, Shift-Tab and Esc) go to
/// that widget alone.
pub proof fn lemma_widget_takes_keys(a: App, b: App, key: Key, o: Outcome)
    requires
        a.spec_state() == State::Idle,
        a.spec_focus() != Focus::Main,
        key != Key::Esc && key != Key::Tab && key != Key::BackTab,
        a.reacts(b, key, o),
    ensures
        b.spec_focus() == a.spec_focus(),
        b.spec_state() == State::Idle,
        b.spec_game() == a.spec_game(),
        b.spec_running() == a.spec_running(),
        a.spec_focus() == Focus::Extra ==> a.spec_extra_box().reacts(b.spec_extra_box(), key)
            && b.spec_mode_box() == a.spec_mode_box() && b.spec_value_box() == a.spec_value_box(),
        a.spec_focus() == Focus::Mode ==> a.spec_mode_box().reacts(b.spec_mode_box(), key)
            && b.spec_extra_box() == a.spec_extra_box() && b.spec_value_box() == a.spec_value_box(),
        a.spec_focus() == Focus::Value ==> a.spec_value_box().reacts(b.spec_value_box(), key)
            && b.spec_extra_box() == a.spec_extra_box() && b.spec_mode_box() == a.spec_mode_box(),
        !o.restart_timer && !o.word_submitted,
{
}

/// The views of a list of strings.
pub open spec fn views(items: Seq<String>) -> Seq<Seq<char>> {
    items.map_values(|s: String| s@)
}

impl Default for App {
    /// Running, idle, the focus on the typing area; extras "punctuation" and
    /// "numbers" unchecked, mode "time" or "words", value 15, 30, 45 or 60,
    /// the first of each selected; a fresh game.
    fn default() -> (app: Self)
        ensures
            app.wf(),
            app.spec_running(),
            app.spec_focus() == Focus::Main,
            app.spec_state() == State::Idle,
            views(app.spec_extra_box().items()) == seq!["punctuation"@, "numbers"@],
            app.spec_extra_box().checked() == seq![false, false],
            app.spec_extra_box().cursor() == 0,
            views(app.spec_mode_box().items()) == seq!["time"@, "words"@],
            app.spec_mode_box().selection() == 0,
            app.spec_mode_box().cursor() == 0,
            views(app.spec_value_box().items()) == seq!["15"@, "30"@, "45"@, "60"@],
            app.spec_value_box().selection() == 0,
            app.spec_value_box().cursor() == 0,
            app.spec_game().state() == fresh(split_on_space(TEXT@), 0, 0, 0),
    {
        let extras = vec!["punctuation".to_owned(), "numbers".to_owned()];
        let modes = vec!["time".to_owned(), "words".to_owned()];
        let values = vec!["15".to_owned(), "30".to_owned(), "45".to_owned(), "60".to_owned()];
        let app = App {
            is_running: true,
            focus: Focus::Main,
            state: State::Idle,
            extra_box: CheckboxGroup::new(extras),
            mode_box: RadioGroup::new(modes),
            value_box: RadioGroup::new(values),
            game: Game::new(),
        };
        proof {
            assert(views(app.spec_extra_box().items()) =~= seq!["punctuation"@, "numbers"@]);
            assert(app.spec_extra_box().checked() =~= seq![false, false]);
            assert(views(app.spec_mode_box().items()) =~= seq!["time"@, "words"@]);
            assert(views(app.spec_value_box().items()) =~= seq!["15"@, "30"@, "45"@, "60"@]);
        }
        app
    }
}

} // verus!
