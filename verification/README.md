# speed_typing

A terminal typing-speed test. The library under `src/` holds the logic of the
program, verified with Verus; `app/` is the terminal front end (event loop,
clock, typing rates, drawing with ratatui and crossterm).

- `keys`: the key presses the library understands.
- `select_group`: cursor movement and item looks shared by the option rows.
- `checkboxgroup`, `radiogroup`: the settings widgets.
- `words`: splitting the passage into words, comparing words.
- `game`: the typing game as a state machine (`step`), its counters and the
  scrolling of the word area; laws on what key presses do to the game.
- `glyphs`: how one word is drawn against what was typed for it.
- `application`: focus, key bindings and routing of keys to widgets and game.

The clock and the rates (words and characters per minute, accuracy) are
floating point and live in `app/`; the library reports when they must be
restarted or recomputed.
