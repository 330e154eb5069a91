# lajjzy

A keyboard-driven, lazygit-style terminal UI for [Jujutsu (jj)](https://github.com/jj-vcs/jj),
with its logic written in Verus and proved against its contracts.

## Layout

- `src/` — the verified library.
  - `types`, `cli`, `forge`, `backend`: the repository model, the parsers for
    `jj` output and the arguments of every `jj` command, pull request data.
  - `action`, `app`, `modal`, `effect`, `dispatch`: the application state and
    the state machine that turns an action into a new state and the effects
    to run; `effect::perform_effect` runs an effect against any repository
    backend.
  - `input`, `mouse`, `session`: key and mouse bindings and the event loop's
    decisions.
  - `omnibar`, `fuzzy`, `editor`: revset completion, fuzzy change search
    (scored by `nucleo-matcher`), the editor command line.
  - `layout`, `panels`, `widgets`: what each part of the screen shows, as
    rows of styled text (the split of the screen is ratatui's solver).
  - `laws`: properties that span several calls (the cursor never rests on a
    connector line, graph generations never go back, toggles undo
    themselves, cursors stay in range, ...), each a proof function.
  - `text`: string helpers and the few standard library calls the proofs
    rely on.
- `app/` — the program: terminal, `jj` and `gh` processes, threads, drawing.
- `tests/` — tests of the library.
