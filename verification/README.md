# nvim-gtk-shell

The shell of a GTK front end for Neovim, verified with Verus.

The shell is the part of the front end behind the drawing area: it reacts to the mouse, the keyboard
and the focus, to the redraw events of neovim, to changes of size, and to the start and the end of
neovim itself.

- `src/` is the library. It is a state machine: a handler takes plain values, changes the state, and
  returns a script of actions. Its contracts say exactly which state and which actions come out, and
  `src/laws.rs` proves what holds of the machine as a whole, such as that at most one resize waits,
  that neovim is started once, and that no mouse key is sent while neovim does not want any.
- `app/` connects the library to GTK and to neovim. It measures and draws (which takes floating point
  numbers), carries out the scripts, and runs the thread that starts neovim. What it needs of the
  other parts of the front end, it takes through the trait `Parts`.
- `tests/` runs the library.
