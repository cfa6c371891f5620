# phantom

A headless driver for terminal programs: it runs programs in pseudo-terminals,
sends them keys, text, pastes and mouse events, captures their screens, and
waits for conditions on what they show. Agents use it through a tool server,
scripts through a command-line tool, and Rust tests through a small library.

## Layout

- `src/` is the verified library. It holds the decisions: key specs and the
  bytes they send, shell escaping for viewer commands, color text, screen
  capture from plain cell values, wait conditions and their timing, the
  session table and the engine's answers, command-line flags, batch files,
  snapshot diffs, socket paths, the viewer's frames and the test runner's
  state. Contracts are stated over spec functions and proved by Verus;
  `pub proof fn law_*` items state properties that span several functions.
- `app/` is the program around it: the daemon and its engine loop, the
  pseudo-terminals and the terminal emulator, the command-line tool, the tool
  server, the PNG renderer and the live test monitor. It performs the I/O and
  hands the library plain values.
- `tests/` runs the library on concrete values.

The outside crates the library calls (`regex`, `nix`, `base64`) are reached
through small trusted wrappers whose contracts say what those crates do.
