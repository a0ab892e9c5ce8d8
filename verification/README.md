# ui_ratatui

The verified core of an arena-backed object explorer and its terminal
browser.

`src/` is written in Verus; every function carries a contract that Verus
proves.

- `explorer/` — the engine-side model: slot identities and revisions, the
  arena of owned roots and their lifecycle, borrow leases and the borrow
  graph, the export read barrier, cooperative end scans, breadcrumb queries,
  field bindings, builder and card snapshots, card windows, the topology of
  reflected values (which children a value lists, which child a path step
  selects), and the bounded breadcrumb-context collectors.
- `browser/` — the decisions of the terminal browser: breadcrumb bar focus,
  the breadcrumb, value, variant and link-action pickers, row search (with
  nucleo's fuzzy matcher behind one trusted call), the choices of nested
  pickers and the breadcrumbs they produce, key handling per mode, what
  activating a pool card or a bar position does, row focus, the browse
  window state and navigation anchoring, the small text editors, the tick
  and value-choice steps, and the
  layout of card windows (which cards fit, titles, tones, lines, scrolling).
- `text.rs` — character-level helpers and the few std text functions the
  library relies on.

Laws that relate several operations are stated as public proof functions
named `law_*` next to the operations they speak of.

`app/` is the Ratatui/crossterm front end: it converts key events, keeps the
Esc clock, draws the layouts `src/` computes, and runs a terminal session
over a card window that drives the library's key decisions. `tests/` exercises the
library with concrete values.
