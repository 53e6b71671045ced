# jeryu_tui

The pure core of the jeryu Flight Deck, an operator console for a CI fleet,
written in Verus: the functions of the library carry contracts that Verus
proves. The one public function without one, the agent terminal's `screen`,
hands out the `vt100` emulator's own screen, which the contracts see only
through the input it was fed.

## Layout

- `src/app.rs` — the tab strip (`ActiveTab`), the New Session launch record
  and the application state the router works on.
- `src/focus/` — panes, the focus state machine (breadcrumb, fullscreen,
  cycling within a tab) and the pane-title chrome.
- `src/runtime/` — keyboard routing (Flight Deck navigation, the attached
  agent terminal, session launches), the terminal pump that detects stream
  gaps, and the header texts.
- `src/lenses/` — one module per lens: the owned projections the views read
  (queue, runners, workflow, source doctor, bugs, approvals, evidence, git,
  secrets, LLMs, VTI, autonomy, Jankurai) and every text the views show.
  `lenses/agents/terminal.rs` holds the live agent terminal around the
  `vt100` emulator.
- `src/theme/` — badges, glyphs with their ASCII alternates and terminal
  capability levels.
- `src/tuiwright.rs`, `src/calendar.rs` — UX-QA receipts: the deterministic
  stamp (a day-to-date conversion proved to walk the Gregorian calendar) and
  the FNV-1a frame hash.
- `src/text.rs` — character-level helpers: case folding, clipping, padding,
  decimal and hexadecimal rendering, joining.
- `app/` — the terminal-facing shell: crossterm key decoding, environment
  reads, receipt files (serde), ratatui drawing of the lenses and the
  floating-point utilization figures.
- `tests/` — the behaviour of the library on concrete inputs.

## Laws

Besides the contracts of each function, the library proves laws that relate
several of them, as public proof functions: for instance
`runtime::input::lemma_enter_then_esc_restores_focus`,
`focus::state::lemma_focus_next_prev_inverse`,
`lenses::lemma_routes_are_unique` and
`calendar::lemma_days_walk_the_calendar`.
