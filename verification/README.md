# klava_core

The verified core of a push-to-talk dictation desktop app.

- `src/` — the library, verified with Verus:
  - `coordinator` — the transcription pipeline's state machine (debounce,
    push-to-talk and toggle modes, cancel, processing, forced reset) and the
    handle that sends commands to the coordinator thread;
  - `watchdog` — per-thread stall monitors and the hook-reinstall latch;
  - `shortcut` — routing of shortcut events;
  - `titlebar` — the frame palette in `COLORREF` form;
  - `migration` — the decisions of the one-time legacy data migration: the
    launch decision (skip, probe, record a fresh install, migrate, give up
    after three failed runs), retry budget, SQLite error classification,
    snapshot pacing, directory-linking rules and results, and the step
    machines for the history copy and the whole run;
  - `clock` — time differences that never underflow;
  - `text` — character-wise string comparison.
- `app/` — the threads, clock, file system, SQLite and logging around it.
- `tests/` — tests of the library.
