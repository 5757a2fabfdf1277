# VRChat X3D Start Fix

A small Windows tray utility that watches for VRChat and, while the game
starts, adds a short and controlled CPU disturbance that makes the
`Fatal Error in GC (SuspendThread Loop failed)` startup crash less likely.

The decisions of the program live in a library that is verified with Verus;
the program around it performs the Windows, file and thread work.

## Layout

- `src/` — the verified library:
  - `config` — presets, parameter validation, the persisted configuration and
    the rules for loading and recovering it;
  - `heuristic` — the verdict on a start attempt from periodic observations;
  - `supervisor` — configuration commands, attempt verdicts, and
    `supervisor::state`, the supervisor loop as a state machine with its
    invariant;
  - `monitor` — choosing the trigger and the VRChat process in a process table;
  - `disturbance` — worker plans, phase offsets and the session report;
  - `autostart` — per-user task names, identity checks, the task checks and the
    verdicts that turn repeated Task Scheduler reads into a state;
  - `tray` — icons, labels, menu commands, check marks and the autostart item;
  - `i18n`, `platform`, `text`, `lifecycle`, `logging`, `outside` — locale selection,
    window scans and window-text rules, text helpers, shared types, the log
    set-up error and declared outside types.
- `app/` — the program: Windows APIs, the tray icon, threads, logging and
  configuration file I/O, driving the library.
- `tests/` — scenario tests of the library.
