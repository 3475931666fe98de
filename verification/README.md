# Invisibly

An endpoint-integrity monitor for Windows: it snapshots the security-relevant
settings of a machine, compares them with a signed baseline, scores the drift,
keeps a hash-chained timeline of what happened, tracks a trust level, and
repairs what is safe to repair. Every decision is made by a library whose
functions carry Verus contracts and are proved against them.

## Layout

- `src/` — the verified library.
  - `probes`, `detect`, `behavior`, `order`, `state`: reading command output
    into a snapshot, and the drift between two snapshots.
  - `integrity`, `policy`: the integrity score and the context rules.
  - `trust`: the trust level, its deductions and tiered recovery.
  - `crypto`, `baseline`, `timeline`: key derivation, the signed and
    versioned baseline, the append-only hash chain.
  - `repair`, `autorepair`, `daemon`: which fix or alert each finding gets,
    on-demand repair runs, and the monitoring loop's decisions.
  - `server`: request parsing, routing and every reply of the local API.
  - `watcher`, `tray`, `license`, `config`: burst detection for the
    ransomware watch, the tray's display and menu, licensing, settings.
  - `text`, `clock`: string helpers and the trusted calls into std, `hex`,
    `ring` and `chrono`.
- `tests/` — tests of the library on concrete values.
- `app/` — the daemon around the library: commands, files, sockets, threads,
  the folder watcher, the Store license query and (on Windows) the tray icon.
  Run with `--tray` for the tray.

Public proof functions whose names start with `law_` state the properties the
library keeps across calls, such as the score staying within 0..=100, an
unchanged system showing no drift, or an appended timeline entry keeping the
chain valid.
