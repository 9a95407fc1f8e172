# Resonance (verified core)

Resonance switches the Windows desktop into driver super-resolution modes with
DPI compensation, a crash-safe revert guard and per-app automation rules.

`src/` is the verified library:

- `model`, `rules`, `config`, `guard` — the domain model: modes, display states,
  profiles, automation rules, the versioned config and the revert record.
- `conductor` — trigger matching and the rule decision (pin first, then
  priority descending, then declaration order).
- `display`, `dpi`, `vendor`, `doctor` — the mode catalogue and mode selection,
  the DPI ladder and its relative-step protocol, GPU vendor detection and the
  capability report with its text (all but the floating-point ratios).
- `tuner` — every display operation (read, resolve, apply, guarded apply,
  restore, confirm, revert) as a state machine that asks the shell for one
  operating-system call at a time; `dpi::set_scale` likewise, including the
  write-back of a scale write that does not stick and the session switch
  (`dpi::DpiPlane`) that turns scale writes off after one.
- `confirm` — the confirm-or-revert countdown after a guarded switch.
- `world` — a reference model of the operating system and the laws the
  operations obey against it (apply reaches its target, a failed scale write
  rolls the mode back, the guard is saved before any switch, revert undoes a
  guarded apply, ...).
- `cli`, `chamber`, `probe`, `text` — the decisions of the shells (what the
  control center shows, what a manual switch pins) and the character-level
  helpers they share.

`app/` is the `resctl` command line: Win32 calls, the TOML files, the clock
and the console, driving the library's operations.
