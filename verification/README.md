# mnemo

The core of a multi-agent coding assistant's runtime, verified with Verus.

`src/` is the library, every function of it proved against its contract:

- `safety_rules/cmd_class.rs` — the shell-command classifier: splits a
  command into statements and pipeline stages (quote-aware), strips
  redirections, and maps a command to its normalized safety class, ignoring
  cosmetic output filtering and refusing chained, unknown or subexpression
  commands.
- `safety_rules.rs` — safety rules: tool-call signatures, literal (regex)
  and command-class rules, auto-approval, and the creation of new rules.
  Regular expressions come from the `regex` crate.
- `runtime/agent.rs` — the agent task's decisions: what a command starts,
  when a finished turn auto-continues or parks, the provider retry policy
  (backoff ladder, one rate-limit fallback, failure triage), what follows
  a compaction, and the texts the loop records.
- `runtime/turn_resolve.rs` — the turn-resolution latch (a turn resolves at
  most once; resolutions wait for running descendants).
- `runtime/manager.rs` — the agent registry and command routing.
- `runtime/correction.rs`, `shell_path.rs`, `skill.rs`, `thread_util.rs`,
  `runtime/channels.rs` — correction detection, shell-path adoption, the
  skill registry, the latest-wins mailbox, and the values exchanged with
  the UI.

Each module states its laws as public proof functions (`law_*`).

`app/` is the shell around the library: the rules file and skills
directory on disk (TOML via `serde` and `toml`), the wire forms of the
library's values, and the worker threads.

`tests/` holds the scenarios, run against the compiled library.
