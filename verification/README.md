# pr_bot

A GitHub bot that hands work from one authorized user to coding agents
(`opencode`): issues assigned to the bot, comments on the bot's issues,
feedback on the bot's pull requests, and mentions of the bot. Health checks
follow up on stalled pull requests and issues.

## Layout

- `src/` — the verified library (Verus). It decides everything the bot does:
  which GitHub events become agent tasks, how the processing state records
  them so that none is handled twice, what a failed task undoes, the `gh`
  arguments, the agent's prompt, arguments and environment, and the names of
  task directories.
  - `text.rs` — character-level search, replacement and decimal rendering.
  - `config.rs` — configuration and its defaults.
  - `github.rs` — GitHub data, `gh` arguments, authorization and mentions.
  - `state.rs` — the processing state (maps keyed by text).
  - `context.rs` — the context handed to the agent.
  - `tasks.rs` — tasks, state keys and what a failed task undoes.
  - `poll.rs` — the planners of one poll.
  - `health.rs` — the health-check planners.
  - `agent.rs` — task directories, prompt, arguments and environment.
  - `workflows.rs` — the bundled workflow texts.
  - `laws.rs` — properties across calls, proved: each event is handled once,
    failed tasks (health follow-ups too) are retried, cursors only move
    forward, every task comes from the authorized user, stale issues wait out
    the grace period, the agent's environment is allowlisted.
- `app/` — the executable around the library: command line, configuration
  and state files, running `gh` and the agent, and the polling loop.
- `tests/` — tests of the library on concrete values.
