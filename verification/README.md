# rustylogs

A Discord bot that watches configured channels, has ChatGPT condense each new message
into a changelog, and posts the result in the channel's target channel.

- `src/` is the verified library. Every command and event handler is a state machine
  (`commands/`, `events/`, `handler.rs`): called with its input, its stage and the
  outcome of the last outside action, it returns its next stage and the next action
  (`protocol.rs`). Contracts give each step exactly; proof functions state what runs
  of steps do. `ids.rs` relates Discord ids and their database keys, `text.rs` writes
  integers in decimal, `config.rs` holds the configuration and the run that loads it.
- `app/` performs the actions: poise/serenity calls, SQLite statements through sqlx,
  ChatGPT prompts, the configuration file through serde and toml, and the process's
  entry point.
- `tests/` runs the handlers on concrete inputs.
