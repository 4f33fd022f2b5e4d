# chuckle

A Discord bot for engineering teams: polls, breakout rooms, reminders
("Circle Back"), role colors, thread helpers, and GitHub pull-request review
comments relayed into Discord threads.

- `src/` is the library, written in Verus: the rules and texts of every
  command, with their contracts and laws proved. Calls into `hex`, `uuid`,
  `rand`, `serde_json` and `ms` stand behind small trusted wrappers whose
  contracts are stated in their doc comments.
- `tests/` runs the library on concrete values.
- `app/` is the bot around the library: the gateway, the slash-command
  framework, the database, the HTTP server for GitHub webhooks and the
  scheduled jobs. It reads and sends; the library decides and writes.
