# mcserver_setup

A terminal wizard that prepares a Paper Minecraft server, with its core
verified in Verus.

- `src/` is the verified library: the settings and their validation
  (`config`), the wizard's key-driven state machine (`app`), the text of the
  generated files and the decision to write them (`install`), the words on
  each screen (`ui`), plain text helpers (`text`), and the properties proved
  across calls (`laws`).
- `app/` is the terminal front end: it reads keys with crossterm, draws with
  ratatui, serialises the settings to `mcserver.toml` with serde and toml, and
  writes the files the library decides on.
