# anubot

A Telegram bot that keeps spam accounts out of groups. A new member is muted and asked
to verify through a private chat with the bot and a web page; members that do not verify
before the group's deadline are removed. Administrators configure the bot with group
commands and, in the private chat, an AI spam check that scores the first messages of
newly verified members and deletes or kicks accordingly.

Layout:

- `src/` — the verified library: message templates, command and callback parsing, the
  join / verification / expiry flows as step functions, session state transitions, the
  settings dialogue, spam-score handling, retry policy, HTML escaping, the verification
  page and the Prometheus text.
- `app/` — the program around it: Telegram dispatching, the SQLite store, the AI provider
  call, the web server. It performs the I/O and follows the decisions of the library.
- `tests/` — tests of the library.
