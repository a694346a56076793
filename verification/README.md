# grpmr

A Telegram group manager bot, with its decisions verified by Verus.

- `src/` is the verified library: reading commands and their targets, who
  may do what, bans, kicks, mutes and locks, warnings, filters and
  blacklists, disabled commands, global bans, log channels, and the texts the
  bot sends. Each public function states what it returns; the laws that tie
  functions together (a command's text reads back as that command, unlocking
  grants what locking denied, a disabled command is refused, the owner and
  sudo users pass every admin check, ...) are proof functions next to them.
  Calls into teloxide, regex and mime go through a few trusted wrappers whose
  contracts say what those calls return.
- `app/` runs the bot: configuration from the environment, the teloxide
  dispatcher, MongoDB, HTTP requests, and the handlers that perform what the
  library decides.
- `tests/` exercises the library on concrete values, with the real teloxide,
  regex and mime behind the wrappers.

Set `TELOXIDE_TOKEN`, `OWNER_ID`, `SUDO_USERS` and `MONGO_URI` in the
environment (or a `.env` file) before running the bot.

`tokio-util` is listed with its `codec` feature although no file here uses
it: teloxide-core 0.3 names `tokio_util::codec` without asking for that
feature itself, so without the line the dependency graph does not compile.
