# mxselfbot

A Matrix self-bot: it answers commands that its own account sends in any room.

- `src/` is the library, with its contracts proved: splitting a message into a command
  line (`text`, `mxclient`), choosing the answer to a command (`cmds`, `reply`),
  the shape of log lines (`log`), and the settings read from the environment
  (`config`), with the contexts they share (`context`).
- `app/` is the program around it: reading the environment, talking to the
  homeserver with matrix-sdk, translating messages with `locales::t!`,
  signal handling and printing log lines.
- `tests/` runs the library on concrete inputs.
