# rustbot

The verified core of a Discord community bot that scores reactions (+2 and
-2 emojis), lets members trade their plus twos, runs a small shop, and looks
up Old School RuneScape Grand Exchange prices.

`src/` is the library, verified with Verus:

- `ledger`: every write to the bot's SQLite database as a value (`DbOp`), a
  model of what each write does to the tables (`apply_op`), and laws such as
  "a trade moves points from giver to receiver and nothing else".
- `events`: what a posted message (bombs, image rotation) and an added or
  removed reaction lead to; removing a reaction undoes adding it.
- `commands`: trades (with their trade-log row), purchases, judging (never
  twice for one post), smash or pass, help.
- `display`, `replies`: the text of the bot's replies.
- `attachments` (file names, paths, image rotation), `runescape` (prices and
  the chart service's JSON configuration), `emoji`, `config`, `status`, `text`.

`app/` is the program around it: the Discord client, the command framework,
SQL, HTTP and the file system. `tests/` runs the library on concrete values.
