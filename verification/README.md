# musicbot

A Discord music bot whose decisions are verified with Verus.

- `src/` is the verified library: the per-guild track queue and its repeat
  modes (`queue`), tracks (`audio`), what is asked of `yt-dlp` and how its
  answers are read (`ytdlp`), the bot's errors (`error`), the text of its
  answers (`replies`), decisions on gateway and voice events (`events`), text
  handling on character sequences (`text`), and properties that span several
  operations (`laws`).
- `app/` is the program around it: the Discord client, the slash commands,
  the voice connection, running `yt-dlp`, logging.
- `tests/` runs the library on concrete values.
