# acoustic

The verified core of Acoustic, a Discord music bot that plays YouTube videos,
searches and playlists in voice channels.

- `src/` is the library, verified with Verus: the per-guild track queue
  (`queue_store`), the slash command definitions and the decisions and texts
  of each command (`commands`), the reading of `yt-dlp` playlist output
  (`commands::playlist`), the event handlers' decisions (`handlers`), the
  `.env` reader (`dotenv`), error messages (`errors`), message cards
  (`embeds`) and character-level helpers (`text`).
- `app/` is the bot itself: the Discord client, voice calls, the `yt-dlp`
  process and the process-wide queue store, all calling into the library.
- `tests/` exercises the library on concrete values.
