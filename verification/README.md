# koaai

The logic of Koaai, a single-process Discord music bot, as a Verus-verified
library, with the bot's I/O around it.

- `src/` is the verified library: the per-guild player state machine
  (queue, loop modes, stop flags, error streak and recovery, seek cache,
  shuffle), source resolution (query prefixes, the search fallback chain,
  yt-dlp, YouTube Music, SoundCloud, Spotify and iTunes results, embed and
  search-response JSON), the report dashboard, component ids and message
  texts, logging rules and the memory snapshot. Calls into `regex`, `url`,
  `urlencoding`, `chrono` and `serde_json` stand behind small trusted
  wrappers whose contracts are documented where they are declared.
- `tests/` exercises the library from outside.
- `app/` is the bot itself: the Discord gateway and commands, the voice
  driver, HTTP requests, yt-dlp processes, SQLite storage and timers. It
  asks the library for every decision and text.
