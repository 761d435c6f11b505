# piebot

The logic of a Discord music bot, written in Verus and proved against its
contracts: recognising YouTube and Spotify links in a `/play` query, the two
song queues of each server (single requests always play before playlist and
album songs), the replies of every slash command, reading the answers of the
YouTube and Spotify APIs, the Spotify token's lifetime, rock-paper-scissors
scores and the server list file.

- `src/` — the verified library.
- `tests/` — tests of the library.
- `app/` — the bot program around it: Discord connection, voice playback,
  HTTP requests and files.
