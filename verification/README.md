# rgytui

A terminal YouTube music player, built around a Verus-verified library.

- `src/` is the verified library: the playlist and repeat modes, the
  interface session (what each key, click and background event does), the
  notification queue, translations and theming, the search cache, the
  playback watchdog, log rotation, the yt-dlp command lines, the uninstall
  scripts and the self-update rules (release check, archive extraction).
  Calls into serde_json, sys-locale, flate2, tar, zip and a few std
  functions go through small trusted wrappers whose contracts are stated
  next to them.
- `app/` is the program around it: the terminal, audio output, processes,
  files and network. It performs the effects the library asks for and hands
  the outcomes back.
- `tests/` exercises the library from outside.
