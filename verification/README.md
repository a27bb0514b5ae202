# music_player

A terminal client for the Music Player Daemon in the manner of ncmpcpp:
a playlist, a three-column library (artists, albums, songs), a browse view
with a search form, a command bar (`:a <album>`, `:s <song>`) and vim-style
keys (`j`/`k` with counts, `gg`/`G`, `<C-u>`/`<C-d>`, `/`, `n`/`N`, and in the
playlist `dd`, `D`, `J`/`K`, `i`/`a`/`o`/`O`).

- `src/` is the library, verified with Verus: the key handling of every
  view, the command bar and its history, the search and suggestion rules,
  the texts the views draw, and the application's reactions to each reply
  of the daemon. Each public function states in its contract what it
  returns or changes; laws that span several calls are public proof
  functions next to the functions they speak of.
- `app/` is the program around it: it reads the configuration file
  (`~/.config/music-player/config.toml`), talks to the daemon, reads keys
  and draws with ratatui, handing every key and every reply to the
  library.
- `tests/` runs the library on concrete values.
