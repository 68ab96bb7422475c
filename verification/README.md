# Raudio

A small GTK4 / libadwaita music player: a library of tracks read from audio
files, liked songs, user playlists with cover images, shuffle / repeat
playback and switchable colour themes.

## Layout

- `src/` — the verified library (`raudio`), checked by Verus:
  - `playback.rs` — the playback queue as a state machine (choose a row,
    next, previous, end of track with repeat-one / repeat-all / shuffle),
    with its laws;
  - `theme.rs` — the seven colour themes, the palette and swatch stylesheet
    text, the light/dark choice and the saved theme setting;
  - `display.rs` — `m:ss` durations, track counts, row numbers;
  - `browse.rs` — sidebar rows, collection headers, the search filter,
    playlist names and cover file names;
  - `scanner.rs` — which files are audio, the order of an album's files,
    and how an imported folder becomes a named album;
  - `path.rs` — the extension of a file name;
  - `library.rs` — track and playlist records;
  - `text.rs` — decimal text, parsing, trimming, case folding and search.
- `app/` — the program around it: GTK windows, GStreamer playback, tag
  reading with `lofty` and the SQLite library database with `rusqlite`.
- `tests/` — tests of the library on concrete values.
