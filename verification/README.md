# mp3_player

The logic of a small GTK MP3 player, verified with Verus.

- `src/` is the verified library:
  - `playlist` — the playlist model: rows, selection, current song, and the
    requests that playing, pausing and stopping send to the player;
  - `tags` — the row shown for an audio file, from its ID3 tag fields;
  - `player` — the pause state the interface keeps and what each request
    does on the playback side;
  - `playback` — filling the sample buffer and the decisions of the
    playback thread;
  - `mp3` — picking decoded frames out of a decoder and walking through the
    samples of a frame;
  - `toolbar` — what a click on the play button does;
  - `time` — durations in milliseconds.
- `app/` is the GTK program around it: widgets, the file dialog, reading ID3
  tags from disk, MP3 decoding with `simplemad`, audio output with
  `pulse-simple` and the playback thread.
- `tests/` runs the library on concrete values.
