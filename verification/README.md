# rimusic

The verified core of a desktop music player: the song library (search folders,
songs, user tags, artist index), the playback state machine, the saved settings and
the state of the user interface, with contracts checked by Verus.

- `src/` — the library. Each step takes plain values, including what the embedding
  program observed (file probes, folder listings, the audio output's state), and
  returns audio commands for the program to carry out.
- `app/` — the program around it: window and drawing (iced), audio output (rodio),
  tag reading (lofty), the folder dialog (rfd) and the settings file (confy, serde).
- `tests/` — tests of the library.
