# emp

The verified core of a music-player daemon and its command-line client.

- `src/manager.rs`: the playlist and its cursor (next/previous wrap round).
- `src/player.rs`: the daemon's decisions. Each request, media-control event and
  loop tick changes the state and names the work on the audio device and media
  controls that `app/` then carries out.
- `src/ipc.rs`: the daemon's address, the status and response types, and the
  length-prefixed framing of messages.
- `src/time.rs`, `src/stopwatch.rs`: spans of time and a pausable stopwatch.
- `app/`: the program: command-line parsing, sockets, serialisation, audio
  output, media controls and tag reading.
