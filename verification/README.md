# edaw

The core of a small digital audio workstation: an audio engine that takes
MIDI from a port and audio from a device, a server the engine listens on, and
a terminal front end that connects to it.

- `src/` is the library, written in Verus and verified: MIDI packets and the
  fixed per-block packet buffer, live MIDI decoding for the sampler, the
  velocity layers, the channels and the message queue between threads, the
  engine's buffer layout and the device configuration checks, the server's
  token and read bookkeeping, and the terminal's screens, connection page and
  layout rules.
- `tests/` exercises the library.
- `app/` is the program around it: audio and MIDI devices, threads, the TCP
  server and client sockets, floating-point processing, and drawing.
  `edaw engine` runs the engine, `edaw terminal` the front end.

The audio runner (`app/audio_io.rs`, `app/midi_io.rs`) uses `cpal` and
`midir`, which are left out of `Cargo.toml` because of the size of their
platform dependencies and because on Linux they need the system ALSA library;
add them (`cpal = "0.15"`, `midir = "0.9"`) to build the runner. The hot reloading of the original runners is not reproduced: `edaw`
runs the engine or the terminal once.
