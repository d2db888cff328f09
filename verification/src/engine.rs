//! The audio engine's rules that do not touch samples: its buffer layout,
//! the checks on the audio devices' configuration, the stereo layout of a
//! block, the collection of a block's MIDI packets, and the bookkeeping of
//! its TCP server.
pub mod config;
pub mod dual_mono;
pub mod host;
pub mod server;
