//! Verified core of the edaw audio engine and its terminal front end:
//! MIDI packets and the per-block packet buffer, MIDI event decoding for the
//! sampler, the message queue between the engine's threads, engine and I/O
//! configuration rules, the connection bookkeeping of the engine's server,
//! and the navigation state machines of the terminal.
pub mod engine;
pub mod messaging;
pub mod midi;
pub mod sampler;
pub mod terminal;
