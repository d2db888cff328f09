//! MIDI data as the engine moves it around.
pub mod channel;
pub mod packet;
pub mod packet_buffer;
pub mod parser;
