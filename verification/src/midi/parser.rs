use vstd::prelude::*;

use crate::sampler::velocity::{velocity_of, Velocity};

verus! {

/// What the engine tells apart in a live MIDI message.
#[derive(Debug, Clone, Copy, PartialEq, Eq, Structural)]
pub enum LiveMessage {
    /// A note-on channel message with its key and velocity (both 7-bit).
    NoteOn { key: u8, vel: u8 },
    /// Any other well-formed live message.
    Other,
}

/// A byte slice that is no live MIDI message.
#[derive(Debug, Clone, Copy, PartialEq, Eq, Structural)]
pub enum MidiParseError {
    Invalid,
}

/// The first `n` bytes after the status byte are there and are data bytes
/// (below 0x80).
pub open spec fn has_data_bytes(raw: Seq<u8>, n: int) -> bool {
    &&& raw.len() > n
    &&& forall|i: int| 1 <= i <= n ==> raw[i] < 0x80
}

/// How many data bytes a channel message with this status byte carries.
pub open spec fn channel_data_len(status: u8) -> int {
    if 0xC0 <= status <= 0xDF {
        1
    } else {
        2
    }
}

/// `raw` is a complete live MIDI message: a channel message (status 0x80 to
/// 0xEF) followed by its data bytes, a system common message (status 0xF0 to
/// 0xF6), or a real-time message (status 0xF8 to 0xFF).
pub open spec fn is_live_message(raw: Seq<u8>) -> bool {
    &&& raw.len() > 0
    &&& if 0x80 <= raw[0] <= 0xEF {
        has_data_bytes(raw, channel_data_len(raw[0]))
    } else {
        0xF0 <= raw[0] <= 0xF6 || 0xF8 <= raw[0]
    }
}

/// `raw` starts with a note-on message: status 0x90 to 0x9F and two data bytes.
pub open spec fn is_note_on(raw: Seq<u8>) -> bool {
    &&& 0x90 <= raw[0] <= 0x9F
    &&& has_data_bytes(raw, 2)
}

/// What `parse_live_message` gives for `raw`.
pub open spec fn live_message_of(raw: Seq<u8>) -> Result<LiveMessage, MidiParseError> {
    if !is_live_message(raw) {
        Err(MidiParseError::Invalid)
    } else if is_note_on(raw) {
        Ok(LiveMessage::NoteOn { key: raw[1], vel: raw[2] })
    } else {
        Ok(LiveMessage::Other)
    }
}

/// Calls `midly::live::LiveEvent::parse` on `raw` and keeps whether it is a
/// note-on (with its key and velocity) or another message. In midly 0.5 the
/// parse reads the status byte, takes the following bytes up to the first one
/// above 0x7F as data, fails for a channel message with too few data bytes,
/// for a status below 0x80 and for 0xF7, and succeeds otherwise; the contract
/// states exactly that.
#[verifier::external_body]
fn midly_parse_live(raw: &[u8]) -> (res: Result<LiveMessage, MidiParseError>)
    ensures
        res == live_message_of(raw@),
{
    match midly::live::LiveEvent::parse(raw) {
        Ok(midly::live::LiveEvent::Midi { message: midly::MidiMessage::NoteOn { key, vel }, .. }) => {
            Ok(LiveMessage::NoteOn { key: key.as_int(), vel: vel.as_int() })
        },
        Ok(_) => Ok(LiveMessage::Other),
        Err(_) => Err(MidiParseError::Invalid),
    }
}

/// Every note-on is a complete live message, and its velocity always falls in
/// a layer.
pub proof fn lemma_note_on_is_live(raw: Seq<u8>)
    requires
        is_note_on(raw),
    ensures
        is_live_message(raw),
        velocity_of(raw[2]) is Some,
{
}

/// Reads one live MIDI message from raw bytes.
pub fn parse_live_message(event: &[u8]) -> (res: Result<LiveMessage, MidiParseError>)
    ensures
        res == live_message_of(event@),
{
    midly_parse_live(event)
}

/// The note and velocity layer a message asks the sampler to play: for a
/// note-on, its key and the layer of its velocity; for anything else, or for
/// bytes that are no MIDI message, neither.
pub fn convert_midi_for_sampler(event: &[u8]) -> (res: (Option<u8>, Option<Velocity>))
    ensures
        is_note_on(event@) ==> res == (Some(event@[1]), velocity_of(event@[2])),
        !is_note_on(event@) ==> res == (None::<u8>, None::<Velocity>),
{
    match parse_live_message(event) {
        Ok(LiveMessage::NoteOn { key, vel }) => {
            let v = match Velocity::try_from(vel) {
                Ok(layer) => Some(layer),
                Err(_) => None,
            };
            (Some(key), v)
        },
        _ => (None, None),
    }
}

} // verus!
