use vstd::prelude::*;

verus! {

/// Number of bytes in a channel MIDI message as the engine carries it.
pub const MIDI_PACKET_LEN: usize = 3;

/// Why a byte slice was not accepted as a MIDI packet.
#[derive(Debug, Clone, Copy, PartialEq, Eq, Structural)]
pub enum MidiPacketError {
    /// The slice does not hold exactly three bytes.
    UnknownSize,
}

/// A three-byte MIDI message, kept by value so that it can cross threads
/// and foreign interfaces without allocation.
#[derive(Debug, Clone, Copy, PartialEq, Eq)]
pub struct MidiPacket {
    bytes: [u8; 3],
}

impl View for MidiPacket {
    type V = Seq<u8>;

    closed spec fn view(&self) -> Seq<u8> {
        self.bytes@
    }
}

impl MidiPacket {
    /// A packet always holds three bytes: the only length `from_bytes`
    /// accepts, so what `bytes` gives back is always accepted again.
    pub proof fn lemma_three_bytes(p: MidiPacket)
        ensures
            p@.len() == 3,
    {
        broadcast use vstd::array::array_len_matches_n;
    }

    /// Accepts exactly the slices of three bytes, and keeps them as they are.
    pub fn from_bytes(bytes: &[u8]) -> (res: Result<MidiPacket, MidiPacketError>)
        ensures
            res is Ok <==> bytes@.len() == 3,
            res matches Ok(p) ==> p@ == bytes@,
            res matches Err(e) ==> e == MidiPacketError::UnknownSize,
    {
        if bytes.len() == MIDI_PACKET_LEN {
            let packet = MidiPacket { bytes: [bytes[0], bytes[1], bytes[2]] };
            assert(packet@ =~= bytes@);
            Ok(packet)
        } else {
            Err(MidiPacketError::UnknownSize)
        }
    }

    /// The bytes of the packet.
    pub fn bytes(&self) -> (res: &[u8])
        ensures
            res@ == self@,
    {
        self.bytes.as_slice()
    }
}

} // verus!
