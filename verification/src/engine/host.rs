use vstd::prelude::*;

use crate::midi::channel::MidiRx;
use crate::midi::packet::MidiPacket;
use crate::midi::packet_buffer::{MidiPacketBuffer, MAX_MIDI_PACKETS_PER_BLOCK};

verus! {

/// The packets `rx` received after its first `n` ones, as buffer slots.
pub open spec fn received_since(rx: MidiRx, n: nat) -> Seq<Option<MidiPacket>> {
    rx.received().skip(n as int).map_values(|p: MidiPacket| Some(p))
}

/// Moves the packets waiting on the channel into the block's buffer, until
/// the channel has none left or the buffer has no room; the packet that found
/// no room is dropped.
///
/// The packets read from the channel are appended to the reported ones in the
/// order they came: all of them when the channel ran dry, all but the last
/// when the buffer filled up. It reads at least once: every read either
/// brings a packet or finds the channel empty, and an empty read ends it.
pub fn collect_midi_packets(midi_rx: &mut MidiRx, midi_buffer: &mut MidiPacketBuffer)
    requires
        old(midi_buffer).wf(),
    ensures
        final(midi_buffer).wf(),
        final(midi_rx).ring() == old(midi_rx).ring(),
        final(midi_rx).reads() == old(midi_rx).reads() + (final(midi_rx).received().len()
            - old(midi_rx).received().len()) + if final(midi_rx).ran_dry() {
            1int
        } else {
            0int
        },
        final(midi_rx).received().len() >= old(midi_rx).received().len(),
        final(midi_rx).received().take(old(midi_rx).received().len() as int)
            == old(midi_rx).received(),
        final(midi_rx).ran_dry() ==> final(midi_buffer).reported() == old(midi_buffer).reported()
            + received_since(*final(midi_rx), old(midi_rx).received().len()),
        !final(midi_rx).ran_dry() ==> {
            &&& final(midi_buffer).count() == MAX_MIDI_PACKETS_PER_BLOCK
            &&& final(midi_rx).received().len() > old(midi_rx).received().len()
            &&& final(midi_buffer).reported() == old(midi_buffer).reported() + received_since(
                *final(midi_rx),
                old(midi_rx).received().len(),
            ).drop_last()
        },
        forall|i: int|
            final(midi_buffer).count() <= i < MAX_MIDI_PACKETS_PER_BLOCK
                ==> #[trigger] final(midi_buffer).slots()[i] == old(midi_buffer).slots()[i],
{
    let ghost start = *midi_buffer;
    let ghost start_rx = *midi_rx;
    let ghost n = start_rx.received().len();
    loop
        invariant_except_break
            midi_buffer.wf(),
            midi_rx.ring() == start_rx.ring(),
            midi_rx.reads() == start_rx.reads() + (midi_rx.received().len() - n),
            start.wf(),
            midi_rx.received().len() >= n,
            midi_rx.received().take(n as int) == start_rx.received(),
            midi_buffer.reported() == start.reported() + received_since(*midi_rx, n),
            forall|i: int|
                midi_buffer.count() <= i < MAX_MIDI_PACKETS_PER_BLOCK ==> #[trigger] midi_buffer.slots()[i]
                    == start.slots()[i],
        ensures
            midi_buffer.wf(),
            midi_rx.ring() == start_rx.ring(),
            midi_rx.reads() == start_rx.reads() + (midi_rx.received().len() - n) + if midi_rx.ran_dry() {
                1int
            } else {
                0int
            },
            midi_rx.received().len() >= n,
            midi_rx.received().take(n as int) == start_rx.received(),
            midi_rx.ran_dry() ==> midi_buffer.reported() == start.reported() + received_since(
                *midi_rx,
                n,
            ),
            !midi_rx.ran_dry() ==> {
                &&& midi_buffer.count() == MAX_MIDI_PACKETS_PER_BLOCK
                &&& midi_rx.received().len() > n
                &&& midi_buffer.reported() == start.reported() + received_since(*midi_rx, n).drop_last()
            },
            forall|i: int|
                midi_buffer.count() <= i < MAX_MIDI_PACKETS_PER_BLOCK ==> #[trigger] midi_buffer.slots()[i]
                    == start.slots()[i],
        decreases MAX_MIDI_PACKETS_PER_BLOCK - midi_buffer.count(),
    {
        let ghost rx_before = *midi_rx;
        match midi_rx.pop() {
            Some(p) => {
                let ghost before = *midi_buffer;
                assert(received_since(*midi_rx, n) =~= received_since(rx_before, n).push(Some(p)));
                assert(midi_rx.received().take(n as int) =~= rx_before.received().take(n as int));
                match midi_buffer.push(p) {
                    Ok(()) => {
                        assert(midi_buffer.reported() =~= start.reported() + received_since(*midi_rx, n));
                    },
                    Err(_) => {
                        assert(received_since(*midi_rx, n).drop_last() =~= received_since(rx_before, n));
                        break ;
                    },
                }
            },
            None => {
                break ;
            },
        }
    }
}

} // verus!
