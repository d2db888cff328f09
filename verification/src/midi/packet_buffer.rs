use vstd::prelude::*;
use vstd::slice::slice_subrange;

use crate::midi::packet::MidiPacket;

verus! {

/// Most packets one audio block can carry.
pub const MAX_MIDI_PACKETS_PER_BLOCK: usize = 64;

/// Why a packet could not be stored.
#[derive(Debug, Clone, Copy, PartialEq, Eq, Structural)]
pub enum MidiPacketBufferError {
    /// Every slot of the buffer is taken.
    NoRoom,
}

/// A fixed array of slots, held by value, for the MIDI packets of one audio
/// block: no allocation happens after construction.
///
/// `index` counts the slots that `packets` reports, which all hold a packet;
/// `push` fills the slot at `index`, `pop` takes back the last filled one.
pub struct MidiPacketBuffer {
    buffer: [Option<MidiPacket>; 64],
    index: usize,
}

impl MidiPacketBuffer {
    /// Every slot, reported or not.
    pub closed spec fn slots(&self) -> Seq<Option<MidiPacket>> {
        self.buffer@
    }

    /// How many slots, from the first on, `packets` reports.
    pub closed spec fn count(&self) -> nat {
        self.index as nat
    }

    /// The slots that `packets` reports.
    pub open spec fn reported(&self) -> Seq<Option<MidiPacket>> {
        self.slots().take(self.count() as int)
    }

    /// The buffer has its fixed number of slots, reports no more than that,
    /// and every reported slot holds a packet.
    pub open spec fn wf(&self) -> bool {
        &&& self.slots().len() == MAX_MIDI_PACKETS_PER_BLOCK
        &&& self.count() <= MAX_MIDI_PACKETS_PER_BLOCK
        &&& forall|i: int| 0 <= i < self.count() ==> #[trigger] self.slots()[i] is Some
    }

    /// Every slot empty, none reported.
    pub open spec fn is_cleared(&self) -> bool {
        &&& self.wf()
        &&& self.count() == 0
        &&& forall|i: int| 0 <= i < self.slots().len() ==> #[trigger] self.slots()[i] is None
    }

    /// Whatever was done to a buffer, it reports at most its capacity and
    /// every packet it reports is there.
    pub proof fn lemma_reported_are_packets(&self)
        requires
            self.wf(),
        ensures
            self.reported().len() <= MAX_MIDI_PACKETS_PER_BLOCK,
            forall|i: int| 0 <= i < self.reported().len() ==> #[trigger] self.reported()[i] is Some,
    {
    }

    /// An empty buffer.
    pub fn new() -> (res: MidiPacketBuffer)
        ensures
            res.is_cleared(),
            res.reported() == Seq::<Option<MidiPacket>>::empty(),
    {
        let buffer: [Option<MidiPacket>; 64] = [None; 64];
        let res = MidiPacketBuffer { buffer, index: 0 };
        assert(res.reported() =~= Seq::<Option<MidiPacket>>::empty());
        res
    }

    /// Empties every slot and reports none.
    pub fn clear_buffer(&mut self)
        requires
            old(self).wf(),
        ensures
            final(self).is_cleared(),
            final(self).reported() == Seq::<Option<MidiPacket>>::empty(),
    {
        let mut i: usize = 0;
        while i < MAX_MIDI_PACKETS_PER_BLOCK
            invariant
                self.buffer@.len() == MAX_MIDI_PACKETS_PER_BLOCK,
                i <= MAX_MIDI_PACKETS_PER_BLOCK,
                forall|j: int| 0 <= j < i ==> #[trigger] self.buffer@[j] is None,
            decreases MAX_MIDI_PACKETS_PER_BLOCK - i,
        {
            self.buffer[i] = None;
            i = i + 1;
        }
        self.index = 0;
        assert(self.reported() =~= Seq::<Option<MidiPacket>>::empty());
    }

    /// Stores the packet in the next slot and reports it, or fails when every
    /// slot is reported already.
    pub fn push(&mut self, packet: MidiPacket) -> (res: Result<(), MidiPacketBufferError>)
        requires
            old(self).wf(),
        ensures
            final(self).wf(),
            res is Ok <==> old(self).count() < MAX_MIDI_PACKETS_PER_BLOCK,
            res is Ok ==> final(self).count() == old(self).count() + 1 && final(self).slots()
                == old(self).slots().update(old(self).count() as int, Some(packet)),
            res is Ok ==> final(self).reported() == old(self).reported().push(Some(packet)),
            res matches Err(e) ==> e == MidiPacketBufferError::NoRoom && *final(self) == *old(self),
    {
        if self.index < MAX_MIDI_PACKETS_PER_BLOCK {
            self.buffer[self.index] = Some(packet);
            self.index = self.index + 1;
            assert(self.reported() =~= old(self).reported().push(Some(packet)));
            Ok(())
        } else {
            Err(MidiPacketBufferError::NoRoom)
        }
    }

    /// Takes back the last reported packet and reports one less; `None`
    /// exactly when no packet is reported, and then nothing changes.
    pub fn pop(&mut self) -> (res: Option<MidiPacket>)
        requires
            old(self).wf(),
        ensures
            final(self).wf(),
            res is None <==> old(self).count() == 0,
            old(self).count() == 0 ==> *final(self) == *old(self),
            old(self).count() > 0 ==> {
                &&& res == old(self).reported().last()
                &&& final(self).count() == old(self).count() - 1
                &&& final(self).reported() == old(self).reported().drop_last()
                &&& final(self).slots() == old(self).slots().update(
                    old(self).count() - 1,
                    None,
                )
            },
    {
        if self.index == 0 {
            None
        } else {
            self.index = self.index - 1;
            let p = self.buffer[self.index];
            self.buffer[self.index] = None;
            assert(self.reported() =~= old(self).reported().drop_last());
            p
        }
    }

    /// The reported slots, in the order they were filled.
    pub fn packets(&self) -> (res: &[Option<MidiPacket>])
        requires
            self.wf(),
        ensures
            res@ == self.reported(),
    {
        slice_subrange(self.buffer.as_slice(), 0, self.index)
    }
}

} // verus!
