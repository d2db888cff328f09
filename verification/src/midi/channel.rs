use vstd::prelude::*;

use ringbuf::{HeapConsumer, HeapProducer, HeapRb};

use crate::midi::packet::{MidiPacket, MidiPacketError};

verus! {

/// A `ringbuf` heap ring buffer of packets before it is split. `ringbuf`'s
/// types are held whole behind types of this module, since the bounds of
/// `ringbuf::Producer` and `ringbuf::Consumer` name `ringbuf`'s own traits.
#[verifier::external_body]
pub struct PacketRing {
    inner: HeapRb<MidiPacket>,
}

/// The producer end of a ring of packets.
#[verifier::external_body]
pub struct PacketProducer {
    inner: HeapProducer<MidiPacket>,
}

/// The consumer end of a ring of packets.
#[verifier::external_body]
pub struct PacketConsumer {
    inner: HeapConsumer<MidiPacket>,
}

/// How many packets the ring holds at most: the capacity it was made with.
pub uninterp spec fn ring_capacity(ring: PacketRing) -> nat;

/// The ring a producer end writes into.
pub uninterp spec fn producer_ring(tx: PacketProducer) -> PacketRing;

/// The ring a consumer end reads from.
pub uninterp spec fn consumer_ring(rx: PacketConsumer) -> PacketRing;

/// The packets a producer end has put into its ring, oldest first.
pub uninterp spec fn producer_sent(tx: PacketProducer) -> Seq<MidiPacket>;

/// Calls `HeapRb::<MidiPacket>::new(capacity)`, which makes a ring of that
/// capacity and panics on a zero capacity; `requires` leaves that out.
#[verifier::external_body]
fn heap_rb_new(capacity: usize) -> (res: PacketRing)
    requires
        capacity > 0,
    ensures
        ring_capacity(res) == capacity,
{
    PacketRing { inner: HeapRb::<MidiPacket>::new(capacity) }
}

/// Calls `SharedRb::split`, which hands out a producer and a consumer end of
/// the same ring (both hold the one `Arc` of the ring); the new producer has
/// put nothing in.
#[verifier::external_body]
fn ring_split(ring: PacketRing) -> (res: (PacketProducer, PacketConsumer))
    ensures
        producer_ring(res.0) == ring,
        producer_sent(res.0) == Seq::<MidiPacket>::empty(),
        consumer_ring(res.1) == ring,
{
    let (tx, rx) = ring.inner.split();
    (PacketProducer { inner: tx }, PacketConsumer { inner: rx })
}

/// Calls `Producer::push`. Whether it succeeds depends on the consumer's
/// thread: on success the packet is written into the ring; on failure the
/// ring is full and the packet is handed back unchanged. The producer stays
/// an end of the same ring.
#[verifier::external_body]
fn producer_push(tx: &mut PacketProducer, packet: MidiPacket) -> (res: Result<(), MidiPacket>)
    ensures
        res is Ok ==> producer_sent(*final(tx)) == producer_sent(*old(tx)).push(packet),
        res matches Err(back) ==> back == packet && producer_sent(*final(tx)) == producer_sent(
            *old(tx),
        ),
        producer_ring(*final(tx)) == producer_ring(*old(tx)),
{
    tx.inner.push(packet)
}

/// Calls `Consumer::pop`. What it returns depends on the producer's thread.
/// The consumer stays an end of the same ring.
#[verifier::external_body]
fn consumer_pop(rx: &mut PacketConsumer) -> (res: Option<MidiPacket>)
    ensures
        consumer_ring(*final(rx)) == consumer_ring(*old(rx)),
{
    rx.inner.pop()
}

/// The sending end of a MIDI channel.
pub struct MidiTx {
    tx: PacketProducer,
}

/// The receiving end of a MIDI channel, with a record of the packets it has
/// handed out, of how many reads it made, and of whether its last read found
/// the channel empty.
pub struct MidiRx {
    rx: PacketConsumer,
    received: Ghost<Seq<MidiPacket>>,
    reads: Ghost<nat>,
    ran_dry: Ghost<bool>,
}

/// Why a packet could not be sent; the packet comes back with the error.
#[derive(Debug, Clone, Copy, PartialEq, Eq)]
pub enum MidiSendError {
    /// The channel is full; the packet was not sent.
    Full(MidiPacket),
}

/// The two ends belong to the same channel.
pub open spec fn same_channel(tx: MidiTx, rx: MidiRx) -> bool {
    tx.ring() == rx.ring()
}

impl MidiTx {
    /// The ring this end sends into.
    pub closed spec fn ring(&self) -> PacketRing {
        producer_ring(self.tx)
    }

    /// The packets this end has put into its ring, oldest first.
    pub closed spec fn sent(&self) -> Seq<MidiPacket> {
        producer_sent(self.tx)
    }

    /// Sends a packet, or reports that the channel is full. Whether there is
    /// room depends on the receiving thread: on success the packet is the last
    /// one this end sent; on failure nothing is sent and the error carries the
    /// packet back. The end keeps sending into the same ring.
    pub fn push(&mut self, message: MidiPacket) -> (res: Result<(), MidiSendError>)
        ensures
            final(self).ring() == old(self).ring(),
            res is Ok ==> final(self).sent() == old(self).sent().push(message),
            res is Err ==> final(self).sent() == old(self).sent(),
            res matches Err(e) ==> e == MidiSendError::Full(message),
    {
        match producer_push(&mut self.tx, message) {
            Ok(()) => Ok(()),
            Err(back) => Err(MidiSendError::Full(back)),
        }
    }
}

/// Why a message from the MIDI input was not forwarded to the engine.
#[derive(Debug, Clone, Copy, PartialEq, Eq)]
pub enum MidiForwardError {
    /// The message is not three bytes long; nothing was sent.
    UnknownSize,
    /// The channel is full; the packet was not sent and comes back.
    Full(MidiPacket),
}

/// Forwards a message from the MIDI input to the engine: a three-byte message
/// is sent as a packet, any other length is refused without sending.
pub fn forward_midi_message(tx: &mut MidiTx, message: &[u8]) -> (res: Result<(), MidiForwardError>)
    ensures
        final(tx).ring() == old(tx).ring(),
        message@.len() != 3 ==> res == Err::<(), MidiForwardError>(MidiForwardError::UnknownSize),
        res is Err ==> final(tx).sent() == old(tx).sent(),
        res is Ok ==> {
            &&& message@.len() == 3
            &&& final(tx).sent().len() == old(tx).sent().len() + 1
            &&& final(tx).sent().drop_last() == old(tx).sent()
            &&& final(tx).sent().last()@ == message@
        },
        res matches Err(MidiForwardError::Full(p)) ==> message@.len() == 3 && p@ == message@,
{
    match MidiPacket::from_bytes(message) {
        Err(MidiPacketError::UnknownSize) => Err(MidiForwardError::UnknownSize),
        Ok(packet) => match tx.push(packet) {
            Ok(()) => Ok(()),
            Err(MidiSendError::Full(back)) => Err(MidiForwardError::Full(back)),
        },
    }
}

impl MidiRx {
    /// The ring this end reads from.
    pub closed spec fn ring(&self) -> PacketRing {
        consumer_ring(self.rx)
    }

    /// The packets this end has handed out so far, oldest first.
    pub closed spec fn received(&self) -> Seq<MidiPacket> {
        self.received@
    }

    /// How many reads this end has made.
    pub closed spec fn reads(&self) -> nat {
        self.reads@
    }

    /// The last read found no packet waiting.
    pub closed spec fn ran_dry(&self) -> bool {
        self.ran_dry@
    }

    /// The oldest packet not yet received, if any. Which one, and whether
    /// there is one, depends on the sending thread. Each call is one read; a
    /// packet handed out is added to the record of received packets, and an
    /// empty read is noted.
    pub fn pop(&mut self) -> (res: Option<MidiPacket>)
        ensures
            final(self).reads() == old(self).reads() + 1,
            final(self).ring() == old(self).ring(),
            res matches Some(p) ==> final(self).received() == old(self).received().push(p)
                && !final(self).ran_dry(),
            res is None ==> final(self).received() == old(self).received() && final(self).ran_dry(),
    {
        let res = consumer_pop(&mut self.rx);
        self.reads = Ghost(self.reads@ + 1);
        match res {
            Some(p) => {
                self.received = Ghost(self.received@.push(p));
                self.ran_dry = Ghost(false);
            },
            None => {
                self.ran_dry = Ghost(true);
            },
        }
        res
    }
}

/// A single-producer, single-consumer channel of MIDI packets whose two ends
/// can each be taken once, to be moved to the threads that use them.
pub struct MidiChannel {
    midi_rx: Option<MidiRx>,
    midi_tx: Option<MidiTx>,
    ring: Ghost<PacketRing>,
}

impl MidiChannel {
    /// Both ends still here belong to the channel's ring.
    pub closed spec fn wf(&self) -> bool {
        &&& self.midi_tx matches Some(tx) ==> tx.ring() == self.ring@ && tx.sent()
            == Seq::<MidiPacket>::empty()
        &&& self.midi_rx matches Some(rx) ==> rx.ring() == self.ring@ && rx.reads() == 0
            && rx.received() == Seq::<MidiPacket>::empty() && !rx.ran_dry()
    }

    /// The ring both ends of this channel use.
    pub closed spec fn ring(&self) -> PacketRing {
        self.ring@
    }

    /// How many packets the channel holds at most.
    pub open spec fn capacity(&self) -> nat {
        ring_capacity(self.ring())
    }

    /// Whether the sending end is still here.
    pub closed spec fn has_tx(&self) -> bool {
        self.midi_tx is Some
    }

    /// Whether the receiving end is still here.
    pub closed spec fn has_rx(&self) -> bool {
        self.midi_rx is Some
    }

    /// A channel that holds up to `buffer_size` packets, with both ends in place.
    pub fn new(buffer_size: usize) -> (res: MidiChannel)
        requires
            buffer_size > 0,
        ensures
            res.wf(),
            res.has_tx(),
            res.has_rx(),
            res.capacity() == buffer_size,
    {
        let ring = heap_rb_new(buffer_size);
        let ghost g = ring;
        let (tx, rx) = ring_split(ring);
        MidiChannel {
            midi_rx: Some(
                MidiRx {
                    rx,
                    received: Ghost(Seq::empty()),
                    reads: Ghost(0),
                    ran_dry: Ghost(false),
                },
            ),
            midi_tx: Some(MidiTx { tx }),
            ring: Ghost(g),
        }
    }

    /// Takes the sending end: `Some` the first time, `None` after. The end
    /// sends into this channel's ring.
    pub fn take_tx(&mut self) -> (res: Option<MidiTx>)
        requires
            old(self).wf(),
        ensures
            final(self).wf(),
            res is Some <==> old(self).has_tx(),
            res matches Some(tx) ==> tx.ring() == old(self).ring() && tx.sent()
                == Seq::<MidiPacket>::empty(),
            !final(self).has_tx(),
            final(self).has_rx() == old(self).has_rx(),
            final(self).ring() == old(self).ring(),
    {
        self.midi_tx.take()
    }

    /// Takes the receiving end: `Some` the first time, `None` after. The end
    /// reads from this channel's ring and has read nothing yet.
    pub fn take_rx(&mut self) -> (res: Option<MidiRx>)
        requires
            old(self).wf(),
        ensures
            final(self).wf(),
            res is Some <==> old(self).has_rx(),
            res matches Some(rx) ==> rx.ring() == old(self).ring() && rx.reads() == 0
                && rx.received() == Seq::<MidiPacket>::empty(),
            !final(self).has_rx(),
            final(self).has_tx() == old(self).has_tx(),
            final(self).ring() == old(self).ring(),
    {
        self.midi_rx.take()
    }
}

} // verus!
