use edaw::engine::host::collect_midi_packets;
use edaw::midi::channel::{forward_midi_message, MidiChannel, MidiForwardError, MidiSendError};
use edaw::midi::packet::{MidiPacket, MidiPacketError};
use edaw::midi::packet_buffer::{MidiPacketBuffer, MidiPacketBufferError, MAX_MIDI_PACKETS_PER_BLOCK};
use edaw::midi::parser::{convert_midi_for_sampler, parse_live_message, LiveMessage, MidiParseError};
use edaw::sampler::velocity::Velocity;

fn packet(a: u8, b: u8, c: u8) -> MidiPacket {
    MidiPacket::from_bytes(&[a, b, c]).unwrap()
}

#[test]
fn packet_from_three_bytes_keeps_them() {
    let p = MidiPacket::from_bytes(&[0x90, 60, 100]).unwrap();
    assert_eq!(p.bytes(), &[0x90, 60, 100]);
}

#[test]
fn packet_from_other_lengths_is_refused() {
    assert_eq!(MidiPacket::from_bytes(&[]).unwrap_err(), MidiPacketError::UnknownSize);
    assert_eq!(MidiPacket::from_bytes(&[0x90, 60]).unwrap_err(), MidiPacketError::UnknownSize);
    assert_eq!(MidiPacket::from_bytes(&[0x90, 60, 100, 1]).unwrap_err(), MidiPacketError::UnknownSize);
}

#[test]
fn packet_bytes_round_trip() {
    let p = packet(0x80, 61, 0);
    let q = MidiPacket::from_bytes(p.bytes()).unwrap();
    assert_eq!(q.bytes(), p.bytes());
}

#[test]
fn new_buffer_reports_nothing() {
    let b = MidiPacketBuffer::new();
    assert_eq!(b.packets().len(), 0);
}

#[test]
fn push_appends_to_reported_packets() {
    let mut b = MidiPacketBuffer::new();
    b.push(packet(0x90, 60, 100)).unwrap();
    b.push(packet(0x80, 60, 0)).unwrap();
    let ps = b.packets();
    assert_eq!(ps.len(), 2);
    assert_eq!(ps[0].unwrap().bytes(), &[0x90, 60, 100]);
    assert_eq!(ps[1].unwrap().bytes(), &[0x80, 60, 0]);
}

#[test]
fn buffer_takes_exactly_its_capacity() {
    let mut b = MidiPacketBuffer::new();
    for i in 0..MAX_MIDI_PACKETS_PER_BLOCK {
        assert!(b.push(packet(0x90, i as u8, 1)).is_ok());
    }
    assert_eq!(b.push(packet(0x90, 1, 1)), Err(MidiPacketBufferError::NoRoom));
    assert_eq!(b.packets().len(), MAX_MIDI_PACKETS_PER_BLOCK);
    assert_eq!(b.packets()[63].unwrap().bytes(), &[0x90, 63, 1]);
}

#[test]
fn clear_empties_the_buffer() {
    let mut b = MidiPacketBuffer::new();
    b.push(packet(0x90, 60, 100)).unwrap();
    b.clear_buffer();
    assert_eq!(b.packets().len(), 0);
    assert!(b.pop().is_none());
    for _ in 0..MAX_MIDI_PACKETS_PER_BLOCK {
        assert!(b.push(packet(0x90, 1, 1)).is_ok());
    }
}

#[test]
fn pop_takes_back_the_last_pushed_packet() {
    let mut b = MidiPacketBuffer::new();
    b.push(packet(0x90, 60, 100)).unwrap();
    b.push(packet(0x80, 60, 0)).unwrap();
    assert_eq!(b.pop().unwrap().bytes(), &[0x80, 60, 0]);
    assert_eq!(b.packets().len(), 1);
    assert_eq!(b.pop().unwrap().bytes(), &[0x90, 60, 100]);
    assert_eq!(b.packets().len(), 0);
    assert!(b.pop().is_none());
    assert_eq!(b.packets().len(), 0);
}

#[test]
fn pop_after_push_then_pop_gives_nothing() {
    let mut b = MidiPacketBuffer::new();
    b.push(packet(0x90, 60, 100)).unwrap();
    assert!(b.pop().is_some());
    assert!(b.pop().is_none());
    b.push(packet(0x90, 61, 100)).unwrap();
    assert_eq!(b.packets().len(), 1);
    assert_eq!(b.packets()[0].unwrap().bytes(), &[0x90, 61, 100]);
}

#[test]
fn pop_on_a_full_buffer_gives_the_last_packet() {
    let mut b = MidiPacketBuffer::new();
    for i in 0..MAX_MIDI_PACKETS_PER_BLOCK {
        b.push(packet(0x90, i as u8, 1)).unwrap();
    }
    assert_eq!(b.pop().unwrap().bytes(), &[0x90, 63, 1]);
    assert_eq!(b.packets().len(), MAX_MIDI_PACKETS_PER_BLOCK - 1);
    assert!(b.push(packet(0x90, 1, 1)).is_ok());
}

#[test]
fn reported_slots_always_hold_packets() {
    let mut b = MidiPacketBuffer::new();
    for i in 0..10u8 {
        b.push(packet(0x90, i, 1)).unwrap();
    }
    b.pop();
    b.pop();
    b.push(packet(0x90, 99, 1)).unwrap();
    assert!(b.packets().iter().all(|p| p.is_some()));
    assert_eq!(b.packets().len(), 9);
}

#[test]
fn collect_reads_again_after_an_empty_read() {
    let mut ch = MidiChannel::new(8);
    let mut tx = ch.take_tx().unwrap();
    let mut rx = ch.take_rx().unwrap();
    let mut b = MidiPacketBuffer::new();
    collect_midi_packets(&mut rx, &mut b);
    assert_eq!(b.packets().len(), 0);
    tx.push(packet(0x90, 5, 5)).unwrap();
    collect_midi_packets(&mut rx, &mut b);
    assert_eq!(b.packets().len(), 1);
    assert_eq!(b.packets()[0].unwrap().bytes(), &[0x90, 5, 5]);
}

#[test]
fn channel_ends_are_taken_once() {
    let mut ch = MidiChannel::new(4);
    assert!(ch.take_tx().is_some());
    assert!(ch.take_tx().is_none());
    assert!(ch.take_rx().is_some());
    assert!(ch.take_rx().is_none());
}

#[test]
fn channel_delivers_in_order_and_refuses_when_full() {
    let mut ch = MidiChannel::new(2);
    let mut tx = ch.take_tx().unwrap();
    let mut rx = ch.take_rx().unwrap();
    assert!(rx.pop().is_none());
    tx.push(packet(0x90, 1, 2)).unwrap();
    tx.push(packet(0x90, 3, 4)).unwrap();
    assert_eq!(tx.push(packet(0x90, 5, 6)), Err(MidiSendError::Full(packet(0x90, 5, 6))));
    assert_eq!(rx.pop().unwrap().bytes(), &[0x90, 1, 2]);
    assert_eq!(rx.pop().unwrap().bytes(), &[0x90, 3, 4]);
    assert!(rx.pop().is_none());
}

#[test]
fn collect_moves_waiting_packets_into_the_buffer() {
    let mut ch = MidiChannel::new(8);
    let mut tx = ch.take_tx().unwrap();
    let mut rx = ch.take_rx().unwrap();
    tx.push(packet(0x90, 1, 2)).unwrap();
    tx.push(packet(0x80, 1, 0)).unwrap();
    let mut b = MidiPacketBuffer::new();
    b.push(packet(0xB0, 7, 100)).unwrap();
    collect_midi_packets(&mut rx, &mut b);
    let ps = b.packets();
    assert_eq!(ps.len(), 3);
    assert_eq!(ps[0].unwrap().bytes(), &[0xB0, 7, 100]);
    assert_eq!(ps[1].unwrap().bytes(), &[0x90, 1, 2]);
    assert_eq!(ps[2].unwrap().bytes(), &[0x80, 1, 0]);
    assert!(rx.pop().is_none());
}

#[test]
fn collect_stops_when_the_buffer_is_full() {
    let mut ch = MidiChannel::new(100);
    let mut tx = ch.take_tx().unwrap();
    let mut rx = ch.take_rx().unwrap();
    for i in 0..70u8 {
        tx.push(packet(0x90, i, 1)).unwrap();
    }
    let mut b = MidiPacketBuffer::new();
    collect_midi_packets(&mut rx, &mut b);
    assert_eq!(b.packets().len(), MAX_MIDI_PACKETS_PER_BLOCK);
    // The 65th packet found no room and was dropped; the next one is still queued.
    assert_eq!(rx.pop().unwrap().bytes(), &[0x90, 65, 1]);
}

#[test]
fn parse_recognises_note_on() {
    assert_eq!(parse_live_message(&[0x90, 60, 100]), Ok(LiveMessage::NoteOn { key: 60, vel: 100 }));
    assert_eq!(parse_live_message(&[0x9F, 0, 0]), Ok(LiveMessage::NoteOn { key: 0, vel: 0 }));
}

#[test]
fn parse_other_messages() {
    assert_eq!(parse_live_message(&[0x80, 60, 0]), Ok(LiveMessage::Other));
    assert_eq!(parse_live_message(&[0xB0, 7, 100]), Ok(LiveMessage::Other));
    assert_eq!(parse_live_message(&[0xC0, 5]), Ok(LiveMessage::Other));
    assert_eq!(parse_live_message(&[0xF8]), Ok(LiveMessage::Other));
    assert_eq!(parse_live_message(&[0xF0, 1, 2]), Ok(LiveMessage::Other));
}

#[test]
fn parse_refuses_malformed_bytes() {
    assert_eq!(parse_live_message(&[]), Err(MidiParseError::Invalid));
    assert_eq!(parse_live_message(&[0x90, 60]), Err(MidiParseError::Invalid));
    assert_eq!(parse_live_message(&[0x90, 60, 0x80]), Err(MidiParseError::Invalid));
    assert_eq!(parse_live_message(&[0x40, 1, 2]), Err(MidiParseError::Invalid));
    assert_eq!(parse_live_message(&[0xF7]), Err(MidiParseError::Invalid));
}

#[test]
fn sampler_gets_key_and_velocity_layer_of_note_on() {
    assert_eq!(convert_midi_for_sampler(&[0x90, 60, 100]), (Some(60), Some(Velocity::V4)));
    assert_eq!(convert_midi_for_sampler(&[0x91, 72, 127]), (Some(72), Some(Velocity::V5)));
    assert_eq!(convert_midi_for_sampler(&[0x90, 10, 0]), (Some(10), Some(Velocity::V1)));
}

#[test]
fn sampler_gets_nothing_from_other_bytes() {
    assert_eq!(convert_midi_for_sampler(&[0x80, 60, 100]), (None, None));
    assert_eq!(convert_midi_for_sampler(&[0x90, 60]), (None, None));
    assert_eq!(convert_midi_for_sampler(&[]), (None, None));
}

#[test]
fn velocity_layers() {
    assert_eq!(Velocity::try_from(0u8), Ok(Velocity::V1));
    assert_eq!(Velocity::try_from(25u8), Ok(Velocity::V1));
    assert_eq!(Velocity::try_from(26u8), Ok(Velocity::V2));
    assert_eq!(Velocity::try_from(50u8), Ok(Velocity::V2));
    assert_eq!(Velocity::try_from(51u8), Ok(Velocity::V3));
    assert_eq!(Velocity::try_from(80u8), Ok(Velocity::V3));
    assert_eq!(Velocity::try_from(81u8), Ok(Velocity::V4));
    assert_eq!(Velocity::try_from(100u8), Ok(Velocity::V4));
    assert_eq!(Velocity::try_from(101u8), Ok(Velocity::V5));
    assert_eq!(Velocity::try_from(127u8), Ok(Velocity::V5));
}

#[test]
fn velocity_above_midi_range_is_refused() {
    assert_eq!(Velocity::try_from(128u8), Err("invalid value"));
    assert_eq!(Velocity::try_from(255u8), Err("invalid value"));
}

#[test]
fn velocity_layers_never_get_softer() {
    let rank = |v: Velocity| v as u8;
    let mut last = 0;
    for value in 0..=127u8 {
        let r = rank(Velocity::try_from(value).unwrap());
        assert!(r >= last);
        last = r;
    }
}

#[test]
fn forwarding_sends_three_byte_messages_only() {
    let mut ch = MidiChannel::new(1);
    let mut tx = ch.take_tx().unwrap();
    let mut rx = ch.take_rx().unwrap();
    assert_eq!(forward_midi_message(&mut tx, &[0xF8]), Err(MidiForwardError::UnknownSize));
    assert_eq!(forward_midi_message(&mut tx, &[0x90, 1, 2, 3]), Err(MidiForwardError::UnknownSize));
    assert!(rx.pop().is_none());
    assert_eq!(forward_midi_message(&mut tx, &[0x90, 60, 100]), Ok(()));
    assert_eq!(
        forward_midi_message(&mut tx, &[0x80, 60, 0]),
        Err(MidiForwardError::Full(packet(0x80, 60, 0)))
    );
    assert_eq!(rx.pop().unwrap().bytes(), &[0x90, 60, 100]);
    assert!(rx.pop().is_none());
}
