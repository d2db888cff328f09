use std::ops::ControlFlow;

use edaw::engine::config::{HostConfig, HostError, IoConfigError, IoLayout, SupportedBufferSize};
use edaw::engine::dual_mono::make_dual_mono;
use edaw::engine::server::{
    get_next_token, interrupted, readable_outcome, recv_status, route_event, would_block,
    ClientTokens, ConnectionError, EventTarget, IoErrorKind, RxStatus, Token, SERVER,
};

#[test]
fn host_config_multiplies_the_layout() {
    let c = HostConfig::new(512, 2).unwrap();
    assert_eq!(c.buffer_size, 1024);
    assert_eq!(c.num_samples_per_channel, 512);
    assert_eq!(c.num_channels, 2);
}

#[test]
fn host_config_refuses_an_empty_block() {
    assert_eq!(HostConfig::new(0, 2), Err(HostError::NoBufferSize));
    assert_eq!(HostConfig::new(512, 0), Err(HostError::NoBufferSize));
}

fn range(min: u32, max: u32) -> SupportedBufferSize {
    SupportedBufferSize::Range { min, max }
}

#[test]
fn io_layout_starts_empty() {
    let l = IoLayout::new();
    assert_eq!(l.get_num_channels(), 0);
    assert_eq!(l.get_num_samples_per_channel(), 0);
    assert_eq!(l.get_total_buffer_size(), 0);
}

#[test]
fn io_layout_takes_matching_devices() {
    let mut l = IoLayout::new();
    assert_eq!(l.configure(2, 2, range(256, 256), range(256, 256)), Ok(()));
    assert_eq!(l.get_num_channels(), 2);
    assert_eq!(l.get_num_samples_per_channel(), 256);
    assert_eq!(l.get_total_buffer_size(), 512);
}

#[test]
fn io_layout_refusals_in_order() {
    let mut l = IoLayout::new();
    assert_eq!(l.configure(1, 2, range(1, 1), range(1, 1)), Err(IoConfigError::ChannelsMismatch));
    assert_eq!(
        l.configure(2, 2, SupportedBufferSize::Unknown, SupportedBufferSize::Unknown),
        Err(IoConfigError::NoOutputBufferSize)
    );
    assert_eq!(
        l.configure(2, 2, SupportedBufferSize::Unknown, range(64, 64)),
        Err(IoConfigError::NoInputBufferSize)
    );
    assert_eq!(l.configure(2, 2, range(64, 128), range(64, 128)), Err(IoConfigError::BufferMinMaxMismatch));
    assert_eq!(l.configure(2, 2, range(64, 64), range(32, 64)), Err(IoConfigError::MinBufferMismatch));
    assert_eq!(l.configure(2, 2, range(64, 64), range(64, 128)), Err(IoConfigError::MaxBufferMismatch));
    assert_eq!(l.get_num_channels(), 0);
    assert_eq!(l.get_num_samples_per_channel(), 0);
}

#[test]
fn io_layout_refusal_keeps_the_previous_layout() {
    let mut l = IoLayout::new();
    l.configure(2, 2, range(128, 128), range(128, 128)).unwrap();
    assert!(l.configure(2, 1, range(64, 64), range(64, 64)).is_err());
    assert_eq!(l.get_num_channels(), 2);
    assert_eq!(l.get_num_samples_per_channel(), 128);
}

#[test]
fn dual_mono_copies_left_onto_right() {
    let mut data = [1, 2, 3, 4, 5, 6];
    make_dual_mono(&mut data);
    assert_eq!(data, [1, 1, 3, 3, 5, 5]);
}

#[test]
fn dual_mono_leaves_a_trailing_sample() {
    let mut data = [1.0f32, 2.0, 3.0];
    make_dual_mono(&mut data);
    assert_eq!(data, [1.0, 1.0, 3.0]);
    let mut empty: [u8; 0] = [];
    make_dual_mono(&mut empty);
}

#[test]
fn dual_mono_twice_is_once() {
    let mut data = [7, 8, 9, 10];
    make_dual_mono(&mut data);
    let once = data;
    make_dual_mono(&mut data);
    assert_eq!(data, once);
}

#[test]
fn error_kinds() {
    assert!(would_block(&IoErrorKind::WouldBlock));
    assert!(!would_block(&IoErrorKind::Interrupted));
    assert!(!would_block(&IoErrorKind::Other));
    assert!(interrupted(&IoErrorKind::Interrupted));
    assert!(!interrupted(&IoErrorKind::WouldBlock));
    assert!(!interrupted(&IoErrorKind::Other));
}

#[test]
fn next_token_hands_out_and_advances() {
    let mut t = Token(5);
    assert_eq!(get_next_token(&mut t), Token(5));
    assert_eq!(t, Token(6));
}

#[test]
fn client_tokens_are_distinct_and_not_the_server() {
    let mut tokens = ClientTokens::new();
    let a = tokens.register_client();
    let b = tokens.register_client();
    let c = tokens.register_client();
    assert_eq!((a, b, c), (Token(1), Token(2), Token(3)));
    assert!(a.0 != SERVER && b.0 != SERVER && c.0 != SERVER);
}

#[test]
fn events_are_routed_by_token() {
    assert_eq!(route_event(Token(SERVER)), EventTarget::Server);
    assert_eq!(route_event(Token(3)), EventTarget::Client(Token(3)));
}

#[test]
fn read_results() {
    assert_eq!(recv_status(Ok(12)), Ok(ControlFlow::Break(RxStatus::Recieved(12))));
    assert_eq!(recv_status(Ok(0)), Ok(ControlFlow::Break(RxStatus::Recieved(0))));
    assert_eq!(recv_status(Err(IoErrorKind::WouldBlock)), Ok(ControlFlow::Break(RxStatus::Nothing)));
    assert_eq!(recv_status(Err(IoErrorKind::Interrupted)), Ok(ControlFlow::Continue(())));
    assert_eq!(recv_status(Err(IoErrorKind::Other)), Err(ConnectionError::Read));
}

#[test]
fn readable_outcomes() {
    let closed = readable_outcome(RxStatus::Recieved(0));
    assert!(closed.connection_closed);
    assert_eq!(closed.bytes_read, 0);
    let data = readable_outcome(RxStatus::Recieved(17));
    assert!(!data.connection_closed);
    assert_eq!(data.bytes_read, 17);
    let nothing = readable_outcome(RxStatus::Nothing);
    assert!(!nothing.connection_closed);
    assert_eq!(nothing.bytes_read, 0);
}
