use wall_e::device::{checked_record, DeviceLoop};
use wall_e::errors::WalletError;
use wall_e::framing::{frame_message, ChunkOutcome, DeviceReceiver, HostReceiver};
use wall_e::protocol::{Response, MAX_MESSAGE_SIZE};
use wall_e::wallet::{FlashData, FLASH_MAGIC};

#[test]
fn frame_is_cobs_then_zero() {
    let data = [1u8, 0, 2, 3, 0, 0, 4];
    let frame = frame_message(&data);
    assert_eq!(*frame.last().unwrap(), 0);
    assert!(frame[..frame.len() - 1].iter().all(|&b| b != 0));
    assert_eq!(&frame[..frame.len() - 1], cobs::encode_vec(&data).as_slice());
    assert_eq!(cobs::decode_vec(&frame[..frame.len() - 1]).unwrap(), data.to_vec());
}

#[test]
fn host_takes_whole_frames_in_order() {
    let a = frame_message(&[5, 0, 6]);
    let b = frame_message(&[7]);
    let mut host = HostReceiver::new();
    assert_eq!(host.take_frame(), None);
    host.push(&a[..2]);
    assert_eq!(host.take_frame(), None);
    host.push(&a[2..]);
    host.push(&b);
    assert_eq!(host.take_frame(), Some(a[..a.len() - 1].to_vec()));
    assert_eq!(host.take_frame(), Some(b[..b.len() - 1].to_vec()));
    assert_eq!(host.take_frame(), None);
    assert!(host.rx_buffer.is_empty());
}

#[test]
fn device_collects_chunks_until_the_zero() {
    let mut rx = DeviceReceiver::new();
    assert_eq!(rx.free_space(), MAX_MESSAGE_SIZE);
    assert!(matches!(rx.accept(&[3, 4]), ChunkOutcome::Partial));
    assert_eq!(rx.free_space(), MAX_MESSAGE_SIZE - 2);
    match rx.accept(&[5, 0]) {
        ChunkOutcome::Frame(f) => assert_eq!(f, vec![3, 4, 5]),
        _ => panic!("expected a frame"),
    }
    assert_eq!(rx.rx_idx, 0);
    assert!(matches!(rx.accept(&[0]), ChunkOutcome::Empty));
}

#[test]
fn device_buffer_overflow_is_reported_and_reset() {
    let mut rx = DeviceReceiver::new();
    assert_eq!(rx.check_space(), Ok(()));
    let chunk = vec![1u8; MAX_MESSAGE_SIZE];
    assert!(matches!(rx.accept(&chunk), ChunkOutcome::Partial));
    assert_eq!(rx.free_space(), 0);
    assert_eq!(rx.check_space(), Err(wall_e::errors::TransportError::BufferOverflow));
    assert_eq!(rx.rx_idx, 0);
}

#[test]
fn wrong_pins_are_counted_and_reset_at_the_limit() {
    let mut l = DeviceLoop::new();
    for _ in 0..9 {
        assert_eq!(l.reply_for(Err(WalletError::WrongPin)), Some(Response::Error(WalletError::WrongPin)));
        assert!(!l.wrong_pin_limit_reached());
    }
    assert_eq!(l.reply_for(Ok(Some(Response::Done))), Some(Response::Done));
    assert_eq!(l.reply_for(Err(WalletError::KeyMissing)), Some(Response::Error(WalletError::KeyMissing)));
    assert_eq!(l.reply_for(Ok(None)), None);
    assert_eq!(l.wrong_pin_count, 9);
    l.reply_for(Err(WalletError::WrongPin));
    assert!(l.wrong_pin_limit_reached());
    assert_eq!(l.wrong_pin_count, 0);
}

#[test]
fn button_press_is_an_edge() {
    let mut l = DeviceLoop::new();
    assert!(!l.button_pressed(false));
    assert!(l.button_pressed(true));
    assert!(!l.button_pressed(true));
    assert!(!l.button_pressed(false));
    assert!(l.button_pressed(true));
}

#[test]
fn flash_record_needs_its_marker() {
    let good = FlashData { magic: FLASH_MAGIC, salt: [1; 16], iv: [2; 16], enc_entropy: [3; 48] };
    assert_eq!(checked_record(good), Some(good));
    let bad = FlashData { magic: 0, ..good };
    assert_eq!(checked_record(bad), None);
}

#[test]
fn device_hands_out_a_frame_and_keeps_what_follows() {
    let a = frame_message(&[1, 2]);
    let b = frame_message(&[3]);
    let mut chunk = a.clone();
    chunk.extend_from_slice(&b[..1]);
    let mut rx = DeviceReceiver::new();
    match rx.accept(&chunk) {
        ChunkOutcome::Frame(f) => assert_eq!(f, a[..a.len() - 1].to_vec()),
        _ => panic!("expected the first frame"),
    }
    assert_eq!(rx.rx_idx, 1);
    assert!(matches!(rx.accept(&[]), ChunkOutcome::Partial));
    match rx.accept(&b[1..]) {
        ChunkOutcome::Frame(f) => assert_eq!(f, b[..b.len() - 1].to_vec()),
        _ => panic!("expected the second frame"),
    }
    // two whole frames in one chunk: the second waits in the buffer
    let mut both = a.clone();
    both.extend_from_slice(&b);
    assert!(matches!(rx.accept(&both), ChunkOutcome::Frame(_)));
    match rx.accept(&[]) {
        ChunkOutcome::Frame(f) => assert_eq!(f, b[..b.len() - 1].to_vec()),
        _ => panic!("expected the held frame"),
    }
    assert_eq!(rx.rx_idx, 0);
}
