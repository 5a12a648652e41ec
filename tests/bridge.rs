use brainhat::client::{
    decode_reply, decode_status_reply, read_request, status_is_ready, write_acknowledged,
    write_request,
};
use brainhat::error::BridgeError;
use brainhat::frame::{decode_header, encode_read, encode_write, Header, PEER_ADDRESS};
use brainhat::ingest::{decode_step, DecoderState, IngestPipeline, Signal, WorkerAction};
use brainhat::input::{InputState, Key, KeyAction};
use brainhat::queue::{IngestQueue, INGEST_CAPACITY};
use brainhat::registers::{lookup_register, respond, Register, RegisterInputs, Response};
use brainhat::sampling::{Emotion, Item, SampleBatch, BATCH_SIZE};

fn inputs() -> RegisterInputs {
    RegisterInputs { adc: 0x1234, sample_rate: 0x0190 }
}

fn feed(p: &mut IngestPipeline, bytes: &[u8]) {
    for b in bytes {
        assert!(p.receive_byte(*b));
    }
}

fn serve(p: &mut IngestPipeline) -> Vec<Response> {
    match p.handle_signal(Signal::DataReady, &inputs()) {
        WorkerAction::Serve(v) => v,
        WorkerAction::Exit => panic!("worker exited"),
    }
}

fn item(n: u128) -> Item {
    Item::from_cycle(true, true, false, 7, 0, 400, n)
}

#[test]
fn read_frame_encodes_and_decodes() {
    assert_eq!(encode_read(2), vec![0xC8, 2]);
    for register in 0..=255u8 {
        let f = encode_read(register);
        let h = decode_header(f[0], f[1]);
        assert_eq!(h, Header { read: true, address: PEER_ADDRESS, register });
    }
}

#[test]
fn write_frame_encodes_and_decodes() {
    let f = encode_write(5, &vec![255, 0, 0]).unwrap();
    assert_eq!(f, vec![0x48, 5, 3, 255, 0, 0]);
    let h = decode_header(f[0], f[1]);
    assert_eq!(h, Header { read: false, address: PEER_ADDRESS, register: 5 });
    assert_eq!(f[2] as usize, f.len() - 3);
    assert_eq!(&f[3..], &[255, 0, 0]);
}

#[test]
fn write_frame_largest_payload() {
    let payload: Vec<u8> = (0..255u32).map(|i| i as u8).collect();
    let f = encode_write(9, &payload).unwrap();
    assert_eq!(f.len(), 258);
    assert_eq!(f[2], 255);
    assert_eq!(&f[3..], payload.as_slice());
    assert_eq!(encode_write(9, &vec![]).unwrap(), vec![0x48, 9, 0]);
}

#[test]
fn write_frame_payload_too_large() {
    assert_eq!(encode_write(5, &vec![0u8; 256]), Err(BridgeError::PayloadTooLarge));
    assert_eq!(write_request(5, &vec![1u8; 1000]), Err(BridgeError::PayloadTooLarge));
}

#[test]
fn header_with_other_address() {
    let h = decode_header(0x49, 7);
    assert_eq!(h, Header { read: false, address: 0x49, register: 7 });
    let h = decode_header(0xFF, 0);
    assert_eq!(h, Header { read: true, address: 0x7F, register: 0 });
}

#[test]
fn register_table() {
    assert_eq!(lookup_register(0), Some(Register::AdcReading));
    assert_eq!(lookup_register(1), Some(Register::ButtonMask));
    assert_eq!(lookup_register(2), Some(Register::StatusToken));
    assert_eq!(lookup_register(3), Some(Register::SampleRateEstimate));
    assert_eq!(lookup_register(4), None);
    assert_eq!(Register::ButtonMask.width(), 1);
    assert_eq!(Register::AdcReading.width(), 2);
    assert_eq!(Register::SampleRateEstimate.address(), 3);
    assert_eq!(respond(Register::StatusToken, &inputs()), Response::Word(0x4F4B));
    assert_eq!(respond(Register::ButtonMask, &inputs()), Response::Byte(0));
    assert_eq!(Response::Word(0x4F4B).to_bytes(), vec![0x4F, 0x4B]);
    assert_eq!(Response::Byte(9).to_bytes(), vec![9]);
}

#[test]
fn ingest_known_register_one_response() {
    let mut p = IngestPipeline::new();
    feed(&mut p, &[0xC8, 0]);
    let out = serve(&mut p);
    assert_eq!(out, vec![Response::Word(0x1234)]);
    assert_eq!(out[0].to_bytes(), vec![0x12, 0x34]);
    feed(&mut p, &[0xC8, 1]);
    let out = serve(&mut p);
    assert_eq!(out.len(), 1);
    assert_eq!(out[0].to_bytes().len(), 1);
}

#[test]
fn ingest_other_address_no_response() {
    let mut p = IngestPipeline::new();
    feed(&mut p, &[0xC9, 2]);
    assert!(serve(&mut p).is_empty());
    feed(&mut p, &[0x07, 0]);
    assert!(serve(&mut p).is_empty());
}

#[test]
fn ingest_unknown_register_abandoned() {
    let mut p = IngestPipeline::new();
    feed(&mut p, &[0xC8, 9, 0xC8, 2]);
    assert_eq!(serve(&mut p), vec![Response::Word(0x4F4B)]);
}

#[test]
fn ingest_resyncs_after_noise_byte_by_byte() {
    let mut p = IngestPipeline::new();
    let mut out = Vec::new();
    for b in [0x00u8, 0xFF, 0x13, 0x80, 0xC8, 3] {
        assert!(p.receive_byte(b));
        out.extend(serve(&mut p));
    }
    assert_eq!(out, vec![Response::Word(0x0190)]);
}

#[test]
fn ingest_split_header_across_signals() {
    let mut p = IngestPipeline::new();
    feed(&mut p, &[0xC8]);
    assert!(serve(&mut p).is_empty());
    feed(&mut p, &[2]);
    assert_eq!(serve(&mut p), vec![Response::Word(0x4F4B)]);
}

#[test]
fn ingest_write_frame_drained_without_reply() {
    let mut p = IngestPipeline::new();
    feed(&mut p, &[0x48, 5, 3, 0xC8, 2, 0xC8, 0xC8, 3]);
    assert_eq!(serve(&mut p), vec![Response::Word(0x0190)]);
    feed(&mut p, &[0x48, 5, 0, 0xC8, 2]);
    assert_eq!(serve(&mut p), vec![Response::Word(0x4F4B)]);
}

#[test]
fn ingest_stop_releases_and_exits() {
    let mut p = IngestPipeline::new();
    feed(&mut p, &[0xC8, 2]);
    assert!(matches!(p.handle_signal(Signal::Stop, &inputs()), WorkerAction::Exit));
    assert!(p.stopped());
    assert!(!p.receive_byte(0xC8));
    assert!(matches!(p.handle_signal(Signal::DataReady, &inputs()), WorkerAction::Exit));
}

#[test]
fn ingest_full_queue_drops_incoming() {
    let mut p = IngestPipeline::new();
    for i in 0..INGEST_CAPACITY {
        assert!(p.receive_byte(if i % 2 == 0 { 0xC8 } else { 2 }));
    }
    assert!(!p.receive_byte(0xC8));
    assert_eq!(serve(&mut p).len(), INGEST_CAPACITY / 2);
}

#[test]
fn queue_order_and_wraparound() {
    let mut q = IngestQueue::new();
    assert_eq!(q.pop(), None);
    for round in 0..3u32 {
        for i in 0..INGEST_CAPACITY {
            assert!(q.push((i as u32 + round) as u8));
        }
        assert!(!q.push(0));
        assert_eq!(q.len(), INGEST_CAPACITY);
        for i in 0..INGEST_CAPACITY / 2 {
            assert_eq!(q.pop(), Some((i as u32 + round) as u8));
        }
        q.clear();
        assert_eq!(q.len(), 0);
    }
}

#[test]
fn decoder_steps() {
    assert_eq!(decode_step(DecoderState::Idle, 0x13), (DecoderState::Idle, None));
    assert_eq!(
        decode_step(DecoderState::Idle, 0xC8),
        (DecoderState::HeaderPartial { first: 0xC8 }, None)
    );
    assert_eq!(
        decode_step(DecoderState::HeaderPartial { first: 0xC8 }, 1),
        (DecoderState::Idle, Some(Register::ButtonMask))
    );
    assert_eq!(
        decode_step(DecoderState::HeaderPartial { first: 0x48 }, 1),
        (DecoderState::WriteLength, None)
    );
    assert_eq!(
        decode_step(DecoderState::WriteLength, 2),
        (DecoderState::WritePayload { remaining: 2 }, None)
    );
    assert_eq!(
        decode_step(DecoderState::WritePayload { remaining: 1 }, 0xC8),
        (DecoderState::Idle, None)
    );
}

#[test]
fn read_request_bytes() {
    assert_eq!(read_request(0), vec![0xC8, 0]);
    assert_eq!(read_request(3), vec![0xC8, 3]);
}

#[test]
fn reply_silent_link_times_out() {
    assert_eq!(decode_reply(&vec![], 2), Err(BridgeError::Timeout));
    assert_eq!(decode_reply(&vec![], 1), Err(BridgeError::Timeout));
    assert_eq!(decode_reply(&vec![0x12], 2), Err(BridgeError::Timeout));
    assert_eq!(decode_status_reply(&vec![]), Err(BridgeError::Timeout));
}

#[test]
fn reply_values_big_endian() {
    assert_eq!(decode_reply(&vec![0x01, 0x02], 2), Ok(0x0102));
    assert_eq!(decode_reply(&vec![0xFF, 0x00], 2), Ok(0xFF00));
    assert_eq!(decode_reply(&vec![0xA5], 1), Ok(0xA5));
}

#[test]
fn status_ready_only_for_token() {
    assert!(status_is_ready(0x4F4B));
    assert!(!status_is_ready(0x4B4F));
    assert!(!status_is_ready(0));
    assert_eq!(decode_status_reply(&vec![0x4F, 0x4B]), Ok(true));
    assert_eq!(decode_status_reply(&vec![0x4B, 0x4F]), Ok(false));
    assert_eq!(decode_status_reply(&vec![0x00, 0x00]), Ok(false));
}

#[test]
fn end_to_end_status() {
    let mut p = IngestPipeline::new();
    let request = read_request(2);
    feed(&mut p, &request);
    let out = serve(&mut p);
    assert_eq!(out.len(), 1);
    assert_eq!(decode_status_reply(&out[0].to_bytes()), Ok(true));
}

#[test]
fn end_to_end_color_write() {
    let request = write_request(5, &vec![255, 0, 0]).unwrap();
    assert_eq!(request, vec![0x48, 5, 3, 255, 0, 0]);
    assert_eq!(write_acknowledged(&vec![0]), Ok(true));
    for b in 1..=255u8 {
        assert_eq!(write_acknowledged(&vec![b]), Ok(false));
    }
    assert_eq!(write_acknowledged(&vec![]), Err(BridgeError::Timeout));
}

#[test]
fn batch_flushes_at_400() {
    let mut batch = SampleBatch::new();
    let mut flushes = Vec::new();
    for n in 0..BATCH_SIZE as u128 {
        if let Some(full) = batch.push(item(n)) {
            flushes.push(full);
        }
    }
    assert_eq!(flushes.len(), 1);
    assert_eq!(flushes[0].len(), 400);
    assert_eq!(flushes[0][0].timestamp, 0);
    assert_eq!(flushes[0][399].timestamp, 399);
    assert_eq!(batch.len(), 0);
    assert!(batch.push(item(400)).is_none());
    assert_eq!(batch.len(), 1);
}

#[test]
fn batch_many_cycles() {
    let mut batch = SampleBatch::new();
    let mut flushes = 0;
    for n in 0..1000u128 {
        if batch.push(item(n)).is_some() {
            flushes += 1;
        }
    }
    assert_eq!(flushes, 2);
    assert_eq!(batch.len(), 200);
}

#[test]
fn item_from_cycle_fields() {
    let it = Item::from_cycle(true, false, true, 513, 4, 390, 1_700_000_000_000);
    assert!(it.rcn);
    assert!(!it.icn);
    assert!(it.shdn);
    assert_eq!(it.adc, 513);
    assert_eq!(it.btns, 4);
    assert_eq!(it.est_max_sampling_rate, 390);
    assert_eq!(it.timestamp, 1_700_000_000_000);
    assert_ne!(Emotion::Unset, Emotion::HighEGood);
}

#[test]
fn key_events() {
    let mut s = InputState::new();
    s.apply(Key::Up, KeyAction::Press);
    s.apply(Key::Right, KeyAction::Long);
    assert_eq!(s.mask, 0b1001);
    s.apply(Key::Left, KeyAction::Repeat);
    assert_eq!(s.mask, 0b1001);
    s.apply(Key::Up, KeyAction::Release);
    assert_eq!(s.mask, 0b1000);
    s.apply(Key::Center, KeyAction::Short);
    assert_eq!(s.mask, 0b1000);
    assert!(!s.exit);
    s.apply(Key::Back, KeyAction::Release);
    assert!(s.exit);
    assert_eq!(s.mask, 0b1000);
}
