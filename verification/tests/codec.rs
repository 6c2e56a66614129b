use tarantas::codec::{
    ControlCodec, DecodeResult, EncodeError, EngineCodec, FeedResult, MAX_MESSAGE_SIZE,
};

/// Payload of `Command::System(SystemCmd::Ping(n))`, as postcard serializes it.
fn ping_payload(n: u32) -> Vec<u8> {
    postcard::to_allocvec(&(2u32, 0u32, n)).unwrap()
}

/// Payload of `Report::Pong(n)`.
fn pong_payload(n: u32) -> Vec<u8> {
    postcard::to_allocvec(&(2u32, n)).unwrap()
}

/// Payload of `Command::Move(MoveCmd { left, right, accel_secs })`.
fn move_payload(left: f32, right: f32, accel_secs: f32) -> Vec<u8> {
    postcard::to_allocvec(&(0u32, left, right, accel_secs)).unwrap()
}

/// Feeds every byte to the engine codec and collects the complete frames.
fn engine_frames(engine: &mut EngineCodec, wire: &[u8]) -> Vec<Vec<u8>> {
    let mut out = Vec::new();
    for &b in wire {
        if let DecodeResult::Complete(f) = engine.decode(b) {
            out.push(f);
        }
    }
    out
}

fn control_frames(control: &mut ControlCodec, wire: &[u8]) -> Vec<Vec<u8>> {
    let mut out = Vec::new();
    for &b in wire {
        if let DecodeResult::Complete(f) = control.decode(b) {
            out.push(f);
        }
    }
    out
}

#[test]
fn test_engine_codec_roundtrip() {
    let mut control = ControlCodec::new();
    let mut engine = EngineCodec::new();
    let mut wire = Vec::new();

    // control encodes a Ping(42) command
    wire.extend_from_slice(control.encode(&ping_payload(42)).unwrap());

    // engine decodes it
    let mut frames = engine_frames(&mut engine, &wire);
    assert_eq!(frames.len(), 1);
    let cmd: (u32, u32, u32) = postcard::from_bytes_cobs(&mut frames[0]).unwrap();
    assert_eq!(cmd, (2, 0, 42));

    // engine encodes a Pong(42) report
    wire.clear();
    wire.extend_from_slice(engine.encode(&pong_payload(42)).unwrap());

    // control decodes it
    let mut frames = control_frames(&mut control, &wire);
    assert_eq!(frames.len(), 1);
    let report: (u32, u32) = postcard::from_bytes_cobs(&mut frames[0]).unwrap();
    assert_eq!(report, (2, 42));
}

#[test]
fn test_multiple_messages() {
    let mut control = ControlCodec::new();
    let mut engine = EngineCodec::new();
    let mut wire = Vec::new();

    let cmds = vec![ping_payload(1), move_payload(0.0, 0.0, 0.0), move_payload(0.5, 0.5, 0.0)];
    for cmd in &cmds {
        wire.extend_from_slice(control.encode(cmd).unwrap());
    }
    let mut frames = engine_frames(&mut engine, &wire);
    assert_eq!(frames.len(), cmds.len());
    let ping: (u32, u32, u32) = postcard::from_bytes_cobs(&mut frames[0]).unwrap();
    assert_eq!(ping, (2, 0, 1));
    let stop: (u32, f32, f32, f32) = postcard::from_bytes_cobs(&mut frames[1]).unwrap();
    assert_eq!(stop, (0, 0.0, 0.0, 0.0));
    let drive: (u32, f32, f32, f32) = postcard::from_bytes_cobs(&mut frames[2]).unwrap();
    assert_eq!(drive, (0, 0.5, 0.5, 0.0));

    // engine sends reports back
    wire.clear();
    let reports = vec![
        pong_payload(1),
        postcard::to_allocvec(&(1u32, 0u32)).unwrap(),
        postcard::to_allocvec(&(0u32, 2u32, 150.5f32, 148.2f32, 120.0f32, 118.5f32)).unwrap(),
    ];
    for report in &reports {
        wire.extend_from_slice(engine.encode(report).unwrap());
    }
    let mut frames = control_frames(&mut control, &wire);
    assert_eq!(frames.len(), reports.len());
    let pong: (u32, u32) = postcard::from_bytes_cobs(&mut frames[0]).unwrap();
    assert_eq!(pong, (2, 1));
    let ready: (u32, u32) = postcard::from_bytes_cobs(&mut frames[1]).unwrap();
    assert_eq!(ready, (1, 0));
    let telemetry: (u32, u32, f32, f32, f32, f32) =
        postcard::from_bytes_cobs(&mut frames[2]).unwrap();
    assert_eq!(telemetry, (0, 2, 150.5, 148.2, 120.0, 118.5));
}

#[test]
fn test_empty_delimiter() {
    let mut engine = EngineCodec::new();
    assert!(matches!(engine.decode(0x00), DecodeResult::Pending));
}

#[test]
fn test_overflow_recovery() {
    let mut engine = EngineCodec::new();

    // overflow the buffer
    for _ in 0..MAX_MESSAGE_SIZE {
        assert!(matches!(engine.decode(0xFF), DecodeResult::Pending));
    }
    assert!(matches!(engine.decode(0xFF), DecodeResult::Pending));
    assert!(matches!(engine.decode(0x00), DecodeResult::Overflow));

    // the next valid frame decodes
    let mut control = ControlCodec::new();
    let bytes = control.encode(&ping_payload(99)).unwrap().to_vec();
    let mut frames = engine_frames(&mut engine, &bytes);
    assert_eq!(frames.len(), 1);
    let cmd: (u32, u32, u32) = postcard::from_bytes_cobs(&mut frames[0]).unwrap();
    assert_eq!(cmd, (2, 0, 99));
}

#[test]
fn encode_matches_postcard_cobs_framing() {
    let mut control = ControlCodec::new();
    let value = (0u32, 0.5f32, -0.3f32, 0.0f32);
    let payload = postcard::to_allocvec(&value).unwrap();
    let mut expected = [0u8; 64];
    let expected = postcard::to_slice_cobs(&value, &mut expected).unwrap().to_vec();
    assert_eq!(control.encode(&payload).unwrap(), &expected[..]);
}

#[test]
fn encode_ping_exact_bytes() {
    // payload [2, 0, 42] has one zero: two COBS blocks, then the sentinel
    let mut control = ControlCodec::new();
    assert_eq!(control.encode(&[2, 0, 42]).unwrap(), &[2, 2, 2, 42, 0]);
}

#[test]
fn encode_empty_payload_is_header_and_sentinel() {
    let mut engine = EngineCodec::new();
    assert_eq!(engine.encode(&[]).unwrap(), &[1, 0]);
}

#[test]
fn encode_too_large_fails() {
    let mut engine = EngineCodec::new();
    let payload = vec![7u8; 300];
    assert_eq!(engine.encode(&payload).unwrap_err(), EncodeError::SerializeBufferFull);
    // a run of 254 non-zero bytes needs a second block: it no longer fits
    let payload = vec![7u8; 253];
    assert_eq!(engine.encode(&payload).unwrap().len(), 255);
    let payload = vec![7u8; 254];
    assert_eq!(engine.encode(&payload).unwrap_err(), EncodeError::SerializeBufferFull);
    // a frame that fills the buffer exactly
    let mut payload = vec![0u8];
    payload.extend_from_slice(&[7u8; 253]);
    assert_eq!(engine.encode(&payload).unwrap().len(), MAX_MESSAGE_SIZE);
}

#[test]
fn encode_leaves_decoder_state() {
    let mut engine = EngineCodec::new();
    assert!(matches!(engine.decode(5), DecodeResult::Pending));
    assert!(matches!(engine.decode(6), DecodeResult::Pending));
    let _ = engine.encode(&[1, 2, 3]).unwrap();
    match engine.decode(0) {
        DecodeResult::Complete(f) => assert_eq!(f, vec![5, 6]),
        other => panic!("unexpected {:?}", other),
    }
}

#[test]
fn frame_delivered_at_sentinel_then_idle() {
    let mut engine = EngineCodec::new();
    for b in [3u8, 1, 4] {
        assert!(matches!(engine.decode(b), DecodeResult::Pending));
    }
    match engine.decode(0) {
        DecodeResult::Complete(f) => assert_eq!(f, vec![3, 1, 4]),
        other => panic!("unexpected {:?}", other),
    }
    // idle again: a lone sentinel is ignored
    assert!(matches!(engine.decode(0), DecodeResult::Pending));
}

#[test]
fn full_frame_is_delivered_one_more_byte_overflows() {
    let mut engine = EngineCodec::new();
    for _ in 0..MAX_MESSAGE_SIZE {
        assert!(matches!(engine.decode(9), DecodeResult::Pending));
    }
    match engine.decode(0) {
        DecodeResult::Complete(f) => assert_eq!(f.len(), MAX_MESSAGE_SIZE),
        other => panic!("unexpected {:?}", other),
    }
    for _ in 0..MAX_MESSAGE_SIZE + 1 {
        assert!(matches!(engine.decode(9), DecodeResult::Pending));
    }
    assert!(matches!(engine.decode(0), DecodeResult::Overflow));
    assert!(matches!(engine.decode(0), DecodeResult::Pending));
}

#[test]
fn feed_stops_after_first_frame() {
    let mut control = ControlCodec::new();
    let wire = [1u8, 2, 0, 3, 4, 0, 5];
    match control.feed(&wire) {
        FeedResult::Complete(f, n) => {
            assert_eq!(f, vec![1, 2]);
            assert_eq!(n, 3);
        }
        other => panic!("unexpected {:?}", other),
    }
    let rest = &wire[3..];
    let r = control.feed(rest);
    assert_eq!(r.consumed(rest.len()), 3);
    match r {
        FeedResult::Complete(f, _) => assert_eq!(f, vec![3, 4]),
        other => panic!("unexpected {:?}", other),
    }
    let rest = &wire[6..];
    let r = control.feed(rest);
    assert!(matches!(r, FeedResult::Pending));
    assert_eq!(r.consumed(rest.len()), 1);
    // the pending byte stays in the decoder
    match control.feed(&[0]) {
        FeedResult::Complete(f, 1) => assert_eq!(f, vec![5]),
        other => panic!("unexpected {:?}", other),
    }
}

#[test]
fn feed_reports_overflow_with_count() {
    let mut engine = EngineCodec::new();
    let mut wire = vec![1u8; MAX_MESSAGE_SIZE + 3];
    wire.push(0);
    wire.push(8);
    let r = engine.feed(&wire);
    assert_eq!(r.consumed(wire.len()), MAX_MESSAGE_SIZE + 4);
    assert!(matches!(r, FeedResult::Overflow(n) if n == MAX_MESSAGE_SIZE + 4));
}

#[test]
fn feed_empty_chunk_is_pending() {
    let mut engine = EngineCodec::default();
    let r = engine.feed(&[]);
    assert!(matches!(r, FeedResult::Pending));
    assert_eq!(r.consumed(0), 0);
}

#[test]
fn short_payloads_always_fit_two_bytes_longer() {
    let mut engine = EngineCodec::new();
    for len in [0usize, 1, 17, 200, 253] {
        let payload: Vec<u8> = (0..len).map(|i| (i % 7) as u8).collect();
        assert_eq!(engine.encode(&payload).unwrap().len(), len + 2);
    }
    let payload = vec![0u8; 253];
    assert_eq!(engine.encode(&payload).unwrap().len(), 255);
}

#[test]
fn chunks_decode_like_the_whole_stream() {
    let mut control = ControlCodec::new();
    let mut wire = Vec::new();
    wire.extend_from_slice(control.encode(&ping_payload(1)).unwrap());
    wire.extend_from_slice(control.encode(&ping_payload(2)).unwrap());
    wire.extend_from_slice(&[1u8; MAX_MESSAGE_SIZE + 1]);
    wire.push(0);
    wire.extend_from_slice(control.encode(&ping_payload(3)).unwrap());

    let mut whole = EngineCodec::new();
    let all: Vec<String> = whole.decode_chunk(&wire).iter().map(|r| format!("{:?}", r)).collect();
    assert_eq!(all.len(), 4);
    assert!(all[2].starts_with("Overflow"));

    for cut in [1usize, 3, 5, 7, 100, wire.len() - 1] {
        let mut split = EngineCodec::new();
        let mut parts: Vec<String> =
            split.decode_chunk(&wire[..cut]).iter().map(|r| format!("{:?}", r)).collect();
        parts.extend(split.decode_chunk(&wire[cut..]).iter().map(|r| format!("{:?}", r)));
        assert_eq!(parts, all);
    }

    let mut bytewise = EngineCodec::new();
    let mut third = None;
    let mut count = 0;
    for &b in &wire {
        match bytewise.decode(b) {
            DecodeResult::Pending => {}
            DecodeResult::Complete(f) => {
                count += 1;
                if count == 4 {
                    third = Some(f);
                }
            }
            DecodeResult::Overflow => count += 1,
        }
    }
    let mut third = third.unwrap();
    let cmd: (u32, u32, u32) = postcard::from_bytes_cobs(&mut third).unwrap();
    assert_eq!(cmd, (2, 0, 3));
}
