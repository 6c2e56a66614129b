//! Decoding from a byte buffer that accumulates what the serial port read,
//! the way a stream decoder drains it.
use tarantas::codec::{ControlCodec, DecodeResult, EngineCodec, FeedResult};
use tokio_util::bytes::BytesMut;

/// Feeds the buffer, drops the consumed bytes, returns the body of a
/// complete frame if one was closed.
fn engine_decode(codec: &mut EngineCodec, src: &mut BytesMut) -> Option<Vec<u8>> {
    let res = codec.feed(src.as_ref());
    let n = res.consumed(src.len());
    let _ = src.split_to(n);
    match res {
        FeedResult::Complete(body, _) => Some(body),
        FeedResult::Overflow(_) => panic!("overflow"),
        FeedResult::Pending => None,
    }
}

fn control_decode(codec: &mut ControlCodec, src: &mut BytesMut) -> Option<Vec<u8>> {
    let res = codec.feed(src.as_ref());
    let n = res.consumed(src.len());
    let _ = src.split_to(n);
    match res {
        FeedResult::Complete(body, _) => Some(body),
        FeedResult::Overflow(_) => panic!("overflow"),
        FeedResult::Pending => None,
    }
}

fn ping(n: u32) -> Vec<u8> {
    postcard::to_allocvec(&(2u32, 0u32, n)).unwrap()
}

fn drive(left: f32, right: f32, accel_secs: f32) -> Vec<u8> {
    postcard::to_allocvec(&(0u32, left, right, accel_secs)).unwrap()
}

#[test]
fn test_codec_roundtrip() {
    let mut codec = ControlCodec::default();
    let mut buf = BytesMut::new();

    buf.extend_from_slice(codec.encode(&ping(42)).unwrap());
    assert!(buf.len() > 0);

    let mut engine_codec = EngineCodec::default();
    let mut decoded = engine_decode(&mut engine_codec, &mut buf).unwrap();
    let cmd: (u32, u32, u32) = postcard::from_bytes_cobs(&mut decoded).unwrap();
    assert_eq!(cmd, (2, 0, 42));
    buf.clear();

    let pong = postcard::to_allocvec(&(2u32, 123u32)).unwrap();
    buf.extend_from_slice(engine_codec.encode(&pong).unwrap());

    let mut codec = ControlCodec::default();
    let mut decoded = control_decode(&mut codec, &mut buf).unwrap();
    let report: (u32, u32) = postcard::from_bytes_cobs(&mut decoded).unwrap();
    assert_eq!(report, (2, 123));
}

#[test]
fn test_multiple_commands() {
    let mut codec = ControlCodec::default();
    let mut buf = BytesMut::new();

    let cmds = vec![ping(1), drive(0.0, 0.0, 0.0), drive(0.5, 0.5, 0.0)];
    for cmd in &cmds {
        buf.extend_from_slice(codec.encode(cmd).unwrap());
    }

    let mut engine_codec = EngineCodec::default();
    let mut first = engine_decode(&mut engine_codec, &mut buf).unwrap();
    let p: (u32, u32, u32) = postcard::from_bytes_cobs(&mut first).unwrap();
    assert_eq!(p, (2, 0, 1));
    for expected in &cmds[1..] {
        let mut body = engine_decode(&mut engine_codec, &mut buf).unwrap();
        let got: (u32, f32, f32, f32) = postcard::from_bytes_cobs(&mut body).unwrap();
        assert_eq!(postcard::to_allocvec(&got).unwrap(), *expected);
    }
    buf.clear();

    // the engine sends reports back: Pong(1), Event(Ready), Event(EmergencyStop)
    let reports = vec![
        postcard::to_allocvec(&(2u32, 1u32)).unwrap(),
        postcard::to_allocvec(&(1u32, 0u32)).unwrap(),
        postcard::to_allocvec(&(1u32, 1u32)).unwrap(),
    ];
    for report in &reports {
        buf.extend_from_slice(engine_codec.encode(report).unwrap());
    }

    let mut codec = ControlCodec::default();
    let expected = [(2u32, 1u32), (1, 0), (1, 1)];
    for want in &expected {
        let mut body = control_decode(&mut codec, &mut buf).unwrap();
        let got: (u32, u32) = postcard::from_bytes_cobs(&mut body).unwrap();
        assert_eq!(got, *want);
    }
    assert!(buf.is_empty());
}

#[test]
fn test_empty_buffer() {
    let mut codec = ControlCodec::default();
    let mut buf = BytesMut::new();
    assert_eq!(control_decode(&mut codec, &mut buf), None);
}

#[test]
fn test_tokio_codec_roundtrip() {
    let mut control = ControlCodec::default();
    let mut engine = EngineCodec::default();
    let mut buf = BytesMut::new();

    buf.extend_from_slice(control.encode(&ping(42)).unwrap());
    assert!(buf.len() > 0);
    let mut decoded = engine_decode(&mut engine, &mut buf).unwrap();
    let cmd: (u32, u32, u32) = postcard::from_bytes_cobs(&mut decoded).unwrap();
    assert_eq!(cmd, (2, 0, 42));
    buf.clear();

    buf.extend_from_slice(engine.encode(&postcard::to_allocvec(&(2u32, 123u32)).unwrap()).unwrap());
    let mut decoded = control_decode(&mut control, &mut buf).unwrap();
    let report: (u32, u32) = postcard::from_bytes_cobs(&mut decoded).unwrap();
    assert_eq!(report, (2, 123));
}

#[test]
fn test_tokio_multiple_messages() {
    let mut control = ControlCodec::default();
    let mut engine = EngineCodec::default();
    let mut buf = BytesMut::new();

    let cmds = vec![ping(1), drive(0.0, 0.0, 0.0), drive(0.5, 0.5, 0.0)];
    for cmd in &cmds {
        buf.extend_from_slice(control.encode(cmd).unwrap());
    }
    let mut first = engine_decode(&mut engine, &mut buf).unwrap();
    let p: (u32, u32, u32) = postcard::from_bytes_cobs(&mut first).unwrap();
    assert_eq!(p, (2, 0, 1));
    let mut second = engine_decode(&mut engine, &mut buf).unwrap();
    let s: (u32, f32, f32, f32) = postcard::from_bytes_cobs(&mut second).unwrap();
    assert_eq!(s, (0, 0.0, 0.0, 0.0));
    let mut third = engine_decode(&mut engine, &mut buf).unwrap();
    let d: (u32, f32, f32, f32) = postcard::from_bytes_cobs(&mut third).unwrap();
    assert_eq!(d, (0, 0.5, 0.5, 0.0));
    buf.clear();

    let reports = vec![
        postcard::to_allocvec(&(2u32, 1u32)).unwrap(),
        postcard::to_allocvec(&(1u32, 0u32)).unwrap(),
        postcard::to_allocvec(&(0u32, 2u32, 150.5f32, 148.2f32, 120.0f32, 118.5f32)).unwrap(),
    ];
    for report in &reports {
        buf.extend_from_slice(engine.encode(report).unwrap());
    }
    let mut r1 = control_decode(&mut control, &mut buf).unwrap();
    let pong: (u32, u32) = postcard::from_bytes_cobs(&mut r1).unwrap();
    assert_eq!(pong, (2, 1));
    let mut r2 = control_decode(&mut control, &mut buf).unwrap();
    let ready: (u32, u32) = postcard::from_bytes_cobs(&mut r2).unwrap();
    assert_eq!(ready, (1, 0));
    let mut r3 = control_decode(&mut control, &mut buf).unwrap();
    let telemetry: (u32, u32, f32, f32, f32, f32) = postcard::from_bytes_cobs(&mut r3).unwrap();
    assert_eq!(telemetry, (0, 2, 150.5, 148.2, 120.0, 118.5));
}

#[test]
fn test_tokio_empty_buffer() {
    let mut control = ControlCodec::default();
    let mut buf = BytesMut::new();
    assert_eq!(control_decode(&mut control, &mut buf), None);
}

#[test]
fn test_cross_codec_compatibility() {
    // chunk-fed encoding side, byte-fed decoding side
    let mut control = ControlCodec::default();
    let mut engine = EngineCodec::new();
    let mut buf = BytesMut::new();

    buf.extend_from_slice(control.encode(&drive(0.5, -0.3, 0.0)).unwrap());
    let mut decoded = None;
    for &b in buf.as_ref() {
        if let DecodeResult::Complete(c) = engine.decode(b) {
            decoded = Some(c);
        }
    }
    let mut decoded = decoded.unwrap();
    let cmd: (u32, f32, f32, f32) = postcard::from_bytes_cobs(&mut decoded).unwrap();
    assert_eq!(cmd, (0, 0.5, -0.3, 0.0));

    // byte-level encoding, chunk-fed decoding
    let bytes = engine.encode(&postcard::to_allocvec(&(2u32, 99u32)).unwrap()).unwrap().to_vec();
    let mut buf = BytesMut::from(bytes.as_slice());
    let mut decoded = control_decode(&mut control, &mut buf).unwrap();
    let report: (u32, u32) = postcard::from_bytes_cobs(&mut decoded).unwrap();
    assert_eq!(report, (2, 99));
}

#[test]
fn partial_frames_wait_for_more_bytes() {
    let mut control = ControlCodec::default();
    let mut engine = EngineCodec::default();
    let wire = control.encode(&ping(7)).unwrap().to_vec();
    let mut buf = BytesMut::from(&wire[..2]);
    assert_eq!(engine_decode(&mut engine, &mut buf), None);
    assert!(buf.is_empty());
    buf.extend_from_slice(&wire[2..]);
    let mut body = engine_decode(&mut engine, &mut buf).unwrap();
    let cmd: (u32, u32, u32) = postcard::from_bytes_cobs(&mut body).unwrap();
    assert_eq!(cmd, (2, 0, 7));
}
