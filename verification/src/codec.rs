//! COBS framing for the serial link (postcard + COBS on the wire).
//!
//! Two codecs share the same framing:
//! - [`EngineCodec`]: decodes commands, encodes reports (engine side);
//! - [`ControlCodec`]: decodes reports, encodes commands (control side).
//!
//! A frame on the wire is the COBS encoding of a payload followed by the
//! sentinel `0x00`. Decoding collects the bytes of one frame, byte by byte,
//! until the sentinel arrives; frames longer than [`MAX_MESSAGE_SIZE`] are
//! discarded. Encoding frames a payload into a buffer of
//! [`MAX_MESSAGE_SIZE`] bytes.
use vstd::prelude::*;
use postcard::ser_flavors::Flavor;
use vstd::slice::{slice_subrange, slice_to_vec};

verus! {

/// Maximum size of a frame on the wire, and of the encoding buffer.
pub const MAX_MESSAGE_SIZE: usize = 256;

/// The longest payload that always fits in a frame: its COBS encoding needs
/// no extra code byte, so its frame is two bytes longer.
pub const MAX_SHORT_PAYLOAD: usize = 253;

/// What a decoder holds between two bytes: the bytes of the current frame
/// received so far, and whether the current frame has overflowed.
pub struct DecoderState {
    pub frame: Seq<u8>,
    pub overflow: bool,
}

/// The outcome of one byte or one chunk of bytes, as a mathematical value.
pub enum FrameEvent {
    /// A sentinel closed a frame of this COBS-encoded body.
    Frame(Seq<u8>),
    /// The byte was consumed; no frame is complete yet.
    Pending,
    /// A sentinel closed a frame that was too long; it was discarded.
    Overflow,
}

/// The state of a decoder that holds nothing.
pub open spec fn idle() -> DecoderState {
    DecoderState { frame: Seq::empty(), overflow: false }
}

/// A state a decoder can be in: it holds at most [`MAX_MESSAGE_SIZE`] bytes,
/// and a frame has overflowed only once it filled them all.
pub open spec fn valid_state(s: DecoderState) -> bool {
    &&& s.frame.len() <= MAX_MESSAGE_SIZE
    &&& s.overflow ==> s.frame.len() == MAX_MESSAGE_SIZE
}

/// One byte fed to a decoder in state `s`: the next state and the event.
pub open spec fn push_step(s: DecoderState, byte: u8) -> (DecoderState, FrameEvent) {
    if byte == 0 {
        if s.overflow {
            (idle(), FrameEvent::Overflow)
        } else if s.frame.len() == 0 {
            (s, FrameEvent::Pending)
        } else {
            (idle(), FrameEvent::Frame(s.frame))
        }
    } else if s.overflow || s.frame.len() >= MAX_MESSAGE_SIZE {
        (DecoderState { frame: s.frame, overflow: true }, FrameEvent::Pending)
    } else {
        (DecoderState { frame: s.frame.push(byte), overflow: false }, FrameEvent::Pending)
    }
}

/// A chunk of bytes fed to a decoder in state `s`, byte by byte, stopping
/// right after the first byte whose event is not `Pending`: the next state,
/// that event (`Pending` when there is none) and the number of bytes consumed.
pub open spec fn feed_steps(s: DecoderState, data: Seq<u8>) -> (DecoderState, FrameEvent, int)
    decreases data.len(),
{
    if data.len() == 0 {
        (s, FrameEvent::Pending, 0)
    } else {
        let (s1, ev) = push_step(s, data[0]);
        match ev {
            FrameEvent::Pending => {
                let (s2, ev2, n) = feed_steps(s1, data.drop_first());
                (s2, ev2, n + 1)
            },
            _ => (s1, ev, 1),
        }
    }
}

/// No byte of `s` is the sentinel.
pub open spec fn zero_free(s: Seq<u8>) -> bool {
    forall|i: int| 0 <= i < s.len() ==> #[trigger] s[i] != 0
}

/// `f` is a frame as it travels on the wire: a non-empty body without any
/// zero byte, then the sentinel, and no longer than [`MAX_MESSAGE_SIZE`].
pub open spec fn is_wire_frame(f: Seq<u8>) -> bool {
    &&& 2 <= f.len() <= MAX_MESSAGE_SIZE
    &&& f.last() == 0
    &&& zero_free(f.drop_last())
}

/// Result of feeding a single byte into a codec.
#[derive(Debug)]
pub enum DecodeResult {
    /// A frame is complete; this is its COBS-encoded body (the sentinel is
    /// not included), ready to be decoded into a value.
    Complete(Vec<u8>),
    /// Byte consumed, no complete frame yet.
    Pending,
    /// An oversized frame was discarded (returned on its closing `0x00`).
    Overflow,
}

impl DecodeResult {
    pub open spec fn event(&self) -> FrameEvent {
        match self {
            DecodeResult::Complete(f) => FrameEvent::Frame(f@),
            DecodeResult::Pending => FrameEvent::Pending,
            DecodeResult::Overflow => FrameEvent::Overflow,
        }
    }
}

/// The events of a sequence of results.
pub open spec fn events(results: Seq<DecodeResult>) -> Seq<FrameEvent> {
    results.map_values(|r: DecodeResult| r.event())
}

/// Result of feeding a chunk of bytes into a codec.
#[derive(Debug)]
pub enum FeedResult {
    /// A frame is complete after this many bytes; the rest was not consumed.
    Complete(Vec<u8>, usize),
    /// An oversized frame was discarded after this many bytes; the rest was
    /// not consumed.
    Overflow(usize),
    /// Every byte was consumed and no frame is complete yet.
    Pending,
}

impl FeedResult {
    pub open spec fn event(&self) -> FrameEvent {
        match self {
            FeedResult::Complete(f, _) => FrameEvent::Frame(f@),
            FeedResult::Overflow(_) => FrameEvent::Overflow,
            FeedResult::Pending => FrameEvent::Pending,
        }
    }

    /// How many of `available` bytes were consumed.
    pub open spec fn spec_consumed(&self, available: int) -> int {
        match self {
            FeedResult::Complete(_, n) => *n as int,
            FeedResult::Overflow(n) => *n as int,
            FeedResult::Pending => available,
        }
    }

    /// How many bytes of a chunk of `available` bytes were consumed, so that
    /// the caller can drop them from its input.
    pub fn consumed(&self, available: usize) -> (n: usize)
        ensures
            n == self.spec_consumed(available as int),
    {
        match self {
            FeedResult::Complete(_, n) => *n,
            FeedResult::Overflow(n) => *n,
            FeedResult::Pending => available,
        }
    }
}

/// Accumulator for COBS frames: collects incoming bytes until a complete
/// frame is formed or an overflow occurs.
pub struct CobsAccumulator {
    buf: [u8; MAX_MESSAGE_SIZE],
    len: usize,
    overflow: bool,
}

impl CobsAccumulator {
    #[verifier::type_invariant]
    spec fn inv(self) -> bool {
        &&& self.len <= MAX_MESSAGE_SIZE
        &&& self.overflow ==> self.len == MAX_MESSAGE_SIZE
    }

    /// The decoder state this accumulator holds.
    pub closed spec fn state(&self) -> DecoderState {
        DecoderState { frame: self.buf@.take(self.len as int), overflow: self.overflow }
    }

    /// An accumulator that holds nothing.
    pub fn new() -> (acc: CobsAccumulator)
        ensures
            acc.state() == idle(),
            valid_state(acc.state()),
    {
        let acc = CobsAccumulator { buf: [0u8; MAX_MESSAGE_SIZE], len: 0, overflow: false };
        assert(acc.state().frame =~= Seq::<u8>::empty());
        acc
    }

    /// Feeds one byte.
    pub fn push(&mut self, byte: u8) -> (res: DecodeResult)
        ensures
            valid_state(final(self).state()),
            !(res is Pending) ==> byte == 0,
            (final(self).state(), res.event()) == push_step(old(self).state(), byte),
    {
        proof {
            use_type_invariant(&*self);
        }
        let res = self.push_byte(byte);
        proof {
            use_type_invariant(&*self);
        }
        res
    }

    fn push_byte(&mut self, byte: u8) -> (res: DecodeResult)
        ensures
            (final(self).state(), res.event()) == push_step(old(self).state(), byte),
    {
        proof {
            use_type_invariant(&*self);
        }
        let ghost s = self.state();
        if byte == 0 {
            if self.overflow {
                self.overflow = false;
                self.len = 0;
                assert(self.state().frame =~= Seq::<u8>::empty());
                return DecodeResult::Overflow;
            }
            if self.len == 0 {
                return DecodeResult::Pending;
            }
            let frame = slice_to_vec(slice_subrange(self.buf.as_slice(), 0, self.len));
            self.len = 0;
            assert(self.state().frame =~= Seq::<u8>::empty());
            assert(frame@ =~= s.frame);
            DecodeResult::Complete(frame)
        } else if self.overflow || self.len >= MAX_MESSAGE_SIZE {
            self.overflow = true;
            DecodeResult::Pending
        } else {
            self.buf[self.len] = byte;
            self.len = self.len + 1;
            assert(self.state().frame =~= s.frame.push(byte));
            DecodeResult::Pending
        }
    }

    /// Feeds a chunk of bytes, stopping after the first complete or
    /// discarded frame.
    pub fn feed(&mut self, data: &[u8]) -> (res: FeedResult)
        ensures
            valid_state(final(self).state()),
            feed_steps(old(self).state(), data@) == (
                final(self).state(),
                res.event(),
                res.spec_consumed(data@.len() as int),
            ),
    {
        proof {
            use_type_invariant(&*self);
        }
        let ghost start = self.state();
        let mut i: usize = 0;
        assert(data@.skip(0) =~= data@);
        while i < data.len()
            invariant
                0 <= i <= data@.len(),
                start == old(self).state(),
                valid_state(self.state()),
                ({
                    let (s2, ev2, n2) = feed_steps(self.state(), data@.skip(i as int));
                    feed_steps(start, data@) == (s2, ev2, n2 + i)
                }),
            decreases data.len() - i,
        {
            let ghost s = self.state();
            let ghost rest = data@.skip(i as int);
            assert(rest[0] == data@[i as int]);
            assert(rest.drop_first() =~= data@.skip(i + 1));
            let r = self.push(data[i]);
            assert(feed_steps(s, rest) == (self.state(), r.event(), 1int) || r is Pending);
            match r {
                DecodeResult::Complete(f) => {
                    return FeedResult::Complete(f, i + 1);
                },
                DecodeResult::Overflow => {
                    return FeedResult::Overflow(i + 1);
                },
                DecodeResult::Pending => {},
            }
            i = i + 1;
        }
        assert(data@.skip(i as int) =~= Seq::<u8>::empty());
        FeedResult::Pending
    }

    /// Feeds every byte of a chunk; returns, in order, every result that is
    /// not `Pending`.
    pub fn push_all(&mut self, data: &[u8]) -> (results: Vec<DecodeResult>)
        ensures
            valid_state(final(self).state()),
            scan(old(self).state(), data@) == (final(self).state(), events(results@)),
    {
        proof {
            use_type_invariant(&*self);
        }
        let ghost start = self.state();
        let mut results: Vec<DecodeResult> = Vec::new();
        let mut i: usize = 0;
        assert(data@.skip(0) =~= data@);
        assert(events(results@) + scan(start, data@).1 =~= scan(start, data@).1);
        while i < data.len()
            invariant
                0 <= i <= data@.len(),
                start == old(self).state(),
                valid_state(self.state()),
                ({
                    let (s2, evs) = scan(self.state(), data@.skip(i as int));
                    scan(start, data@) == (s2, events(results@) + evs)
                }),
            decreases data.len() - i,
        {
            let ghost rest = data@.skip(i as int);
            let ghost before = events(results@);
            assert(rest[0] == data@[i as int]);
            assert(rest.drop_first() =~= data@.skip(i + 1));
            let r = self.push(data[i]);
            let ghost ev = r.event();
            let ghost tail = scan(self.state(), data@.skip(i + 1)).1;
            match r {
                DecodeResult::Pending => {},
                _ => {
                    results.push(r);
                    assert(events(results@) =~= before.push(ev));
                    assert(before.push(ev) + tail =~= before + (seq![ev] + tail));
                },
            }
            i = i + 1;
        }
        assert(data@.skip(i as int) =~= Seq::<u8>::empty());
        assert(events(results@) + Seq::<FrameEvent>::empty() =~= events(results@));
        results
    }
}


/// postcard's error type, carried as an opaque value.
#[verifier::external_type_specification]
#[verifier::external_body]
pub struct ExPostcardError(postcard::Error);

/// The bytes that postcard's COBS serialization flavor writes for a payload:
/// its COBS encoding followed by the sentinel `0x00`.
pub uninterp spec fn cobs_frame(payload: Seq<u8>) -> Seq<u8>;

/// Frames `payload` into `buf` through postcard's COBS flavor over a slice
/// (`postcard::ser_flavors::Cobs` over `postcard::ser_flavors::Slice`, the
/// flavors that `postcard::to_slice_cobs` serializes a value into).
///
/// Trusted: it succeeds exactly when the frame fits in `buf`, and then the
/// first bytes of `buf` are the frame, which ends with the sentinel, holds no
/// other zero byte and has at least one byte before the sentinel. The frame
/// has a code byte, every payload byte and the sentinel; a payload of at most
/// [`MAX_SHORT_PAYLOAD`] bytes holds no run of 254 non-zero bytes, so its
/// frame is exactly two bytes longer and always fits. What `buf` holds after
/// a failure is not stated.
#[verifier::external_body]
fn frame_into(payload: &[u8], buf: &mut [u8; MAX_MESSAGE_SIZE]) -> (res: Result<
    usize,
    postcard::Error,
>)
    ensures
        res is Ok <==> cobs_frame(payload@).len() <= MAX_MESSAGE_SIZE,
        res matches Ok(n) ==> {
            &&& n == cobs_frame(payload@).len()
            &&& final(buf)@.take(n as int) == cobs_frame(payload@)
            &&& is_wire_frame(final(buf)@.take(n as int))
            &&& n >= payload@.len() + 2
            &&& payload@.len() <= MAX_SHORT_PAYLOAD ==> n == payload@.len() + 2
        },
        payload@.len() <= MAX_SHORT_PAYLOAD ==> res is Ok,
{
    let slice = postcard::ser_flavors::Slice::new(&mut buf[..]);
    let mut flavor = postcard::ser_flavors::Cobs::try_new(slice)?;
    flavor.try_extend(payload)?;
    let out = flavor.finalize()?;
    Ok(out.len())
}

/// Errors of encoding a frame.
#[derive(Clone, Copy, Debug, PartialEq, Eq, Structural)]
pub enum EncodeError {
    /// The frame does not fit in the [`MAX_MESSAGE_SIZE`] bytes of the
    /// encoding buffer.
    SerializeBufferFull,
}

/// Frames `payload` into `buf`; returns the length of the frame.
fn encode_cobs(payload: &[u8], buf: &mut [u8; MAX_MESSAGE_SIZE]) -> (res: Result<
    usize,
    EncodeError,
>)
    ensures
        res is Ok <==> cobs_frame(payload@).len() <= MAX_MESSAGE_SIZE,
        res matches Ok(n) ==> {
            &&& n == cobs_frame(payload@).len()
            &&& final(buf)@.take(n as int) == cobs_frame(payload@)
            &&& is_wire_frame(cobs_frame(payload@))
            &&& n >= payload@.len() + 2
        },
        payload@.len() <= MAX_SHORT_PAYLOAD ==> (res matches Ok(n) && n == payload@.len() + 2),
        res matches Err(e) ==> e == EncodeError::SerializeBufferFull,
{
    match frame_into(payload, buf) {
        Ok(n) => Ok(n),
        Err(_) => Err(EncodeError::SerializeBufferFull),
    }
}

/// Codec for the engine side: decodes commands, encodes reports.
pub struct EngineCodec {
    acc: CobsAccumulator,
    encode_buf: [u8; MAX_MESSAGE_SIZE],
}

impl EngineCodec {
    /// The state of this codec's decoder.
    pub closed spec fn decoder(&self) -> DecoderState {
        self.acc.state()
    }

    /// A codec whose decoder is idle.
    pub fn new() -> (c: EngineCodec)
        ensures
            c.decoder() == idle(),
            valid_state(c.decoder()),
    {
        EngineCodec { acc: CobsAccumulator::new(), encode_buf: [0u8; MAX_MESSAGE_SIZE] }
    }

    /// Feeds a single byte from the UART. Returns the body of a command's
    /// frame when a complete frame arrives.
    pub fn decode(&mut self, byte: u8) -> (res: DecodeResult)
        ensures
            valid_state(final(self).decoder()),
            !(res is Pending) ==> byte == 0,
            (final(self).decoder(), res.event()) == push_step(old(self).decoder(), byte),
    {
        self.acc.push(byte)
    }

    /// Feeds every byte of a chunk read from the UART; returns, in order,
    /// every result that is not `Pending` (completed and discarded frames).
    pub fn decode_chunk(&mut self, data: &[u8]) -> (results: Vec<DecodeResult>)
        ensures
            valid_state(final(self).decoder()),
            scan(old(self).decoder(), data@) == (final(self).decoder(), events(results@)),
    {
        self.acc.push_all(data)
    }

    /// Feeds a chunk of bytes, stopping after the first complete or
    /// discarded frame.
    pub fn feed(&mut self, data: &[u8]) -> (res: FeedResult)
        ensures
            valid_state(final(self).decoder()),
            feed_steps(old(self).decoder(), data@) == (
                final(self).decoder(),
                res.event(),
                res.spec_consumed(data@.len() as int),
            ),
    {
        self.acc.feed(data)
    }

    /// Frames the payload of a report (its serialized bytes) into
    /// COBS-framed bytes, ready to be written to the UART. The decoder is
    /// left as it was.
    pub fn encode(&mut self, payload: &[u8]) -> (res: Result<&[u8], EncodeError>)
        ensures
            final(self).decoder() == old(self).decoder(),
            res is Ok <==> cobs_frame(payload@).len() <= MAX_MESSAGE_SIZE,
            res matches Ok(f) ==> f@ == cobs_frame(payload@) && is_wire_frame(f@),
            payload@.len() <= MAX_SHORT_PAYLOAD ==> (res matches Ok(f) && f@.len()
                == payload@.len() + 2),
            res matches Err(e) ==> e == EncodeError::SerializeBufferFull,
    {
        let len: usize = encode_cobs(payload, &mut self.encode_buf)?;
        let out = slice_subrange(self.encode_buf.as_slice(), 0, len);
        assert(out@ =~= self.encode_buf@.take(len as int));
        Ok(out)
    }
}

impl Default for EngineCodec {
    fn default() -> (c: EngineCodec)
        ensures
            c.decoder() == idle(),
            valid_state(c.decoder()),
    {
        EngineCodec::new()
    }
}

/// Codec for the control side: decodes reports, encodes commands.
pub struct ControlCodec {
    acc: CobsAccumulator,
    encode_buf: [u8; MAX_MESSAGE_SIZE],
}

impl ControlCodec {
    /// The state of this codec's decoder.
    pub closed spec fn decoder(&self) -> DecoderState {
        self.acc.state()
    }

    /// A codec whose decoder is idle.
    pub fn new() -> (c: ControlCodec)
        ensures
            c.decoder() == idle(),
            valid_state(c.decoder()),
    {
        ControlCodec { acc: CobsAccumulator::new(), encode_buf: [0u8; MAX_MESSAGE_SIZE] }
    }

    /// Feeds a single byte. Returns the body of a report's
    /// frame when a complete frame arrives.
    pub fn decode(&mut self, byte: u8) -> (res: DecodeResult)
        ensures
            valid_state(final(self).decoder()),
            !(res is Pending) ==> byte == 0,
            (final(self).decoder(), res.event()) == push_step(old(self).decoder(), byte),
    {
        self.acc.push(byte)
    }

    /// Feeds a chunk of bytes, stopping after the first complete or
    /// discarded frame.
    pub fn feed(&mut self, data: &[u8]) -> (res: FeedResult)
        ensures
            valid_state(final(self).decoder()),
            feed_steps(old(self).decoder(), data@) == (
                final(self).decoder(),
                res.event(),
                res.spec_consumed(data@.len() as int),
            ),
    {
        self.acc.feed(data)
    }

    /// Frames the payload of a command (its serialized bytes) into
    /// COBS-framed bytes, ready to be written. The decoder is
    /// left as it was.
    pub fn encode(&mut self, payload: &[u8]) -> (res: Result<&[u8], EncodeError>)
        ensures
            final(self).decoder() == old(self).decoder(),
            res is Ok <==> cobs_frame(payload@).len() <= MAX_MESSAGE_SIZE,
            res matches Ok(f) ==> f@ == cobs_frame(payload@) && is_wire_frame(f@),
            payload@.len() <= MAX_SHORT_PAYLOAD ==> (res matches Ok(f) && f@.len()
                == payload@.len() + 2),
            res matches Err(e) ==> e == EncodeError::SerializeBufferFull,
    {
        let len: usize = encode_cobs(payload, &mut self.encode_buf)?;
        let out = slice_subrange(self.encode_buf.as_slice(), 0, len);
        assert(out@ =~= self.encode_buf@.take(len as int));
        Ok(out)
    }
}

impl Default for ControlCodec {
    fn default() -> (c: ControlCodec)
        ensures
            c.decoder() == idle(),
            valid_state(c.decoder()),
    {
        ControlCodec::new()
    }
}

/// Non-zero bytes that fit are appended to the current frame, one `Pending`
/// each.
proof fn lemma_feed_fill(s: DecoderState, seg: Seq<u8>, rest: Seq<u8>)
    requires
        !s.overflow,
        s.frame.len() + seg.len() <= MAX_MESSAGE_SIZE,
        zero_free(seg),
    ensures
        ({
            let (s2, ev, n) = feed_steps(
                DecoderState { frame: s.frame + seg, overflow: false },
                rest,
            );
            feed_steps(s, seg + rest) == (s2, ev, n + seg.len())
        }),
    decreases seg.len(),
{
    if seg.len() > 0 {
        let s1 = DecoderState { frame: s.frame.push(seg[0]), overflow: false };
        let tail = seg.drop_first();
        assert((seg + rest)[0] == seg[0]);
        assert((seg + rest).drop_first() =~= tail + rest);
        assert forall|i: int| 0 <= i < tail.len() implies #[trigger] tail[i] != 0 by {
            assert(tail[i] == seg[i + 1]);
        }
        lemma_feed_fill(s1, tail, rest);
        assert(s1.frame + tail =~= s.frame + seg);
    } else {
        assert(seg + rest =~= rest);
        assert(s.frame + seg =~= s.frame);
    }
}

/// Non-zero bytes fed to a decoder whose frame is already full keep it in
/// the overflow state, one `Pending` each.
proof fn lemma_feed_overflowing(s: DecoderState, seg: Seq<u8>, rest: Seq<u8>)
    requires
        s.overflow || s.frame.len() >= MAX_MESSAGE_SIZE,
        seg.len() > 0,
        zero_free(seg),
    ensures
        ({
            let (s2, ev, n) = feed_steps(DecoderState { frame: s.frame, overflow: true }, rest);
            feed_steps(s, seg + rest) == (s2, ev, n + seg.len())
        }),
    decreases seg.len(),
{
    let s1 = DecoderState { frame: s.frame, overflow: true };
    let tail = seg.drop_first();
    assert((seg + rest)[0] == seg[0]);
    assert((seg + rest).drop_first() =~= tail + rest);
    if tail.len() > 0 {
        assert forall|i: int| 0 <= i < tail.len() implies #[trigger] tail[i] != 0 by {
            assert(tail[i] == seg[i + 1]);
        }
        lemma_feed_overflowing(s1, tail, rest);
    } else {
        assert(tail + rest =~= rest);
    }
}

/// A frame body of one to [`MAX_MESSAGE_SIZE`] non-zero bytes, followed by
/// the sentinel, is delivered whole by an idle decoder right at the sentinel;
/// whatever follows is left unconsumed and the decoder is idle again, so the
/// next frame is delivered the same way.
pub proof fn law_frame_delivered(body: Seq<u8>, rest: Seq<u8>)
    requires
        0 < body.len() <= MAX_MESSAGE_SIZE,
        zero_free(body),
    ensures
        feed_steps(idle(), body.push(0) + rest) == (
            idle(),
            FrameEvent::Frame(body),
            body.len() + 1 as int,
        ),
{
    let tail = seq![0u8] + rest;
    assert(body.push(0) + rest =~= body + tail);
    lemma_feed_fill(idle(), body, tail);
    assert(idle().frame + body =~= body);
    assert(tail[0] == 0);
    assert(tail.drop_first() =~= rest);
}

/// A run of more than [`MAX_MESSAGE_SIZE`] non-zero bytes closed by the
/// sentinel is discarded: an idle decoder reports `Overflow` at the sentinel,
/// leaves what follows unconsumed and is idle again.
pub proof fn law_oversized_discarded(body: Seq<u8>, rest: Seq<u8>)
    requires
        body.len() > MAX_MESSAGE_SIZE,
        zero_free(body),
    ensures
        feed_steps(idle(), body.push(0) + rest) == (
            idle(),
            FrameEvent::Overflow,
            body.len() + 1 as int,
        ),
{
    let head = body.take(MAX_MESSAGE_SIZE as int);
    let more = body.skip(MAX_MESSAGE_SIZE as int);
    let tail = seq![0u8] + rest;
    assert(body.push(0) + rest =~= head + (more + tail));
    assert forall|i: int| 0 <= i < head.len() implies #[trigger] head[i] != 0 by {
        assert(head[i] == body[i]);
    }
    assert forall|i: int| 0 <= i < more.len() implies #[trigger] more[i] != 0 by {
        assert(more[i] == body[i + MAX_MESSAGE_SIZE]);
    }
    lemma_feed_fill(idle(), head, more + tail);
    let full = DecoderState { frame: idle().frame + head, overflow: false };
    lemma_feed_overflowing(full, more, tail);
    assert(tail[0] == 0);
    assert(tail.drop_first() =~= rest);
}

/// A sentinel that reaches an idle decoder (an empty frame) is consumed
/// without any event, and the decoder stays idle.
pub proof fn law_idle_sentinel()
    ensures
        push_step(idle(), 0) == (idle(), FrameEvent::Pending),
{
}

/// A sentinel always brings a decoder back to idle, whatever it held: the
/// stream resynchronizes at every frame boundary.
pub proof fn law_sentinel_resets(s: DecoderState)
    ensures
        push_step(s, 0).0 == idle(),
{
    if !s.overflow && s.frame.len() == 0 {
        assert(s.frame =~= Seq::<u8>::empty());
    }
}

/// The decoder's invariant: from a valid state every byte leads to a valid
/// state (at most [`MAX_MESSAGE_SIZE`] bytes held, and an overflowing frame
/// is full), and only the sentinel ever closes a frame, delivered or
/// discarded.
pub proof fn law_decoder_invariant(s: DecoderState, byte: u8)
    requires
        valid_state(s),
    ensures
        valid_state(push_step(s, byte).0),
        !(push_step(s, byte).1 is Pending) ==> byte == 0,
{
}

/// Feeding a chunk in two pieces is feeding it whole: when the first piece
/// leaves the decoder pending, it is consumed entirely, and feeding the
/// second piece then gives the same event and state as feeding both at once,
/// with the count shifted by the first piece's length.
pub proof fn law_feed_concat(s: DecoderState, a: Seq<u8>, b: Seq<u8>)
    requires
        feed_steps(s, a).1 is Pending,
    ensures
        feed_steps(s, a).2 == a.len(),
        ({
            let (s2, ev2, n2) = feed_steps(feed_steps(s, a).0, b);
            feed_steps(s, a + b) == (s2, ev2, n2 + a.len())
        }),
    decreases a.len(),
{
    if a.len() == 0 {
        assert(a + b =~= b);
    } else {
        let (s1, ev) = push_step(s, a[0]);
        assert((a + b)[0] == a[0]);
        assert((a + b).drop_first() =~= a.drop_first() + b);
        law_feed_concat(s1, a.drop_first(), b);
    }
}

/// Every frame as it travels on the wire is delivered by an idle decoder:
/// exactly its body, exactly when its sentinel arrives.
pub proof fn law_wire_frame_delivered(f: Seq<u8>, rest: Seq<u8>)
    requires
        is_wire_frame(f),
    ensures
        feed_steps(idle(), f + rest) == (idle(), FrameEvent::Frame(f.drop_last()), f.len() as int),
{
    let body = f.drop_last();
    assert(body.push(0) =~= f);
    law_frame_delivered(body, rest);
}

/// What one codec encodes, the other delivers: whenever encoding a payload
/// succeeds (its frame is then a wire frame), feeding that frame, followed by
/// anything, to an idle decoder yields the frame's COBS body at the sentinel,
/// consumes exactly the frame, and leaves the decoder idle for the next one.
pub proof fn law_encoded_payload_delivered(payload: Seq<u8>, rest: Seq<u8>)
    requires
        is_wire_frame(cobs_frame(payload)),
    ensures
        feed_steps(idle(), cobs_frame(payload) + rest) == (
            idle(),
            FrameEvent::Frame(cobs_frame(payload).drop_last()),
            cobs_frame(payload).len() as int,
        ),
{
    law_wire_frame_delivered(cobs_frame(payload), rest);
}

/// Every frame as it travels on the wire, fed byte by byte to an idle
/// decoder: each byte before the sentinel is consumed with `Pending` and adds
/// itself to the frame held, and the sentinel delivers the frame's body and
/// leaves the decoder idle.
pub proof fn law_wire_frame_bytes(f: Seq<u8>)
    requires
        is_wire_frame(f),
    ensures
        idle() == (DecoderState { frame: f.take(0), overflow: false }),
        forall|i: int|
            0 <= i < f.len() - 1 ==> #[trigger] push_step(
                DecoderState { frame: f.take(i), overflow: false },
                f[i],
            ) == (DecoderState { frame: f.take(i + 1), overflow: false }, FrameEvent::Pending),
        push_step(DecoderState { frame: f.take(f.len() - 1), overflow: false }, f.last()) == (
            idle(),
            FrameEvent::Frame(f.drop_last()),
        ),
{
    assert(f.take(0) =~= Seq::<u8>::empty());
    assert forall|i: int| 0 <= i < f.len() - 1 implies #[trigger] push_step(
        DecoderState { frame: f.take(i), overflow: false },
        f[i],
    ) == (DecoderState { frame: f.take(i + 1), overflow: false }, FrameEvent::Pending) by {
        assert(f[i] == f.drop_last()[i]);
        assert(f.take(i).push(f[i]) =~= f.take(i + 1));
    }
    assert(f.take(f.len() - 1) =~= f.drop_last());
}

/// The events of a chunk of bytes fed byte by byte: the state after the
/// last byte, and in order every event that is not `Pending`.
pub open spec fn scan(s: DecoderState, data: Seq<u8>) -> (DecoderState, Seq<FrameEvent>)
    decreases data.len(),
{
    if data.len() == 0 {
        (s, Seq::empty())
    } else {
        let (s1, ev) = push_step(s, data[0]);
        let (s2, evs) = scan(s1, data.drop_first());
        (s2, if ev is Pending {
            evs
        } else {
            seq![ev] + evs
        })
    }
}

/// However a byte stream is cut into chunks, decoding the chunks one after
/// the other gives the events of the whole stream, in order, and the same
/// final state: frames split across chunks are delivered as if whole.
pub proof fn law_scan_concat(s: DecoderState, a: Seq<u8>, b: Seq<u8>)
    ensures
        scan(s, a + b) == (scan(scan(s, a).0, b).0, scan(s, a).1 + scan(scan(s, a).0, b).1),
    decreases a.len(),
{
    if a.len() == 0 {
        assert(a + b =~= b);
        assert(scan(s, a).1 + scan(s, b).1 =~= scan(s, b).1);
    } else {
        let (s1, ev) = push_step(s, a[0]);
        assert((a + b)[0] == a[0]);
        assert((a + b).drop_first() =~= a.drop_first() + b);
        law_scan_concat(s1, a.drop_first(), b);
        let x = scan(s1, a.drop_first()).1;
        let y = scan(scan(s1, a.drop_first()).0, b).1;
        if !(ev is Pending) {
            assert(seq![ev] + (x + y) =~= (seq![ev] + x) + y);
        }
    }
}

/// A wire frame decoded as a chunk from an idle decoder yields exactly its
/// body, and leaves the decoder idle.
pub proof fn law_wire_frame_scanned(f: Seq<u8>)
    requires
        is_wire_frame(f),
    ensures
        scan(idle(), f) == (idle(), seq![FrameEvent::Frame(f.drop_last())]),
{
    let body = f.drop_last();
    assert(f =~= body + seq![0u8]);
    lemma_scan_fill(idle(), body);
    law_scan_concat(idle(), body, seq![0u8]);
    assert(idle().frame + body =~= body);
    let full = DecoderState { frame: body, overflow: false };
    assert(seq![0u8][0] == 0);
    assert(seq![0u8].drop_first() =~= Seq::<u8>::empty());
    assert(body.len() > 0);
    assert(push_step(full, 0) == (idle(), FrameEvent::Frame(body)));
    assert(scan(idle(), Seq::<u8>::empty()) == (idle(), Seq::<FrameEvent>::empty()));
    assert(seq![FrameEvent::Frame(body)] + Seq::<FrameEvent>::empty() =~= seq![
        FrameEvent::Frame(body),
    ]);
    assert(scan(full, seq![0u8]) == (idle(), seq![FrameEvent::Frame(body)]));
    assert(Seq::<FrameEvent>::empty() + seq![FrameEvent::Frame(body)] =~= seq![
        FrameEvent::Frame(body),
    ]);
}

/// Non-zero bytes that fit are appended to the current frame without events.
proof fn lemma_scan_fill(s: DecoderState, seg: Seq<u8>)
    requires
        !s.overflow,
        s.frame.len() + seg.len() <= MAX_MESSAGE_SIZE,
        zero_free(seg),
    ensures
        scan(s, seg) == (DecoderState { frame: s.frame + seg, overflow: false }, Seq::<FrameEvent>::empty()),
    decreases seg.len(),
{
    if seg.len() > 0 {
        let s1 = DecoderState { frame: s.frame.push(seg[0]), overflow: false };
        let tail = seg.drop_first();
        assert forall|i: int| 0 <= i < tail.len() implies #[trigger] tail[i] != 0 by {
            assert(tail[i] == seg[i + 1]);
        }
        lemma_scan_fill(s1, tail);
        assert(s1.frame + tail =~= s.frame + seg);
    } else {
        assert(s.frame + seg =~= s.frame);
    }
}

/// A chunk's consumed count: the bytes up to and including the one that
/// closed a frame, delivered or discarded; every byte when none did.
pub proof fn law_consumed(res: FeedResult, available: int)
    ensures
        res matches FeedResult::Complete(_, n) ==> res.spec_consumed(available) == n,
        res matches FeedResult::Overflow(n) ==> res.spec_consumed(available) == n,
        res is Pending ==> res.spec_consumed(available) == available,
{
}

} // verus!
