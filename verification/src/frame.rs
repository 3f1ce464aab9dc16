//! Frames on the pipes to a worker: a header of twenty bytes, big-endian,
//! followed by the payload.
//!
//! | bytes | field         |
//! |-------|---------------|
//! | 0..4  | magic         |
//! | 4..6  | version       |
//! | 6..8  | kind          |
//! | 8..12 | request id    |
//! | 12..14| opcode        |
//! | 14..16| flags         |
//! | 16..20| payload length|

use vstd::prelude::*;

use crate::error::{IoFailure, IoFailureModel, IoKind};

verus! {

/// The numbers that the supervisor and its workers agree on.
#[derive(Debug, Clone, Copy, PartialEq, Eq, Structural)]
pub struct Protocol {
    pub magic: u32,
    pub version: u16,
    pub kind_request: u16,
    pub kind_response: u16,
    pub op_health: u16,
    pub op_decrypt_batch: u16,
}

/// One message on a pipe.
#[derive(Debug)]
pub struct Frame {
    pub kind: u16,
    pub request_id: u32,
    pub opcode: u16,
    pub flags: u16,
    pub payload: Vec<u8>,
}

/// A [`Frame`] with its payload as a sequence of bytes.
pub struct FrameModel {
    pub kind: u16,
    pub request_id: u32,
    pub opcode: u16,
    pub flags: u16,
    pub payload: Seq<u8>,
}

impl View for Frame {
    type V = FrameModel;

    open spec fn view(&self) -> FrameModel {
        FrameModel {
            kind: self.kind,
            request_id: self.request_id,
            opcode: self.opcode,
            flags: self.flags,
            payload: self.payload@,
        }
    }
}

/// The number of bytes in a frame's header.
pub const HEADER_LEN: usize = 20;

/// A 16-bit number in big-endian order.
pub open spec fn be16(v: u16) -> Seq<u8> {
    seq![(v / 0x100) as u8, (v % 0x100) as u8]
}

/// A 32-bit number in big-endian order.
pub open spec fn be32(v: u32) -> Seq<u8> {
    seq![
        (v / 0x100_0000) as u8,
        (v / 0x1_0000 % 0x100) as u8,
        (v / 0x100 % 0x100) as u8,
        (v % 0x100) as u8,
    ]
}

/// The 16-bit number in big-endian order at `at`.
pub open spec fn be16_at(b: Seq<u8>, at: int) -> u16 {
    (b[at] * 0x100 + b[at + 1]) as u16
}

/// The 32-bit number in big-endian order at `at`.
pub open spec fn be32_at(b: Seq<u8>, at: int) -> u32 {
    (b[at] * 0x100_0000 + b[at + 1] * 0x1_0000 + b[at + 2] * 0x100 + b[at + 3]) as u32
}

/// The bytes of a frame on a pipe.
pub open spec fn frame_bytes(proto: Protocol, f: FrameModel) -> Seq<u8> {
    be32(proto.magic) + be16(proto.version) + be16(f.kind) + be32(f.request_id) + be16(f.opcode)
        + be16(f.flags) + be32(f.payload.len() as u32) + f.payload
}

/// What the bytes received so far amount to.
pub enum FrameStatus {
    /// More bytes have to come.
    Incomplete,
    /// The header is not one of this protocol.
    Failed(IoFailureModel),
    /// The frame is there.
    Complete(FrameModel),
}

/// What the bytes `b`, received in a row, amount to.
pub open spec fn frame_status(proto: Protocol, b: Seq<u8>) -> FrameStatus {
    if b.len() < HEADER_LEN {
        FrameStatus::Incomplete
    } else if be32_at(b, 0) != proto.magic {
        FrameStatus::Failed(
            IoFailureModel { kind: IoKind::InvalidData, message: "bad ipc magic"@ },
        )
    } else if be16_at(b, 4) != proto.version {
        FrameStatus::Failed(
            IoFailureModel { kind: IoKind::InvalidData, message: "bad ipc version"@ },
        )
    } else if b.len() < HEADER_LEN + be32_at(b, 16) {
        FrameStatus::Incomplete
    } else {
        FrameStatus::Complete(
            FrameModel {
                kind: be16_at(b, 6),
                request_id: be32_at(b, 8),
                opcode: be16_at(b, 12),
                flags: be16_at(b, 14),
                payload: b.subrange(HEADER_LEN as int, HEADER_LEN + be32_at(b, 16)),
            },
        )
    }
}

/// How many bytes are to be read next, when `b` has been received: the rest of
/// the header, or the rest of the payload.
pub open spec fn frame_wanted(b: Seq<u8>) -> int {
    if b.len() < HEADER_LEN {
        HEADER_LEN - b.len()
    } else {
        HEADER_LEN + be32_at(b, 16) - b.len()
    }
}

fn push_be16(out: &mut Vec<u8>, v: u16)
    ensures
        final(out)@ == old(out)@ + be16(v),
{
    out.push((v / 0x100) as u8);
    out.push((v % 0x100) as u8);
}

fn push_be32(out: &mut Vec<u8>, v: u32)
    ensures
        final(out)@ == old(out)@ + be32(v),
{
    out.push((v / 0x100_0000) as u8);
    out.push((v / 0x1_0000 % 0x100) as u8);
    out.push((v / 0x100 % 0x100) as u8);
    out.push((v % 0x100) as u8);
}

fn read_be16(b: &Vec<u8>, at: usize) -> (r: u16)
    requires
        at + 2 <= b.len(),
    ensures
        r == be16_at(b@, at as int),
{
    b[at] as u16 * 0x100 + b[at + 1] as u16
}

fn read_be32(b: &Vec<u8>, at: usize) -> (r: u32)
    requires
        at + 4 <= b.len(),
    ensures
        r == be32_at(b@, at as int),
{
    b[at] as u32 * 0x100_0000 + b[at + 1] as u32 * 0x1_0000 + b[at + 2] as u32 * 0x100
        + b[at + 3] as u32
}

/// The bytes to write to a worker for `frame`. A payload whose length does not
/// fit in the header's field is refused.
pub fn encode_frame(proto: &Protocol, frame: &Frame) -> (r: Result<Vec<u8>, IoFailure>)
    ensures
        match r {
            Ok(bytes) => frame@.payload.len() <= u32::MAX && bytes@ == frame_bytes(*proto, frame@),
            Err(e) => frame@.payload.len() > u32::MAX && e@ == (IoFailureModel {
                kind: IoKind::InvalidInput,
                message: "payload too large"@,
            }),
        },
{
    if frame.payload.len() > u32::MAX as usize {
        return Err(IoFailure::new(IoKind::InvalidInput, "payload too large"));
    }
    let mut bytes: Vec<u8> = Vec::new();
    push_be32(&mut bytes, proto.magic);
    push_be16(&mut bytes, proto.version);
    push_be16(&mut bytes, frame.kind);
    push_be32(&mut bytes, frame.request_id);
    push_be16(&mut bytes, frame.opcode);
    push_be16(&mut bytes, frame.flags);
    push_be32(&mut bytes, frame.payload.len() as u32);
    bytes.extend_from_slice(frame.payload.as_slice());
    Ok(bytes)
}

/// What came of one attempt to read from a worker.
#[derive(Debug)]
pub enum ReadEvent {
    /// Bytes were read; none at the end of the stream.
    Data(Vec<u8>),
    /// The attempt failed.
    Failed(IoFailure),
}

/// Where a [`FrameReader`] stands after an event.
#[derive(Debug)]
pub enum ReadProgress {
    /// Read again.
    Pending,
    /// The frame is there: take it with [`FrameReader::finish`].
    Ready,
    /// No frame can be had from this stream.
    Failed(IoFailure),
}

/// Collects the bytes of one frame, in as many reads as they come in.
pub struct FrameReader {
    proto: Protocol,
    received: Vec<u8>,
}

impl View for FrameReader {
    type V = Seq<u8>;

    /// The bytes received so far.
    closed spec fn view(&self) -> Seq<u8> {
        self.received@
    }
}

impl FrameReader {
    /// The protocol whose frames are read.
    pub closed spec fn protocol(&self) -> Protocol {
        self.proto
    }

    /// Whether the frame needs more bytes.
    pub open spec fn is_pending(&self) -> bool {
        frame_status(self.protocol(), self@) is Incomplete
    }

    /// A reader that has received nothing.
    pub fn new(proto: &Protocol) -> (r: FrameReader)
        ensures
            r.protocol() == *proto,
            r@ == Seq::<u8>::empty(),
            r.is_pending(),
    {
        FrameReader { proto: *proto, received: Vec::new() }
    }

    /// The greatest number of bytes that the next read may take: the header
    /// first, then the payload, never anything beyond the frame.
    pub fn wanted(&self) -> (r: usize)
        requires
            self.is_pending(),
        ensures
            r == frame_wanted(self@),
            r > 0,
    {
        let have: usize = self.received.len();
        if have < HEADER_LEN {
            HEADER_LEN - have
        } else {
            let payload_len: usize = read_be32(&self.received, 16) as usize;
            payload_len - (have - HEADER_LEN)
        }
    }

    /// Takes what came of a read of at most [`FrameReader::wanted`] bytes.
    ///
    /// A read that was interrupted or would have blocked is to be tried again;
    /// any other failure, the end of the stream and a bad header end the
    /// reading.
    pub fn feed(&mut self, event: ReadEvent) -> (r: ReadProgress)
        requires
            old(self).is_pending(),
            event matches ReadEvent::Data(data) ==> data@.len() <= frame_wanted(old(self)@),
        ensures
            final(self).protocol() == old(self).protocol(),
            r is Ready ==> frame_wanted(final(self)@) == 0,
            match event {
                ReadEvent::Data(data) => if data@.len() == 0 {
                    &&& final(self)@ == old(self)@
                    &&& r matches ReadProgress::Failed(e)
                    &&& e@ == (IoFailureModel {
                        kind: IoKind::UnexpectedEof,
                        message: "worker stdout closed"@,
                    })
                } else {
                    &&& final(self)@ == old(self)@ + data@
                    &&& match frame_status(final(self).protocol(), final(self)@) {
                        FrameStatus::Incomplete => r is Pending,
                        FrameStatus::Complete(_) => r is Ready,
                        FrameStatus::Failed(m) => r matches ReadProgress::Failed(e) && e@ == m,
                    }
                },
                ReadEvent::Failed(e) => {
                    &&& final(self)@ == old(self)@
                    &&& if e.kind == IoKind::Interrupted || e.kind == IoKind::WouldBlock {
                        r is Pending
                    } else {
                        r == ReadProgress::Failed(e)
                    }
                },
            },
    {
        match event {
            ReadEvent::Failed(e) => {
                if e.kind == IoKind::Interrupted || e.kind == IoKind::WouldBlock {
                    ReadProgress::Pending
                } else {
                    ReadProgress::Failed(e)
                }
            },
            ReadEvent::Data(data) => {
                if data.len() == 0 {
                    return ReadProgress::Failed(
                        IoFailure::new(IoKind::UnexpectedEof, "worker stdout closed"),
                    );
                }
                let mut data = data;
                self.received.append(&mut data);
                let have: usize = self.received.len();
                if have < HEADER_LEN {
                    return ReadProgress::Pending;
                }
                if read_be32(&self.received, 0) != self.proto.magic {
                    return ReadProgress::Failed(
                        IoFailure::new(IoKind::InvalidData, "bad ipc magic"),
                    );
                }
                if read_be16(&self.received, 4) != self.proto.version {
                    return ReadProgress::Failed(
                        IoFailure::new(IoKind::InvalidData, "bad ipc version"),
                    );
                }
                let payload_len: usize = read_be32(&self.received, 16) as usize;
                if have - HEADER_LEN < payload_len {
                    ReadProgress::Pending
                } else {
                    ReadProgress::Ready
                }
            },
        }
    }

    /// The frame that was read.
    pub fn finish(self) -> (r: Frame)
        requires
            frame_status(self.protocol(), self@) is Complete,
            frame_wanted(self@) == 0,
        ensures
            frame_status(self.protocol(), self@) == FrameStatus::Complete(r@),
    {
        let mut received = self.received;
        let payload = received.split_off(HEADER_LEN);
        let kind: u16 = read_be16(&received, 6);
        let request_id: u32 = read_be32(&received, 8);
        let opcode: u16 = read_be16(&received, 12);
        let flags: u16 = read_be16(&received, 14);
        Frame { kind, request_id, opcode, flags, payload }
    }
}

proof fn lemma_be_roundtrip(v: u32, w: u16)
    ensures
        be32_at(be32(v), 0) == v,
        be16_at(be16(w), 0) == w,
{
}

proof fn lemma_be16_of_bytes(b: Seq<u8>, at: int)
    requires
        0 <= at,
        at + 2 <= b.len(),
    ensures
        be16(be16_at(b, at)) == b.subrange(at, at + 2),
{
    assert(be16(be16_at(b, at)) =~= b.subrange(at, at + 2));
}

proof fn lemma_be32_of_bytes(b: Seq<u8>, at: int)
    requires
        0 <= at,
        at + 4 <= b.len(),
    ensures
        be32(be32_at(b, at)) == b.subrange(at, at + 4),
{
    let v = be32_at(b, at);
    assert(v / 0x100_0000 == b[at]);
    assert(v / 0x1_0000 == b[at] * 0x100 + b[at + 1]);
    assert(v / 0x100 == (b[at] * 0x100 + b[at + 1]) * 0x100 + b[at + 2]);
    assert(be32(v) =~= b.subrange(at, at + 4));
}

/// The header of a frame, field by field.
pub proof fn lemma_frame_bytes(proto: Protocol, f: FrameModel)
    requires
        f.payload.len() <= u32::MAX,
    ensures
        ({
            let b = frame_bytes(proto, f);
            &&& b.len() == HEADER_LEN + f.payload.len()
            &&& be32_at(b, 0) == proto.magic
            &&& be16_at(b, 4) == proto.version
            &&& be16_at(b, 6) == f.kind
            &&& be32_at(b, 8) == f.request_id
            &&& be16_at(b, 12) == f.opcode
            &&& be16_at(b, 14) == f.flags
            &&& be32_at(b, 16) == f.payload.len()
            &&& b.subrange(HEADER_LEN as int, b.len() as int) == f.payload
        }),
{
    let b = frame_bytes(proto, f);
    lemma_be_roundtrip(proto.magic, proto.version);
    lemma_be_roundtrip(f.request_id, f.kind);
    lemma_be_roundtrip(f.payload.len() as u32, f.opcode);
    lemma_be_roundtrip(f.payload.len() as u32, f.flags);
    assert(b.subrange(0, 4) =~= be32(proto.magic));
    assert(b.subrange(4, 6) =~= be16(proto.version));
    assert(b.subrange(6, 8) =~= be16(f.kind));
    assert(b.subrange(8, 12) =~= be32(f.request_id));
    assert(b.subrange(12, 14) =~= be16(f.opcode));
    assert(b.subrange(14, 16) =~= be16(f.flags));
    assert(b.subrange(16, 20) =~= be32(f.payload.len() as u32));
    assert(b.subrange(20, b.len() as int) =~= f.payload);
}

/// What is written is what is read: the bytes of a frame amount to that frame.
pub proof fn law_frame_roundtrip(proto: Protocol, f: FrameModel)
    requires
        f.payload.len() <= u32::MAX,
    ensures
        frame_status(proto, frame_bytes(proto, f)) == FrameStatus::Complete(f),
        frame_wanted(frame_bytes(proto, f)) == 0,
{
    lemma_frame_bytes(proto, f);
}

/// However the bytes of a frame are cut up, a reader that has only part of
/// them waits for the rest: it neither fails nor takes the part for a frame,
/// and it asks for nothing beyond the frame's end.
pub proof fn law_frame_prefix_pending(proto: Protocol, f: FrameModel, n: int)
    requires
        f.payload.len() <= u32::MAX,
        0 <= n < frame_bytes(proto, f).len(),
    ensures
        frame_status(proto, frame_bytes(proto, f).take(n)) is Incomplete,
        0 < frame_wanted(frame_bytes(proto, f).take(n)) <= frame_bytes(proto, f).len() - n,
{
    lemma_frame_bytes(proto, f);
}

/// A frame that was read has just one form on the wire: its bytes are the
/// bytes that it was read from.
pub proof fn law_frame_unique(proto: Protocol, b: Seq<u8>, f: FrameModel)
    requires
        frame_status(proto, b) == FrameStatus::Complete(f),
        frame_wanted(b) == 0,
    ensures
        f.payload.len() <= u32::MAX,
        frame_bytes(proto, f) == b,
{
    lemma_be32_of_bytes(b, 0);
    lemma_be16_of_bytes(b, 4);
    lemma_be16_of_bytes(b, 6);
    lemma_be32_of_bytes(b, 8);
    lemma_be16_of_bytes(b, 12);
    lemma_be16_of_bytes(b, 14);
    lemma_be32_of_bytes(b, 16);
    assert(b =~= b.subrange(0, 4) + b.subrange(4, 6) + b.subrange(6, 8) + b.subrange(8, 12)
        + b.subrange(12, 14) + b.subrange(14, 16) + b.subrange(16, 20) + b.subrange(
        20,
        b.len() as int,
    ));
}

} // verus!
