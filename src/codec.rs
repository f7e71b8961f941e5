//! The frame codec.
//!
//! A frame is a 9-byte header followed by the payload:
//! bytes 0..4 hold the message id (big endian), byte 4 the kind tag,
//! bytes 5..9 the payload size (big endian).
use vstd::prelude::*;

verus! {

/// Length of a frame header in bytes.
pub const HEADER_LEN: usize = 9;

/// What a frame's payload is meant to hold.
#[derive(Clone, Copy, Debug, PartialEq, Eq, Structural)]
pub enum MessageKind {
    Any,
    Empty,
    Bytes,
    Bool,
    U16,
    U32,
    U64,
    I16,
    I32,
    I64,
    F32,
    F64,
    String,
    Timestamp,
    Duration,
}

/// The wire tag of a kind.
pub open spec fn kind_tag(k: MessageKind) -> u8 {
    match k {
        MessageKind::Any => 0,
        MessageKind::Empty => 1,
        MessageKind::Bytes => 2,
        MessageKind::Bool => 3,
        MessageKind::U16 => 4,
        MessageKind::U32 => 5,
        MessageKind::U64 => 6,
        MessageKind::I16 => 7,
        MessageKind::I32 => 8,
        MessageKind::I64 => 9,
        MessageKind::F32 => 10,
        MessageKind::F64 => 11,
        MessageKind::String => 12,
        MessageKind::Timestamp => 13,
        MessageKind::Duration => 14,
    }
}

/// The kind a wire tag stands for, if any.
pub open spec fn kind_from_tag(b: u8) -> Option<MessageKind> {
    if b == 0 { Some(MessageKind::Any) }
    else if b == 1 { Some(MessageKind::Empty) }
    else if b == 2 { Some(MessageKind::Bytes) }
    else if b == 3 { Some(MessageKind::Bool) }
    else if b == 4 { Some(MessageKind::U16) }
    else if b == 5 { Some(MessageKind::U32) }
    else if b == 6 { Some(MessageKind::U64) }
    else if b == 7 { Some(MessageKind::I16) }
    else if b == 8 { Some(MessageKind::I32) }
    else if b == 9 { Some(MessageKind::I64) }
    else if b == 10 { Some(MessageKind::F32) }
    else if b == 11 { Some(MessageKind::F64) }
    else if b == 12 { Some(MessageKind::String) }
    else if b == 13 { Some(MessageKind::Timestamp) }
    else if b == 14 { Some(MessageKind::Duration) }
    else { None }
}

impl MessageKind {
    /// The wire tag of this kind.
    pub fn tag(self) -> (r: u8)
        ensures
            r == kind_tag(self),
    {
        match self {
            MessageKind::Any => 0,
            MessageKind::Empty => 1,
            MessageKind::Bytes => 2,
            MessageKind::Bool => 3,
            MessageKind::U16 => 4,
            MessageKind::U32 => 5,
            MessageKind::U64 => 6,
            MessageKind::I16 => 7,
            MessageKind::I32 => 8,
            MessageKind::I64 => 9,
            MessageKind::F32 => 10,
            MessageKind::F64 => 11,
            MessageKind::String => 12,
            MessageKind::Timestamp => 13,
            MessageKind::Duration => 14,
        }
    }

    /// The kind that a wire tag stands for; `None` for an unknown tag.
    pub fn from_tag(b: u8) -> (r: Option<MessageKind>)
        ensures
            r == kind_from_tag(b),
    {
        match b {
            0 => Some(MessageKind::Any),
            1 => Some(MessageKind::Empty),
            2 => Some(MessageKind::Bytes),
            3 => Some(MessageKind::Bool),
            4 => Some(MessageKind::U16),
            5 => Some(MessageKind::U32),
            6 => Some(MessageKind::U64),
            7 => Some(MessageKind::I16),
            8 => Some(MessageKind::I32),
            9 => Some(MessageKind::I64),
            10 => Some(MessageKind::F32),
            11 => Some(MessageKind::F64),
            12 => Some(MessageKind::String),
            13 => Some(MessageKind::Timestamp),
            14 => Some(MessageKind::Duration),
            _ => None,
        }
    }
}

/// Every kind reads back from its own tag.
pub proof fn lemma_kind_tag_round_trip(k: MessageKind)
    ensures
        kind_from_tag(kind_tag(k)) == Some(k),
{
}

/// The four big-endian bytes of `x`.
pub open spec fn be_bytes(x: u32) -> Seq<u8> {
    seq![
        ((x >> 24u32) & 0xffu32) as u8,
        ((x >> 16u32) & 0xffu32) as u8,
        ((x >> 8u32) & 0xffu32) as u8,
        (x & 0xffu32) as u8,
    ]
}

/// The value of four big-endian bytes.
pub open spec fn be_value(b0: u8, b1: u8, b2: u8, b3: u8) -> u32 {
    ((b0 as u32) << 24u32) | ((b1 as u32) << 16u32) | ((b2 as u32) << 8u32) | (b3 as u32)
}

/// Reading back the bytes of `x` gives `x`.
pub proof fn lemma_be_round_trip(x: u32)
    ensures
        be_value(
            ((x >> 24u32) & 0xffu32) as u8,
            ((x >> 16u32) & 0xffu32) as u8,
            ((x >> 8u32) & 0xffu32) as u8,
            (x & 0xffu32) as u8,
        ) == x,
{
    assert(((((x >> 24u32) & 0xffu32) as u8) as u32) << 24u32
        | ((((x >> 16u32) & 0xffu32) as u8) as u32) << 16u32
        | ((((x >> 8u32) & 0xffu32) as u8) as u32) << 8u32
        | (((x & 0xffu32) as u8) as u32) == x) by (bit_vector);
}

/// The bytes of a frame that carries `payload` under `id` and `kind`.
pub open spec fn frame_bytes(id: u32, kind: MessageKind, payload: Seq<u8>) -> Seq<u8> {
    be_bytes(id) + seq![kind_tag(kind)] + be_bytes(payload.len() as u32) + payload
}

/// The id field of a header at the front of `buf`.
pub open spec fn header_id(buf: Seq<u8>) -> u32 {
    be_value(buf[0], buf[1], buf[2], buf[3])
}

/// The size field of a header at the front of `buf`.
pub open spec fn header_size(buf: Seq<u8>) -> u32 {
    be_value(buf[5], buf[6], buf[7], buf[8])
}

/// `buf` starts with a header whose kind tag is unknown: nothing in it can be trusted.
pub open spec fn frame_malformed(buf: Seq<u8>) -> bool {
    buf.len() >= HEADER_LEN && kind_from_tag(buf[4]) is None
}

/// Length of the frame at the front of `buf`, header included.
pub open spec fn frame_len(buf: Seq<u8>) -> int {
    HEADER_LEN + header_size(buf)
}

/// `buf` starts with a whole frame with a known kind.
pub open spec fn frame_complete(buf: Seq<u8>) -> bool {
    &&& buf.len() >= HEADER_LEN
    &&& kind_from_tag(buf[4]) is Some
    &&& buf.len() >= frame_len(buf)
}

/// The kind of the frame at the front of `buf`.
pub open spec fn frame_kind(buf: Seq<u8>) -> MessageKind {
    kind_from_tag(buf[4])->0
}

/// The payload of the frame at the front of `buf`.
pub open spec fn frame_payload(buf: Seq<u8>) -> Seq<u8> {
    buf.subrange(HEADER_LEN as int, frame_len(buf))
}

/// What stays of `buf` once the frame at its front is taken.
pub open spec fn frame_rest(buf: Seq<u8>) -> Seq<u8> {
    buf.subrange(frame_len(buf), buf.len() as int)
}

/// A frame's bytes followed by anything decode back to the frame.
pub proof fn lemma_frame_decodes(id: u32, kind: MessageKind, payload: Seq<u8>, rest: Seq<u8>)
    requires
        payload.len() <= u32::MAX,
    ensures
        ({
            let buf = frame_bytes(id, kind, payload) + rest;
            &&& frame_complete(buf)
            &&& header_id(buf) == id
            &&& frame_kind(buf) == kind
            &&& header_size(buf) == payload.len()
            &&& frame_len(buf) == HEADER_LEN + payload.len()
            &&& frame_payload(buf) == payload
            &&& frame_rest(buf) == rest
        }),
{
    let f = frame_bytes(id, kind, payload);
    let buf = f + rest;
    lemma_be_round_trip(id);
    lemma_be_round_trip(payload.len() as u32);
    lemma_kind_tag_round_trip(kind);
    assert(f.len() == HEADER_LEN + payload.len());
    assert(buf[0] == f[0] && buf[1] == f[1] && buf[2] == f[2] && buf[3] == f[3]);
    assert(buf[4] == kind_tag(kind));
    assert(buf[5] == f[5] && buf[6] == f[6] && buf[7] == f[7] && buf[8] == f[8]);
    assert(header_size(buf) == payload.len());
    assert(frame_payload(buf) =~= payload);
    assert(frame_rest(buf) =~= rest);
}


/// The first text frame that `buf` yields, frames of other kinds being
/// skipped, and what stays buffered afterwards: after a malformed header
/// nothing stays, after an incomplete frame the whole remainder stays.
pub open spec fn first_text(buf: Seq<u8>) -> (Option<(u32, Seq<u8>)>, Seq<u8>)
    decreases buf.len(),
{
    if frame_complete(buf) {
        if frame_kind(buf) == MessageKind::String {
            (Some((header_id(buf), frame_payload(buf))), frame_rest(buf))
        } else {
            first_text(frame_rest(buf))
        }
    } else if frame_malformed(buf) {
        (None, Seq::empty())
    } else {
        (None, buf)
    }
}

/// A text frame split into two reads anywhere, `split` bytes in the first:
/// the first part alone yields nothing and stays buffered whole, and once
/// the second part is appended the frame's id and payload come out with
/// nothing left over.
pub proof fn lemma_fragmented_delivery(id: u32, payload: Seq<u8>, split: nat)
    requires
        payload.len() <= u32::MAX,
        split < HEADER_LEN + payload.len(),
    ensures
        ({
            let f = frame_bytes(id, MessageKind::String, payload);
            let first = f.subrange(0, split as int);
            let second = f.subrange(split as int, f.len() as int);
            &&& first_text(first) == (None::<(u32, Seq<u8>)>, first)
            &&& first_text(first + second) == (Some((id, payload)), Seq::<u8>::empty())
        }),
{
    let f = frame_bytes(id, MessageKind::String, payload);
    let first = f.subrange(0, split as int);
    let second = f.subrange(split as int, f.len() as int);
    lemma_frame_decodes(id, MessageKind::String, payload, Seq::empty());
    assert(f + Seq::<u8>::empty() =~= f);
    assert(first + second =~= f);
    if split >= HEADER_LEN {
        assert(first[4] == f[4]);
        assert(first[5] == f[5] && first[6] == f[6] && first[7] == f[7] && first[8] == f[8]);
        assert(header_size(first) == header_size(f));
        assert(!frame_complete(first));
    }
}

/// Why a buffer did not yield a frame.
#[derive(Clone, Copy, Debug, PartialEq, Eq, Structural)]
pub enum FormatError {
    /// The buffered bytes are a strict beginning of a frame.
    Incomplete,
    /// The header carries an unknown kind tag.
    Malformed,
}

/// Appends the big-endian bytes of `x`.
fn push_be(out: &mut Vec<u8>, x: u32)
    ensures
        final(out)@ == old(out)@ + be_bytes(x),
{
    out.push(((x >> 24u32) & 0xffu32) as u8);
    out.push(((x >> 16u32) & 0xffu32) as u8);
    out.push(((x >> 8u32) & 0xffu32) as u8);
    out.push((x & 0xffu32) as u8);
    assert(final(out)@ =~= old(out)@ + be_bytes(x));
}

/// Appends all of `src`.
fn push_all(out: &mut Vec<u8>, src: &[u8])
    ensures
        final(out)@ == old(out)@ + src@,
{
    let ghost start = out@;
    let mut i: usize = 0;
    while i < src.len()
        invariant
            i <= src@.len(),
            out@ == start + src@.subrange(0, i as int),
        decreases src@.len() - i,
    {
        out.push(src[i]);
        i = i + 1;
        assert(out@ =~= start + src@.subrange(0, i as int));
    }
    assert(src@.subrange(0, i as int) =~= src@);
}

/// A copy of `src[start..end]`.
fn copy_range(src: &[u8], start: usize, end: usize) -> (r: Vec<u8>)
    requires
        start <= end <= src@.len(),
    ensures
        r@ == src@.subrange(start as int, end as int),
{
    let mut r: Vec<u8> = Vec::new();
    let mut i: usize = start;
    while i < end
        invariant
            start <= i <= end,
            end <= src@.len(),
            r@ == src@.subrange(start as int, i as int),
        decreases end - i,
    {
        r.push(src[i]);
        i = i + 1;
        assert(r@ =~= src@.subrange(start as int, i as int));
    }
    r
}

/// The value of the four big-endian bytes at `at`.
fn read_be(buf: &[u8], at: usize) -> (r: u32)
    requires
        at + 4 <= buf@.len(),
    ensures
        r == be_value(buf@[at as int], buf@[at + 1], buf@[at + 2], buf@[at + 3]),
{
    ((buf[at] as u32) << 24u32) | ((buf[at + 1] as u32) << 16u32) | ((buf[at + 2] as u32) << 8u32)
        | (buf[at + 3] as u32)
}

/// Builds and reads frames of one configured kind, keeping the bytes of a
/// frame that has not fully arrived between calls.
pub struct FrameCodec {
    kind: MessageKind,
    pending: Vec<u8>,
}

impl FrameCodec {
    /// The kind that outbound frames carry.
    pub closed spec fn spec_kind(&self) -> MessageKind {
        self.kind
    }

    /// Bytes received but not yet taken as a frame.
    pub closed spec fn pending(&self) -> Seq<u8> {
        self.pending@
    }

    /// A codec that builds frames of `kind`, with nothing buffered.
    pub fn new(kind: MessageKind) -> (r: FrameCodec)
        ensures
            r.spec_kind() == kind,
            r.pending() == Seq::<u8>::empty(),
    {
        FrameCodec { kind, pending: Vec::new() }
    }

    /// The kind that outbound frames carry.
    pub fn kind(&self) -> (r: MessageKind)
        ensures
            r == self.spec_kind(),
    {
        self.kind
    }

    /// Number of bytes buffered.
    pub fn pending_len(&self) -> (r: usize)
        ensures
            r == self.pending().len(),
    {
        self.pending.len()
    }

    /// Drops every buffered byte.
    pub fn clear(&mut self)
        ensures
            final(self).spec_kind() == old(self).spec_kind(),
            final(self).pending() == Seq::<u8>::empty(),
    {
        self.pending = Vec::new();
    }

    /// The frame that carries `payload` under `id`, with this codec's kind.
    pub fn build(&self, payload: &[u8], id: u32) -> (r: Vec<u8>)
        requires
            payload@.len() <= u32::MAX,
        ensures
            r@ == frame_bytes(id, self.spec_kind(), payload@),
    {
        let mut out: Vec<u8> = Vec::new();
        push_be(&mut out, id);
        out.push(self.kind.tag());
        push_be(&mut out, payload.len() as u32);
        push_all(&mut out, payload);
        assert(out@ =~= frame_bytes(id, self.spec_kind(), payload@));
        out
    }

    /// Appends `chunk` to the buffered bytes and takes one frame from their
    /// front: its id, kind, size field and payload. Fails with `Incomplete`
    /// (keeping every byte) while the frame has not fully arrived, and with
    /// `Malformed` (dropping every byte) on an unknown kind tag.
    pub fn parse(&mut self, chunk: &[u8]) -> (r: Result<(u32, MessageKind, u32, Vec<u8>), FormatError>)
        ensures
            final(self).spec_kind() == old(self).spec_kind(),
            ({
                let buf = old(self).pending() + chunk@;
                if frame_complete(buf) {
                    &&& r matches Ok((id, kind, size, payload))
                    &&& id == header_id(buf)
                    &&& kind == frame_kind(buf)
                    &&& size == header_size(buf)
                    &&& payload@ == frame_payload(buf)
                    &&& final(self).pending() == frame_rest(buf)
                } else if frame_malformed(buf) {
                    &&& r == Err::<(u32, MessageKind, u32, Vec<u8>), FormatError>(FormatError::Malformed)
                    &&& final(self).pending() == Seq::<u8>::empty()
                } else {
                    &&& r == Err::<(u32, MessageKind, u32, Vec<u8>), FormatError>(FormatError::Incomplete)
                    &&& final(self).pending() == buf
                }
            }),
    {
        push_all(&mut self.pending, chunk);
        let len = self.pending.len();
        if len < HEADER_LEN {
            return Err(FormatError::Incomplete);
        }
        let kind = match MessageKind::from_tag(self.pending[4]) {
            Some(k) => k,
            None => {
                self.pending = Vec::new();
                return Err(FormatError::Malformed);
            },
        };
        let buf = self.pending.as_slice();
        let id = read_be(buf, 0);
        let size = read_be(buf, 5);
        if ((len - HEADER_LEN) as u64) < (size as u64) {
            return Err(FormatError::Incomplete);
        }
        let end = HEADER_LEN + size as usize;
        let payload = copy_range(buf, HEADER_LEN, end);
        let rest = copy_range(buf, end, len);
        self.pending = rest;
        Ok((id, kind, size, payload))
    }

    /// Appends `chunk` to the buffered bytes and takes frames from their
    /// front until one of the string kind comes, skipping frames of other
    /// kinds; returns its id and payload. What stays buffered is what
    /// `first_text` says.
    pub fn next_text(&mut self, chunk: &[u8]) -> (r: Option<(u32, Vec<u8>)>)
        ensures
            final(self).spec_kind() == old(self).spec_kind(),
            ({
                let expect = first_text(old(self).pending() + chunk@);
                &&& final(self).pending() == expect.1
                &&& match r {
                    Some((id, payload)) => expect.0 == Some((id, payload@)),
                    None => expect.0 is None,
                }
            }),
    {
        let ghost goal = first_text(old(self).pending() + chunk@);
        let ghost mut buf = old(self).pending() + chunk@;
        let mut res = self.parse(chunk);
        let none: Vec<u8> = Vec::new();
        loop
            invariant
                self.spec_kind() == old(self).spec_kind(),
                none@ == Seq::<u8>::empty(),
                goal == first_text(old(self).pending() + chunk@),
                goal == first_text(buf),
                frame_complete(buf) ==> {
                    &&& res matches Ok((id, kind, size, payload))
                    &&& id == header_id(buf)
                    &&& kind == frame_kind(buf)
                    &&& payload@ == frame_payload(buf)
                    &&& self.pending() == frame_rest(buf)
                },
                !frame_complete(buf) && frame_malformed(buf) ==> {
                    &&& res is Err
                    &&& self.pending() == Seq::<u8>::empty()
                },
                !frame_complete(buf) && !frame_malformed(buf) ==> {
                    &&& res is Err
                    &&& self.pending() == buf
                },
            decreases buf.len(),
        {
            match res {
                Ok((id, kind, _size, payload)) => {
                    if kind == MessageKind::String {
                        return Some((id, payload));
                    }
                    proof {
                        assert(self.pending() + none@ =~= self.pending());
                        buf = self.pending();
                    }
                    res = self.parse(none.as_slice());
                },
                Err(_) => {
                    return None;
                },
            }
        }
    }
}

} // verus!
