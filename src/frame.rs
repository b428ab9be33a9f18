//! Length-prefixed framing of the byte stream shared with the peer.
//!
//! A frame is a 4-byte length prefix, in the byte order of the host, followed by
//! exactly that many payload bytes: no padding, no checksum. The same framing is
//! used in both directions.
use vstd::prelude::*;

verus! {

/// Largest payload accepted in either direction. A declared length above it is
/// refused rather than allocated.
pub const MAX_PAYLOAD_LEN: u32 = 64 * 1024 * 1024;

/// Byte order of the length prefix (the host's own order on the wire).
#[derive(Clone, Copy, Debug, PartialEq, Eq, Structural)]
pub enum ByteOrder {
    Little,
    Big,
}

/// Why a frame could not be produced or read.
#[derive(Clone, Copy, Debug, PartialEq, Eq, Structural)]
pub enum FrameError {
    /// The payload (or the declared length) exceeds `MAX_PAYLOAD_LEN`.
    Oversized,
}

/// Outcome of reading one frame from the front of a buffer.
#[derive(Debug, PartialEq, Eq)]
pub enum FrameRead {
    /// Not enough bytes yet for the prefix or for the declared payload.
    Incomplete,
    /// The prefix declares a payload longer than `MAX_PAYLOAD_LEN`.
    Oversized,
    /// One whole frame: its payload, and how many bytes of the buffer it took.
    Frame { payload: Vec<u8>, used: usize },
}

/// The four little-endian digits (base 256) of `n`.
pub open spec fn le_digits(n: nat) -> Seq<u8> {
    seq![
        (n % 256) as u8,
        ((n / 256) % 256) as u8,
        ((n / 256 / 256) % 256) as u8,
        ((n / 256 / 256 / 256) % 256) as u8,
    ]
}

/// The length prefix for a payload of `n` bytes.
pub open spec fn prefix_of(n: nat, order: ByteOrder) -> Seq<u8> {
    match order {
        ByteOrder::Little => le_digits(n),
        ByteOrder::Big => le_digits(n).reverse(),
    }
}

/// The value of four little-endian base-256 digits.
pub open spec fn le_value(b: Seq<u8>) -> nat {
    (b[0] as nat) + 256 * ((b[1] as nat) + 256 * ((b[2] as nat) + 256 * (b[3] as nat)))
}

/// The payload length that the first four bytes of `b` declare.
pub open spec fn declared_len(b: Seq<u8>, order: ByteOrder) -> nat {
    match order {
        ByteOrder::Little => le_value(b.subrange(0, 4)),
        ByteOrder::Big => le_value(b.subrange(0, 4).reverse()),
    }
}

/// The frame that carries `payload`.
pub open spec fn frame_of(payload: Seq<u8>, order: ByteOrder) -> Seq<u8> {
    prefix_of(payload.len(), order) + payload
}

/// The prefix at the front of `b` declares more than `MAX_PAYLOAD_LEN` bytes.
pub open spec fn frame_oversized(b: Seq<u8>, order: ByteOrder) -> bool {
    b.len() >= 4 && declared_len(b, order) > MAX_PAYLOAD_LEN as nat
}

/// `b` starts with a whole frame of acceptable size.
pub open spec fn frame_complete(b: Seq<u8>, order: ByteOrder) -> bool {
    b.len() >= 4 && !frame_oversized(b, order) && b.len() >= 4 + declared_len(b, order)
}

/// The payload of the frame at the front of `b`.
pub open spec fn frame_payload(b: Seq<u8>, order: ByteOrder) -> Seq<u8> {
    b.subrange(4, 4 + declared_len(b, order) as int)
}

proof fn lemma_le_value_of_digits(n: nat)
    requires
        n < 0x1_0000_0000,
    ensures
        le_value(le_digits(n)) == n,
{
    let q1 = n / 256;
    let q2 = q1 / 256;
    let q3 = q2 / 256;
    assert(n == n % 256 + 256 * q1);
    assert(q1 == q1 % 256 + 256 * q2);
    assert(q2 == q2 % 256 + 256 * q3);
    assert(q3 < 256);
    assert(q3 % 256 == q3);
}

/// Writes one frame: the length prefix of `payload`, then `payload` itself.
pub fn encode_frame(payload: &[u8], order: ByteOrder) -> (r: Result<Vec<u8>, FrameError>)
    ensures
        payload@.len() > MAX_PAYLOAD_LEN ==> r == Err::<Vec<u8>, FrameError>(FrameError::Oversized),
        payload@.len() <= MAX_PAYLOAD_LEN ==> (r matches Ok(v) && v@ == frame_of(payload@, order)),
{
    let n = payload.len();
    if n > MAX_PAYLOAD_LEN as usize {
        return Err(FrameError::Oversized);
    }
    let n32 = n as u32;
    let d0 = (n32 % 256) as u8;
    let d1 = ((n32 / 256) % 256) as u8;
    let d2 = ((n32 / 256 / 256) % 256) as u8;
    let d3 = ((n32 / 256 / 256 / 256) % 256) as u8;
    let mut out: Vec<u8> = Vec::new();
    match order {
        ByteOrder::Little => {
            out.push(d0);
            out.push(d1);
            out.push(d2);
            out.push(d3);
        },
        ByteOrder::Big => {
            out.push(d3);
            out.push(d2);
            out.push(d1);
            out.push(d0);
        },
    }
    assert(out@ =~= prefix_of(n as nat, order));
    let mut i: usize = 0;
    while i < n
        invariant
            n == payload@.len(),
            i <= n,
            out@ == prefix_of(n as nat, order) + payload@.subrange(0, i as int),
        decreases n - i,
    {
        out.push(payload[i]);
        i = i + 1;
        assert(out@ =~= prefix_of(n as nat, order) + payload@.subrange(0, i as int));
    }
    assert(payload@.subrange(0, n as int) =~= payload@);
    Ok(out)
}

/// Reads the frame at the front of `buf`.
pub fn decode_frame(buf: &[u8], order: ByteOrder) -> (r: FrameRead)
    ensures
        buf@.len() < 4 ==> r == FrameRead::Incomplete,
        frame_oversized(buf@, order) ==> r == FrameRead::Oversized,
        buf@.len() >= 4 && !frame_oversized(buf@, order) && !frame_complete(buf@, order)
            ==> r == FrameRead::Incomplete,
        frame_complete(buf@, order) ==> (r matches FrameRead::Frame { payload, used }
            && payload@ == frame_payload(buf@, order)
            && used == 4 + declared_len(buf@, order)),
{
    if buf.len() < 4 {
        return FrameRead::Incomplete;
    }
    let (b0, b1, b2, b3) = match order {
        ByteOrder::Little => (buf[0], buf[1], buf[2], buf[3]),
        ByteOrder::Big => (buf[3], buf[2], buf[1], buf[0]),
    };
    let ghost digits = match order {
        ByteOrder::Little => buf@.subrange(0, 4),
        ByteOrder::Big => buf@.subrange(0, 4).reverse(),
    };
    assert(digits[0] == b0 && digits[1] == b1 && digits[2] == b2 && digits[3] == b3);
    let n: u64 = b0 as u64 + 256 * (b1 as u64 + 256 * (b2 as u64 + 256 * (b3 as u64)));
    assert(n == declared_len(buf@, order));
    if n > MAX_PAYLOAD_LEN as u64 {
        return FrameRead::Oversized;
    }
    let n = n as usize;
    if buf.len() - 4 < n {
        return FrameRead::Incomplete;
    }
    let len = buf.len();
    let mut payload: Vec<u8> = Vec::new();
    let mut i: usize = 0;
    while i < n
        invariant
            len == buf@.len(),
            4 + n <= len,
            i <= n,
            payload@ == buf@.subrange(4, 4 + i as int),
        decreases n - i,
    {
        payload.push(buf[4 + i]);
        i = i + 1;
        assert(payload@ =~= buf@.subrange(4, 4 + i as int));
    }
    FrameRead::Frame { payload, used: 4 + n }
}

/// Reading back a frame that `encode_frame` wrote, with anything after it in
/// the buffer, yields exactly the payload that was framed and consumes exactly
/// that frame.
pub proof fn lemma_frame_round_trip(payload: Seq<u8>, rest: Seq<u8>, order: ByteOrder)
    requires
        payload.len() <= MAX_PAYLOAD_LEN,
    ensures
        frame_complete(frame_of(payload, order) + rest, order),
        frame_payload(frame_of(payload, order) + rest, order) == payload,
        declared_len(frame_of(payload, order) + rest, order) == payload.len(),
{
    let b = frame_of(payload, order) + rest;
    lemma_le_value_of_digits(payload.len());
    assert(b.subrange(0, 4) =~= prefix_of(payload.len(), order));
    assert(le_digits(payload.len()).reverse().reverse() =~= le_digits(payload.len()));
    assert(declared_len(b, order) == payload.len());
    assert(b.subrange(4, 4 + payload.len() as int) =~= payload);
}

} // verus!
