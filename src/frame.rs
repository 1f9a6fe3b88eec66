//! Framing: a 4-byte big-endian length followed by exactly that many payload bytes.
use vstd::prelude::*;

verus! {

/// Largest payload length a reader accepts (1 MiB).
pub const MAX_MESSAGE_SIZE: usize = 1048576;

/// The unsigned value of four bytes read most significant first.
pub open spec fn be_value(b: Seq<u8>) -> nat
    recommends
        b.len() == 4,
{
    (b[0] as nat) * 16777216 + (b[1] as nat) * 65536 + (b[2] as nat) * 256 + (b[3] as nat)
}

/// The four bytes of `n`, most significant first.
pub open spec fn be_bytes(n: nat) -> Seq<u8> {
    seq![
        (n / 16777216 % 256) as u8,
        (n / 65536 % 256) as u8,
        (n / 256 % 256) as u8,
        (n % 256) as u8,
    ]
}

/// Reads the declared payload length out of a length prefix.
pub fn decode_length(header: &[u8; 4]) -> (r: u32)
    ensures
        r as nat == be_value(header@),
{
    prefix_value(header.as_slice())
}

/// The bytes of one frame carrying `payload`.
pub open spec fn framed(payload: Seq<u8>) -> Seq<u8> {
    be_bytes(payload.len()) + payload
}

/// Reading back the prefix written for `n` gives `n`.
pub proof fn lemma_be_round_trip(n: nat)
    requires
        n <= u32::MAX,
    ensures
        be_bytes(n).len() == 4,
        be_value(be_bytes(n)) == n,
{
    let b = be_bytes(n);
    assert(b[0] as nat == n / 16777216 % 256);
    assert(b[1] as nat == n / 65536 % 256);
    assert(b[2] as nat == n / 256 % 256);
    assert(b[3] as nat == n % 256);
    assert(n / 16777216 % 256 == n / 16777216) by {
        assert(n / 16777216 < 256) by (nonlinear_arith)
            requires n <= 4294967295;
    }
    assert(n / 16777216 * 16777216 + n / 65536 % 256 * 65536 + n / 256 % 256 * 256 + n % 256 == n) by (nonlinear_arith)
        requires n <= 4294967295;
}

/// The length prefix of a payload of `n` bytes.
pub fn encode_length(n: u32) -> (r: Vec<u8>)
    ensures
        r@ == be_bytes(n as nat),
        be_value(r@) == n as nat,
{
    let mut r: Vec<u8> = Vec::with_capacity(4);
    r.push((n / 16777216 % 256) as u8);
    r.push((n / 65536 % 256) as u8);
    r.push((n / 256 % 256) as u8);
    r.push((n % 256) as u8);
    proof {
        lemma_be_round_trip(n as nat);
        assert(r@ =~= be_bytes(n as nat));
    }
    r
}

/// Why a frame could not be read or written.
#[derive(Debug, Clone, Copy, PartialEq, Eq, Structural)]
pub enum FrameError {
    /// The declared length exceeds the reader's maximum; the body is not read.
    TooLarge { declared: u32 },
    /// The payload is longer than a 4-byte length prefix can declare.
    PayloadTooLong,
}

/// What can be taken from the front of a byte buffer.
#[derive(Debug, Clone, PartialEq, Eq)]
pub enum FrameParse {
    /// The buffer does not yet hold a whole frame.
    Incomplete,
    /// The declared length exceeds the maximum.
    TooLarge { declared: u32 },
    /// A whole frame: its payload and the number of bytes it took.
    Complete { payload: Vec<u8>, consumed: usize },
}

/// Checks the declared length of a length prefix against `max_len`.
pub fn frame_length(header: &[u8; 4], max_len: usize) -> (r: Result<usize, FrameError>)
    ensures
        be_value(header@) <= max_len ==> r == Ok::<usize, FrameError>(be_value(header@) as usize),
        be_value(header@) > max_len ==> r == Err::<usize, FrameError>(
            FrameError::TooLarge { declared: be_value(header@) as u32 },
        ),
{
    let declared = decode_length(header);
    if declared as usize > max_len {
        Err(FrameError::TooLarge { declared })
    } else {
        Ok(declared as usize)
    }
}

/// Builds the bytes of one frame: the length prefix, then the payload.
pub fn encode_frame(payload: &[u8]) -> (r: Result<Vec<u8>, FrameError>)
    ensures
        payload@.len() <= u32::MAX ==> (r matches Ok(bytes) && bytes@ == framed(payload@)),
        payload@.len() > u32::MAX ==> r == Err::<Vec<u8>, FrameError>(FrameError::PayloadTooLong),
{
    if payload.len() > 4294967295 {
        return Err(FrameError::PayloadTooLong);
    }
    let mut out = encode_length(payload.len() as u32);
    let mut i: usize = 0;
    while i < payload.len()
        invariant
            i <= payload@.len(),
            out@ == be_bytes(payload@.len()) + payload@.take(i as int),
        decreases payload@.len() - i,
    {
        out.push(payload[i]);
        i = i + 1;
        assert(payload@.take(i as int) =~= payload@.take(i - 1) + seq![payload@[i - 1]]);
    }
    assert(payload@.take(i as int) =~= payload@);
    Ok(out)
}

/// The value of the length prefix at the front of `buf`.
fn prefix_value(buf: &[u8]) -> (r: u32)
    requires
        buf@.len() >= 4,
    ensures
        r as nat == be_value(buf@),
{
    let b0 = buf[0] as u32;
    let b1 = buf[1] as u32;
    let b2 = buf[2] as u32;
    let b3 = buf[3] as u32;
    b0 * 16777216 + b1 * 65536 + b2 * 256 + b3
}

/// Takes one frame from the front of `buf`, reading at most `max_len` payload bytes.
pub fn parse_frame(buf: &[u8], max_len: usize) -> (r: FrameParse)
    ensures
        buf@.len() < 4 ==> r == FrameParse::Incomplete,
        buf@.len() >= 4 && be_value(buf@) > max_len ==> r == (FrameParse::TooLarge {
            declared: be_value(buf@) as u32,
        }),
        buf@.len() >= 4 && be_value(buf@) <= max_len && buf@.len() < 4 + be_value(buf@)
            ==> r == FrameParse::Incomplete,
        buf@.len() >= 4 && be_value(buf@) <= max_len && buf@.len() >= 4 + be_value(buf@)
            ==> (r matches FrameParse::Complete { payload, consumed } && consumed == 4 + be_value(buf@)
            && payload@ == buf@.subrange(4, consumed as int)),
{
    if buf.len() < 4 {
        return FrameParse::Incomplete;
    }
    let declared = prefix_value(buf);
    if declared as usize > max_len {
        return FrameParse::TooLarge { declared };
    }
    let len = declared as usize;
    if buf.len() - 4 < len {
        return FrameParse::Incomplete;
    }
    let end = 4 + len;
    let mut payload: Vec<u8> = Vec::with_capacity(len);
    let mut i: usize = 4;
    while i < end
        invariant
            4 <= i <= end,
            end <= buf@.len(),
            payload@ == buf@.subrange(4, i as int),
        decreases end - i,
    {
        payload.push(buf[i]);
        i = i + 1;
        assert(payload@ =~= buf@.subrange(4, i as int));
    }
    FrameParse::Complete { payload, consumed: end }
}

/// A frame built for a payload that fits under the maximum reads back as that
/// same payload, whatever bytes follow it.
pub proof fn lemma_frame_round_trip(payload: Seq<u8>, rest: Seq<u8>, max_len: nat)
    requires
        payload.len() <= max_len,
        payload.len() <= u32::MAX,
    ensures
        be_value(framed(payload) + rest) == payload.len(),
        (framed(payload) + rest).len() >= 4 + payload.len(),
        (framed(payload) + rest).subrange(4, 4 + payload.len() as int) == payload,
{
    lemma_be_round_trip(payload.len());
    let buf = framed(payload) + rest;
    assert(buf.take(4) =~= be_bytes(payload.len()));
    assert(buf[0] == be_bytes(payload.len())[0]);
    assert(buf[1] == be_bytes(payload.len())[1]);
    assert(buf[2] == be_bytes(payload.len())[2]);
    assert(buf[3] == be_bytes(payload.len())[3]);
    assert(buf.subrange(4, 4 + payload.len() as int) =~= payload);
}

} // verus!
