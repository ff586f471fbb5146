//! Frames on the stdio wire: a four-byte length prefix followed by exactly
//! that many payload bytes.

use vstd::prelude::*;

verus! {

/// The byte order of the length prefix. Both ends of the pipe must agree on
/// it; the bridge uses the order of the machine it runs on.
#[derive(Clone, Copy, Debug, PartialEq, Eq, Structural)]
pub enum ByteOrder {
    Little,
    Big,
}

/// Why a frame could not be produced or read.
#[derive(Clone, Copy, Debug, PartialEq, Eq, Structural)]
pub enum FrameError {
    /// The input ended before the length prefix or the whole body.
    Truncated,
    /// The body is longer than a 32-bit length can describe.
    TooLong,
}

/// Number of bytes in the length prefix.
pub const PREFIX_LEN: usize = 4;

/// The value of four bytes, least significant first.
pub open spec fn le_value(b0: u8, b1: u8, b2: u8, b3: u8) -> u32 {
    (b0 as u32) | ((b1 as u32) << 8u32) | ((b2 as u32) << 16u32) | ((b3 as u32) << 24u32)
}

/// The length that the first four bytes of `b` encode in the given order.
pub open spec fn prefix_value(b: Seq<u8>, order: ByteOrder) -> u32
    recommends
        b.len() >= 4,
{
    match order {
        ByteOrder::Little => le_value(b[0], b[1], b[2], b[3]),
        ByteOrder::Big => le_value(b[3], b[2], b[1], b[0]),
    }
}

/// The four prefix bytes that encode `n` in the given order.
pub open spec fn prefix_bytes(n: u32, order: ByteOrder) -> Seq<u8> {
    let lsb = seq![n as u8, (n >> 8u32) as u8, (n >> 16u32) as u8, (n >> 24u32) as u8];
    match order {
        ByteOrder::Little => lsb,
        ByteOrder::Big => seq![lsb[3], lsb[2], lsb[1], lsb[0]],
    }
}

/// The frame that carries `body`.
pub open spec fn frame_of(body: Seq<u8>, order: ByteOrder) -> Seq<u8>
    recommends
        body.len() <= u32::MAX,
{
    prefix_bytes(body.len() as u32, order) + body
}

/// Reading one frame from the start of `input`: the body and the number of
/// bytes the frame took, or `None` when the input ends too early.
pub open spec fn first_frame(input: Seq<u8>, order: ByteOrder) -> Option<(Seq<u8>, nat)> {
    if input.len() < 4 {
        None
    } else {
        let n = prefix_value(input, order) as nat;
        if input.len() < 4 + n {
            None
        } else {
            Some((input.subrange(4, 4 + n as int), 4 + n))
        }
    }
}

proof fn lemma_le_value_of_bytes(n: u32)
    ensures
        le_value(n as u8, (n >> 8u32) as u8, (n >> 16u32) as u8, (n >> 24u32) as u8) == n,
{
    assert(((n as u8) as u32) | ((((n >> 8u32) as u8) as u32) << 8u32) | ((((n >> 16u32) as u8)
        as u32) << 16u32) | ((((n >> 24u32) as u8) as u32) << 24u32) == n) by (bit_vector);
}

/// The prefix of a length reads back as that length.
pub proof fn lemma_prefix_round_trip(n: u32, order: ByteOrder, rest: Seq<u8>)
    ensures
        prefix_value(prefix_bytes(n, order) + rest, order) == n,
        prefix_bytes(n, order).len() == 4,
{
    lemma_le_value_of_bytes(n);
    let s = prefix_bytes(n, order) + rest;
    assert(s[0] == prefix_bytes(n, order)[0]);
    assert(s[1] == prefix_bytes(n, order)[1]);
    assert(s[2] == prefix_bytes(n, order)[2]);
    assert(s[3] == prefix_bytes(n, order)[3]);
}

/// Reading the frame of a body gives back exactly that body, and consumes
/// the whole frame, whatever follows it in the stream.
pub proof fn lemma_frame_round_trip(body: Seq<u8>, order: ByteOrder, rest: Seq<u8>)
    requires
        body.len() <= u32::MAX,
    ensures
        first_frame(frame_of(body, order) + rest, order) == Some(
            (body, frame_of(body, order).len()),
        ),
{
    let n = body.len() as u32;
    let f = frame_of(body, order);
    lemma_prefix_round_trip(n, order, body + rest);
    assert(f + rest =~= prefix_bytes(n, order) + (body + rest));
    assert((f + rest).subrange(4, 4 + body.len() as int) =~= body);
}

/// A stream that stops inside a frame, in its prefix or in its body, holds
/// no frame to read.
pub proof fn lemma_cut_frame_is_truncated(body: Seq<u8>, order: ByteOrder, cut: int)
    requires
        body.len() <= u32::MAX,
        0 <= cut < frame_of(body, order).len(),
    ensures
        first_frame(frame_of(body, order).subrange(0, cut), order) is None,
{
    let n = body.len() as u32;
    let f = frame_of(body, order);
    let part = f.subrange(0, cut);
    lemma_prefix_round_trip(n, order, body);
    if cut >= 4 {
        assert(part[0] == f[0] && part[1] == f[1] && part[2] == f[2] && part[3] == f[3]);
        assert(prefix_value(part, order) == prefix_value(f, order));
    }
}

/// The length encoded by the first four bytes of `input`.
pub fn read_length(input: &[u8], order: ByteOrder) -> (r: Result<u32, FrameError>)
    ensures
        input@.len() < 4 ==> r == Err::<u32, FrameError>(FrameError::Truncated),
        input@.len() >= 4 ==> r == Ok::<u32, FrameError>(prefix_value(input@, order)),
{
    if input.len() < PREFIX_LEN {
        return Err(FrameError::Truncated);
    }
    let (b0, b1, b2, b3) = match order {
        ByteOrder::Little => (input[0], input[1], input[2], input[3]),
        ByteOrder::Big => (input[3], input[2], input[1], input[0]),
    };
    Ok((b0 as u32) | ((b1 as u32) << 8u32) | ((b2 as u32) << 16u32) | ((b3 as u32) << 24u32))
}

/// The four prefix bytes for a body of length `n`.
pub fn length_prefix(n: u32, order: ByteOrder) -> (r: [u8; 4])
    ensures
        r@ == prefix_bytes(n, order),
{
    let lsb: [u8; 4] = [n as u8, (n >> 8u32) as u8, (n >> 16u32) as u8, (n >> 24u32) as u8];
    let r = match order {
        ByteOrder::Little => lsb,
        ByteOrder::Big => [lsb[3], lsb[2], lsb[1], lsb[0]],
    };
    assert(r@ =~= prefix_bytes(n, order));
    r
}

/// Frames `body`: its length prefix, then the body itself.
pub fn encode_frame(body: &[u8], order: ByteOrder) -> (r: Result<Vec<u8>, FrameError>)
    ensures
        body@.len() > u32::MAX ==> r == Err::<Vec<u8>, FrameError>(FrameError::TooLong),
        body@.len() <= u32::MAX ==> r is Ok && r->Ok_0@ == frame_of(body@, order),
{
    if body.len() > u32::MAX as usize {
        return Err(FrameError::TooLong);
    }
    let prefix = length_prefix(body.len() as u32, order);
    let mut out: Vec<u8> = Vec::new();
    let mut i: usize = 0;
    while i < PREFIX_LEN
        invariant
            i <= 4,
            out@ == prefix@.subrange(0, i as int),
        decreases 4 - i,
    {
        out.push(prefix[i]);
        i += 1;
    }
    let mut j: usize = 0;
    while j < body.len()
        invariant
            j <= body@.len(),
            out@ == prefix@ + body@.subrange(0, j as int),
        decreases body@.len() - j,
    {
        out.push(body[j]);
        j += 1;
        assert(body@.subrange(0, j as int) =~= body@.subrange(0, j - 1) + seq![body@[j - 1]]);
    }
    assert(body@.subrange(0, body@.len() as int) =~= body@);
    Ok(out)
}

/// Reads the first frame of `input`: its body and the number of bytes the
/// frame took. Fails with `Truncated` exactly when the input ends before
/// the prefix or the body is complete.
pub fn decode_frame(input: &[u8], order: ByteOrder) -> (r: Result<(Vec<u8>, usize), FrameError>)
    ensures
        first_frame(input@, order) is None ==> r == Err::<(Vec<u8>, usize), FrameError>(
            FrameError::Truncated,
        ),
        first_frame(input@, order) matches Some((body, used)) ==> r is Ok && r->Ok_0.0@ == body
            && r->Ok_0.1 == used,
{
    let n = match read_length(input, order) {
        Ok(n) => n,
        Err(e) => return Err(e),
    };
    if input.len() - PREFIX_LEN < n as usize {
        return Err(FrameError::Truncated);
    }
    let end = PREFIX_LEN + n as usize;
    let mut body: Vec<u8> = Vec::with_capacity(n as usize);
    let mut i: usize = PREFIX_LEN;
    while i < end
        invariant
            4 <= i <= end,
            end <= input@.len(),
            body@ == input@.subrange(4, i as int),
        decreases end - i,
    {
        body.push(input[i]);
        i += 1;
        assert(input@.subrange(4, i as int) =~= input@.subrange(4, i - 1) + seq![input@[i - 1]]);
    }
    Ok((body, end))
}

} // verus!
