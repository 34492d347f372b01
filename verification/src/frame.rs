//! Bus frames: layout, checksum, assembly and parsing.
//!
//! Every frame on the bus, request or response, has the same shape:
//!
//! ```text
//! 0xFF 0xFF  id  length  code  parameters...  checksum
//! ```
//!
//! `length` counts the bytes that follow it: the code, the parameters and the
//! checksum. `code` is the instruction of a request and the status of a
//! response. `checksum` is the complement of the low byte of the sum of all
//! bytes from `id` to the last parameter.

use vstd::prelude::*;
use crate::error::CoreError;

verus! {

/// The byte that opens a frame, twice.
pub const HEADER: u8 = 0xFF;

/// Bytes of a frame besides its parameters.
pub const FRAME_OVERHEAD: usize = 6;

/// The most parameters one frame can carry, bounded by the length byte.
pub const MAX_PARAMS: usize = 253;

/// The sum of the bytes of `bytes`.
pub open spec fn byte_sum(bytes: Seq<u8>) -> nat
    decreases bytes.len(),
{
    if bytes.len() == 0 {
        0
    } else {
        byte_sum(bytes.drop_last()) + bytes.last() as nat
    }
}

/// The checksum byte for the frame body `body` (`id` through the last
/// parameter): the complement of the low byte of the sum.
pub open spec fn checksum(body: Seq<u8>) -> u8 {
    (255 - byte_sum(body) % 256) as u8
}

/// The frame that carries `code` and `params` to or from actuator `id`.
pub open spec fn frame(id: u8, code: u8, params: Seq<u8>) -> Seq<u8> {
    let body = seq![id, (params.len() + 2) as u8, code] + params;
    seq![HEADER, HEADER] + body + seq![checksum(body)]
}

/// Whether `bytes` has the shape of a frame: long enough, opened by the
/// header, and exactly as long as its length byte says.
pub open spec fn well_formed(bytes: Seq<u8>) -> bool {
    &&& bytes.len() >= FRAME_OVERHEAD
    &&& bytes[0] == HEADER
    &&& bytes[1] == HEADER
    &&& bytes[3] as int + 4 == bytes.len()
}

/// The part of a frame the checksum covers.
pub open spec fn body_of(bytes: Seq<u8>) -> Seq<u8> {
    bytes.subrange(2, bytes.len() - 1)
}

/// The parameters of a frame.
pub open spec fn params_of(bytes: Seq<u8>) -> Seq<u8> {
    bytes.subrange(5, bytes.len() - 1)
}

/// Whether the last byte of `bytes` is the checksum of its body.
pub open spec fn checksum_valid(bytes: Seq<u8>) -> bool {
    bytes.last() == checksum(body_of(bytes))
}

/// What a frame says, as a mathematical value.
pub struct FrameModel {
    pub id: u8,
    pub code: u8,
    pub params: Seq<u8>,
}

/// A parsed frame.
#[derive(Clone, Debug, PartialEq, Eq)]
pub struct Frame {
    /// The actuator the frame is addressed to or comes from.
    pub id: u8,
    /// Instruction of a request, status of a response.
    pub code: u8,
    /// The parameter bytes.
    pub params: Vec<u8>,
}

impl View for Frame {
    type V = FrameModel;

    open spec fn view(&self) -> FrameModel {
        FrameModel { id: self.id, code: self.code, params: self.params@ }
    }
}

/// What parsing `bytes` yields: the content of a well-formed frame with a
/// valid checksum, `MalformedFrame` for bytes without the shape of a frame,
/// `ChecksumMismatch` for a frame whose checksum byte is wrong.
pub open spec fn parsed(bytes: Seq<u8>) -> Result<FrameModel, CoreError> {
    if !well_formed(bytes) {
        Err(CoreError::MalformedFrame)
    } else if !checksum_valid(bytes) {
        Err(CoreError::ChecksumMismatch)
    } else {
        Ok(FrameModel { id: bytes[2], code: bytes[4], params: params_of(bytes) })
    }
}

/// The outcome of a parse as a mathematical value.
pub open spec fn parse_outcome(r: Result<Frame, CoreError>) -> Result<FrameModel, CoreError> {
    match r {
        Ok(f) => Ok(f@),
        Err(e) => Err(e),
    }
}

/// Extending a sequence by one byte adds that byte to its sum.
pub proof fn byte_sum_push(bytes: Seq<u8>, b: u8)
    ensures
        byte_sum(bytes.push(b)) == byte_sum(bytes) + b as nat,
{
    assert(bytes.push(b).drop_last() =~= bytes);
}

/// The checksum of `bytes[from..to]`.
fn checksum_over(bytes: &[u8], from: usize, to: usize) -> (sum: u8)
    requires
        from <= to <= bytes@.len(),
    ensures
        sum == checksum(bytes@.subrange(from as int, to as int)),
{
    let mut low: u32 = 0;
    let mut i: usize = from;
    while i < to
        invariant
            from <= i <= to <= bytes@.len(),
            low == byte_sum(bytes@.subrange(from as int, i as int)) % 256,
        decreases to - i,
    {
        proof {
            byte_sum_push(bytes@.subrange(from as int, i as int), bytes@[i as int]);
            assert(bytes@.subrange(from as int, i as int).push(bytes@[i as int])
                =~= bytes@.subrange(from as int, i + 1));
        }
        low = (low + bytes[i] as u32) % 256;
        i = i + 1;
    }
    (255 - low) as u8
}

/// Assembles the frame that carries `code` and `params` to or from actuator
/// `id`. Fails with `PayloadTooLarge` exactly when `params` is longer than
/// [`MAX_PARAMS`], the most the length byte can announce.
pub fn assemble(id: u8, code: u8, params: &[u8]) -> (r: Result<Vec<u8>, CoreError>)
    ensures
        params@.len() > MAX_PARAMS ==> r == Err::<Vec<u8>, CoreError>(CoreError::PayloadTooLarge),
        params@.len() <= MAX_PARAMS ==> r is Ok && r->Ok_0@ == frame(id, code, params@),
{
    if params.len() > MAX_PARAMS {
        return Err(CoreError::PayloadTooLarge);
    }
    let mut out: Vec<u8> = Vec::new();
    out.push(HEADER);
    out.push(HEADER);
    out.push(id);
    out.push((params.len() + 2) as u8);
    out.push(code);
    let ghost head = out@;
    let mut i: usize = 0;
    while i < params.len()
        invariant
            i <= params@.len() <= MAX_PARAMS,
            out@ == head + params@.subrange(0, i as int),
        decreases params@.len() - i,
    {
        out.push(params[i]);
        i = i + 1;
    }
    let n: usize = out.len();
    let sum = checksum_over(out.as_slice(), 2, n);
    proof {
        let body = seq![id, (params@.len() + 2) as u8, code] + params@;
        assert(out@.subrange(2, n as int) =~= body);
    }
    out.push(sum);
    Ok(out)
}

/// Parses one frame. The whole of `bytes` must be the frame: bytes before the
/// header or after the checksum make it malformed.
pub fn parse(bytes: &[u8]) -> (r: Result<Frame, CoreError>)
    ensures
        parse_outcome(r) == parsed(bytes@),
{
    let n: usize = bytes.len();
    if n < FRAME_OVERHEAD {
        return Err(CoreError::MalformedFrame);
    }
    if bytes[0] != HEADER || bytes[1] != HEADER {
        return Err(CoreError::MalformedFrame);
    }
    if bytes[3] as usize + 4 != n {
        return Err(CoreError::MalformedFrame);
    }
    let sum = checksum_over(bytes, 2, n - 1);
    if bytes[n - 1] != sum {
        return Err(CoreError::ChecksumMismatch);
    }
    let mut params: Vec<u8> = Vec::new();
    let mut i: usize = 5;
    while i < n - 1
        invariant
            5 <= i <= n - 1,
            n == bytes@.len(),
            params@ == bytes@.subrange(5, i as int),
        decreases n - i,
    {
        params.push(bytes[i]);
        i = i + 1;
    }
    Ok(Frame { id: bytes[2], code: bytes[4], params })
}

/// An assembled frame has the shape of a frame and a valid checksum, and
/// parsing it gives back the identifier, the code and the parameters it was
/// assembled from.
pub proof fn parse_inverts_frame(id: u8, code: u8, params: Seq<u8>)
    requires
        params.len() <= MAX_PARAMS,
    ensures
        well_formed(frame(id, code, params)),
        checksum_valid(frame(id, code, params)),
        frame(id, code, params).len() == params.len() + FRAME_OVERHEAD,
        parsed(frame(id, code, params)) == Ok::<FrameModel, CoreError>(
            FrameModel { id, code, params },
        ),
{
    let body = seq![id, (params.len() + 2) as u8, code] + params;
    let f = frame(id, code, params);
    assert(body_of(f) =~= body);
    assert(params_of(f) =~= params);
}

/// Two different checksum bytes cannot both be valid for the same body: a
/// frame whose last byte is altered no longer parses.
pub proof fn altered_checksum_is_rejected(id: u8, code: u8, params: Seq<u8>, wrong: u8)
    requires
        params.len() <= MAX_PARAMS,
        wrong != frame(id, code, params).last(),
    ensures
        parsed(frame(id, code, params).drop_last().push(wrong)) == Err::<FrameModel, CoreError>(
            CoreError::ChecksumMismatch,
        ),
{
    parse_inverts_frame(id, code, params);
    let f = frame(id, code, params);
    let g = f.drop_last().push(wrong);
    assert(body_of(g) =~= body_of(f));
}

} // verus!
