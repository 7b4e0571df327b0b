//! Raw audio codec: 16-bit little-endian signed PCM bytes to integer samples.
//!
//! Scaling a sample into the normalized range (dividing by `i16::MAX`) is
//! floating-point work and is left to the caller; everything up to the
//! integer sample is decided and proved here.
use vstd::prelude::*;

verus! {

/// Largest positive 16-bit sample; the divisor that maps samples to [-1, 1].
pub const FULL_SCALE: i16 = 32767;

/// Why a byte buffer could not be decoded.
#[derive(Debug, Clone, Copy, PartialEq, Eq, Structural)]
pub enum CodecError {
    /// The buffer has an odd number of bytes, so its last sample is cut short.
    MalformedInput,
}

/// The signed value of a little-endian 16-bit word made of `lo` and `hi`.
pub open spec fn le16(lo: u8, hi: u8) -> int {
    if hi < 128 {
        hi as int * 256 + lo as int
    } else {
        hi as int * 256 + lo as int - 65536
    }
}

/// The samples that an even-length buffer encodes, in order.
pub open spec fn decoded(b: Seq<u8>) -> Seq<int> {
    Seq::new(b.len() / 2, |i: int| le16(b[2 * i], b[2 * i + 1]))
}

/// Whether `v` holds exactly the samples encoded by `b`.
pub open spec fn decodes_to(b: Seq<u8>, v: Seq<i16>) -> bool {
    &&& v.len() == b.len() / 2
    &&& forall|i: int| 0 <= i < v.len() ==> #[trigger] v[i] as int == decoded(b)[i]
}

/// What decoding `b` gives: the samples for an even length, else the error.
pub open spec fn decode_outcome(b: Seq<u8>, r: Result<Vec<i16>, CodecError>) -> bool {
    if b.len() % 2 == 0 {
        r is Ok && decodes_to(b, r->Ok_0@)
    } else {
        r == Err::<Vec<i16>, CodecError>(CodecError::MalformedInput)
    }
}

/// Reads one little-endian signed 16-bit sample.
pub fn sample_from_le_bytes(lo: u8, hi: u8) -> (r: i16)
    ensures
        r as int == le16(lo, hi),
{
    let v: u16 = (hi as u16) * 256 + (lo as u16);
    if hi < 128 {
        v as i16
    } else {
        (v as i32 - 65536) as i16
    }
}

/// Decodes a PCM16LE byte buffer into its samples.
///
/// An odd-length buffer is refused with `MalformedInput`; its trailing byte is
/// never dropped silently.
pub fn pcm16le_to_samples(bytes: &[u8]) -> (r: Result<Vec<i16>, CodecError>)
    ensures
        decode_outcome(bytes@, r),
{
    let n: usize = bytes.len();
    if n % 2 != 0 {
        return Err(CodecError::MalformedInput);
    }
    let mut out: Vec<i16> = Vec::with_capacity(n / 2);
    let mut k: usize = 0;
    while k < n / 2
        invariant
            n == bytes@.len(),
            n % 2 == 0,
            k <= n / 2,
            out@.len() == k,
            forall|i: int| 0 <= i < k ==> #[trigger] out@[i] as int == decoded(bytes@)[i],
        decreases n / 2 - k,
    {
        let s = sample_from_le_bytes(bytes[2 * k], bytes[2 * k + 1]);
        out.push(s);
        k = k + 1;
    }
    Ok(out)
}

/// Every decoded sample divided by `FULL_SCALE` lies in [-1.0, 1.0], with one
/// exception: the word `[0x00, 0x80]`, which gives -32768 and so -1.0000305.
pub proof fn lemma_samples_within_full_scale(b: Seq<u8>)
    ensures
        forall|i: int|
            0 <= i < decoded(b).len() ==> -32768 <= #[trigger] decoded(b)[i] <= FULL_SCALE,
        forall|i: int|
            0 <= i < decoded(b).len() ==> (#[trigger] decoded(b)[i] == -32768 <==> (b[2 * i]
                == 0x00u8 && b[2 * i + 1] == 0x80u8)),
{
}

/// A zero-filled buffer decodes to silence: every sample is zero.
pub proof fn lemma_zero_buffer_is_silent(b: Seq<u8>)
    requires
        forall|i: int| 0 <= i < b.len() ==> #[trigger] b[i] == 0u8,
    ensures
        forall|i: int| 0 <= i < decoded(b).len() ==> #[trigger] decoded(b)[i] == 0,
{
    assert forall|i: int| 0 <= i < decoded(b).len() implies #[trigger] decoded(b)[i] == 0 by {
        assert(b[2 * i] == 0u8 && b[2 * i + 1] == 0u8);
    }
}

/// The extreme words decode to the extreme samples: `[0xFF, 0x7F]` is the
/// largest positive sample and `[0x00, 0x80]` the most negative one.
pub proof fn lemma_extreme_words()
    ensures
        le16(0xFFu8, 0x7Fu8) == FULL_SCALE,
        le16(0x00u8, 0x80u8) == -32768,
{
}

} // verus!
