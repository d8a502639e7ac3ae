//! Decoding the raw PCM byte buffer that crosses the foreign boundary:
//! little-endian 16-bit signed samples, two bytes each.

use vstd::prelude::*;

verus! {

/// The 16-bit signed sample assembled from its two little-endian bytes.
pub open spec fn sample_from_le(lo: u8, hi: u8) -> i16 {
    (((hi as u16) << 8u16) | (lo as u16)) as i16
}

/// The samples a byte buffer holds: consecutive little-endian pairs; a
/// trailing odd byte carries no sample and is dropped.
pub open spec fn decoded_samples(bytes: Seq<u8>) -> Seq<i16> {
    Seq::new(bytes.len() / 2, |i: int| sample_from_le(bytes[2 * i], bytes[2 * i + 1]))
}

/// Decode a raw PCM byte buffer, as handed across the foreign boundary, into
/// 16-bit signed samples, little-endian.
pub fn decode_pcm_le(bytes: &[u8]) -> (r: Vec<i16>)
    ensures
        r@ == decoded_samples(bytes@),
{
    let n: usize = bytes.len() / 2;
    let mut out: Vec<i16> = Vec::new();
    let mut k: usize = 0;
    while k < n
        invariant
            k <= n,
            n == bytes@.len() / 2,
            2 * n <= usize::MAX,
            out@.len() == k,
            forall|j: int|
                0 <= j < k ==> out@[j] == sample_from_le(bytes@[2 * j], bytes@[2 * j + 1]),
        decreases n - k,
    {
        proof {
            assert(2 * (bytes@.len() / 2) <= bytes@.len());
            assert(2 * k + 1 < bytes@.len());
        }
        let lo: u8 = bytes[2 * k];
        let hi: u8 = bytes[2 * k + 1];
        let word: u16 = ((hi as u16) << 8u16) | (lo as u16);
        let sample: i16 = #[verifier::truncate] (word as i16);
        out.push(sample);
        k += 1;
    }
    assert(out@ =~= decoded_samples(bytes@));
    out
}

} // verus!
