use vstd::prelude::*;

use crate::error::DecodeWarning;

verus! {

/// The signed 16-bit value whose little-endian bytes are `lo`, `hi`.
pub open spec fn le_sample(lo: u8, hi: u8) -> int {
    if hi < 128 {
        hi * 256 + lo
    } else {
        (hi - 256) * 256 + lo
    }
}

/// The samples of a little-endian 16-bit PCM run: one per complete byte pair.
pub open spec fn samples16_of(bytes: Seq<u8>) -> Seq<i16> {
    Seq::new(bytes.len() / 2, |i: int| le_sample(bytes[2 * i], bytes[2 * i + 1]) as i16)
}

/// The centred values of an unsigned 8-bit PCM run biased at 128.
pub open spec fn centered_of(bytes: Seq<u8>) -> Seq<i16> {
    Seq::new(bytes.len(), |i: int| (bytes[i] - 128) as i16)
}

/// Reads one signed 16-bit sample from its little-endian bytes.
pub fn sample_from_le_bytes(lo: u8, hi: u8) -> (s: i16)
    ensures
        s as int == le_sample(lo, hi),
{
    if hi < 128 {
        (hi as i16) * 256 + lo as i16
    } else {
        (hi as i16 - 256) * 256 + lo as i16
    }
}

/// Decodes signed 16-bit little-endian interleaved samples. An odd trailing
/// byte makes no sample: it is dropped and reported as a warning.
pub fn to_samples16(audio: &[u8]) -> (r: (Vec<i16>, Option<DecodeWarning>))
    ensures
        r.0@ == samples16_of(audio@),
        r.0@.len() == audio@.len() / 2,
        r.1 == (if audio@.len() % 2 == 0 {
            None
        } else {
            Some(DecodeWarning::IncompleteSample)
        }),
{
    let n = audio.len();
    let count = n / 2;
    let mut samples: Vec<i16> = Vec::with_capacity(count);
    let mut i: usize = 0;
    while i < count
        invariant
            n == audio@.len(),
            count == n / 2,
            i <= count,
            samples@ =~= samples16_of(audio@).take(i as int),
        decreases count - i,
    {
        let s = sample_from_le_bytes(audio[2 * i], audio[2 * i + 1]);
        samples.push(s);
        i = i + 1;
    }
    let warning = if n % 2 == 0 {
        None
    } else {
        Some(DecodeWarning::IncompleteSample)
    };
    (samples, warning)
}

/// Decodes the legacy unsigned 8-bit format, biased at 128, into centred
/// values in `-128..128`; dividing each by 128 normalises it.
pub fn center_biased_samples(audio: &[u8]) -> (r: Vec<i16>)
    ensures
        r@ == centered_of(audio@),
{
    let mut samples: Vec<i16> = Vec::with_capacity(audio.len());
    let mut i: usize = 0;
    while i < audio.len()
        invariant
            i <= audio@.len(),
            samples@ =~= centered_of(audio@).take(i as int),
        decreases audio@.len() - i,
    {
        samples.push(audio[i] as i16 - 128);
        i = i + 1;
    }
    samples
}

} // verus!
