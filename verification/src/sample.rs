//! Samples of sound and the packed bytes that they come in.
use vstd::prelude::*;

verus! {

/// Bytes of a sample.
pub const SAMPLE_BYTES: usize = 4;

/// One sample: the four bytes of a floating-point number, in the order in
/// which they lie in memory.
#[derive(Clone, Copy, Debug, PartialEq, Eq, Structural)]
pub struct Sample(pub u8, pub u8, pub u8, pub u8);

impl Sample {
    /// The number zero.
    pub open spec fn spec_silence() -> Sample {
        Sample(0, 0, 0, 0)
    }

    /// The number zero.
    pub fn silence() -> (sample: Sample)
        ensures
            sample == Sample::spec_silence(),
    {
        Sample(0, 0, 0, 0)
    }
}

/// The sample at byte `at` of `raw`.
pub open spec fn sample_at(raw: Seq<u8>, at: int) -> Sample {
    Sample(raw[at], raw[at + 1], raw[at + 2], raw[at + 3])
}

/// The first `n` samples of `raw`, if it holds that many.
pub open spec fn spec_packed_samples(raw: Seq<u8>, n: int) -> Option<Seq<Sample>> {
    if raw.len() >= n * SAMPLE_BYTES {
        Some(Seq::new(n as nat, |i: int| sample_at(raw, i * SAMPLE_BYTES)))
    } else {
        None
    }
}

/// The first samples of `raw`: `channels` for each of `frames` frames. None if
/// `raw` holds fewer.
pub fn packed_samples(raw: &[u8], frames: usize, channels: u16) -> (samples: Option<Vec<Sample>>)
    ensures
        match spec_packed_samples(raw@, frames * channels) {
            Some(expected) => samples matches Some(found) && found@ == expected,
            None => samples is None,
        },
{
    let raw_len: usize = raw.len();
    assert(0 <= frames * channels <= 0xffff_ffff_ffff_ffff * 0xffff) by (nonlinear_arith)
        requires
            0 <= frames <= 0xffff_ffff_ffff_ffff,
            0 <= channels <= 0xffff,
    ;
    assert(SAMPLE_BYTES as u128 == 4);
    let wanted: u128 = frames as u128 * channels as u128;
    if (raw_len as u128) < wanted * SAMPLE_BYTES as u128 {
        return None;
    }
    let n: usize = wanted as usize;
    let mut samples: Vec<Sample> = Vec::with_capacity(n);
    let mut i: usize = 0;
    while i < n
        invariant
            i <= n,
            raw_len == raw@.len(),
            n * SAMPLE_BYTES <= raw_len,
            samples@.len() == i,
            forall|j: int|
                0 <= j < i ==> #[trigger] samples@[j] == sample_at(raw@, j * SAMPLE_BYTES),
        decreases n - i,
    {
        let at: usize = i * SAMPLE_BYTES;
        samples.push(Sample(raw[at], raw[at + 1], raw[at + 2], raw[at + 3]));
        i = i + 1;
    }
    assert(samples@ =~= spec_packed_samples(raw@, frames * channels)->0);
    Some(samples)
}

/// Bytes become samples without being touched or moved: where there are four
/// bytes for each of `n` samples, there are exactly `n` of them, and each is
/// made of the next four bytes in their order; with fewer bytes there is none.
/// Silence is four zero bytes.
pub proof fn law_samples_keep_their_bytes(raw: Seq<u8>, n: nat)
    ensures
        raw.len() < 4 * n ==> spec_packed_samples(raw, n as int) is None,
        raw.len() >= 4 * n ==> {
            &&& spec_packed_samples(raw, n as int) matches Some(samples)
            &&& samples.len() == n
            &&& forall|i: int|
                #![trigger samples[i]]
                0 <= i < n ==> samples[i].0 == raw[4 * i] && samples[i].1 == raw[4 * i + 1]
                    && samples[i].2 == raw[4 * i + 2] && samples[i].3 == raw[4 * i + 3]
        },
        Sample::spec_silence() == Sample(0, 0, 0, 0),
{
}

/// Samples are taken from the bytes by the same rule by the call: all that were
/// asked for, each made of its own four bytes, or none where there are too few.
pub proof fn law_call_keeps_the_bytes(
    raw: &[u8],
    frames: usize,
    channels: u16,
    samples: Option<Vec<Sample>>,
    i: int,
)
    requires
        call_ensures(packed_samples, (raw, frames, channels), samples),
    ensures
        samples is Some <==> raw@.len() >= 4 * (frames * channels),
        samples matches Some(found) ==> {
            &&& found@.len() == frames * channels
            &&& 0 <= i < found@.len() ==> found@[i] == Sample(
                raw@[4 * i],
                raw@[4 * i + 1],
                raw@[4 * i + 2],
                raw@[4 * i + 3],
            )
        },
{
    assert(frames * channels >= 0) by (nonlinear_arith)
        requires
            frames >= 0,
            channels >= 0,
    ;
    law_samples_keep_their_bytes(raw@, (frames * channels) as nat);
}

} // verus!
