use vstd::prelude::*;

use crate::error::AudioError;
use crate::frame::Frame;

verus! {

/// The decoded form of an audio asset: the sample rate the source was
/// recorded at, and its frames in playback order.
#[derive(PartialEq, Eq, Debug)]
pub struct DecodedAudio {
    pub sample_rate: u32,
    pub frames: Vec<Frame>,
}

/// Interleaved stereo samples paired into frames: element `2 * i` is the
/// left and element `2 * i + 1` the right amplitude of frame `i`.
pub open spec fn paired_frames(samples: Seq<i32>) -> Seq<Frame> {
    Seq::new(
        samples.len() / 2,
        |i: int| Frame { left: samples[2 * i], right: samples[2 * i + 1] },
    )
}

/// Whether a source of this declared shape is accepted by the decoder
/// adapter: exactly two channels, a positive sample rate, and no truncated
/// trailing frame.
pub open spec fn decode_accepts(channels: int, sample_rate: int, n_samples: int) -> bool {
    channels == 2 && sample_rate >= 1 && n_samples % 2 == 0
}

/// The decoder adapter's validation and framing step: given the channel
/// count and sample rate a decoder declared and the interleaved samples it
/// produced, reject anything but a well-formed stereo source — fail fast
/// rather than guess at a layout — and pair the samples into frames.
pub fn decode_frames(channels: u16, sample_rate: u32, samples: Vec<i32>) -> (r: Result<
    DecodedAudio,
    AudioError,
>)
    ensures
        channels != 2 ==> r == Err::<DecodedAudio, AudioError>(
            AudioError::UnsupportedChannelLayout,
        ),
        channels == 2 && (sample_rate == 0 || samples@.len() % 2 != 0) ==> r == Err::<
            DecodedAudio,
            AudioError,
        >(AudioError::Decode),
        decode_accepts(channels as int, sample_rate as int, samples@.len() as int) ==> (r matches
        Ok(d) && d.sample_rate == sample_rate && d.frames@ == paired_frames(samples@)),
{
    if channels != 2 {
        return Err(AudioError::UnsupportedChannelLayout);
    }
    if sample_rate == 0 {
        return Err(AudioError::Decode);
    }
    if samples.len() % 2 != 0 {
        return Err(AudioError::Decode);
    }
    let half = samples.len() / 2;
    let mut frames: Vec<Frame> = Vec::new();
    let mut i: usize = 0;
    #[verifier::loop_isolation(false)]
    while i < half
        invariant
            i <= half,
            frames@.len() == i,
            forall|j: int| 0 <= j < i ==> #[trigger] frames@[j] == (Frame {
                left: samples@[2 * j],
                right: samples@[2 * j + 1],
            }),
        decreases half - i,
    {
        let left = samples[2 * i];
        let right = samples[2 * i + 1];
        frames.push(Frame { left, right });
        i = i + 1;
    }
    proof {
        assert(frames@ =~= paired_frames(samples@));
    }
    Ok(DecodedAudio { sample_rate, frames })
}

} // verus!
