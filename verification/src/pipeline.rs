use vstd::prelude::*;

use crate::config::{is_selected_config, select_output_config, OutputConfig};
use crate::cursor::PlaybackCursor;
use crate::decode::{decode_accepts, decode_frames, paired_frames};
use crate::error::AudioError;
use crate::resample::{out_frame, resample, resampled_len};

verus! {

/// Everything the unverified shell needs to run one playback: which device
/// configuration to open, the rate to open it at, a cursor over the fully
/// resampled buffer, and how long to wait before dropping the stream.
pub struct PlaybackPlan {
    pub config_index: usize,
    pub target_rate: u32,
    pub cursor: PlaybackCursor,
    pub duration_millis: u128,
}

/// Wall-clock length in milliseconds of `frame_count` frames played at
/// `rate`, rounded up so that the wait outlasts the audio — trailing silence
/// over truncated content.
pub open spec fn duration_millis_spec(frame_count: int, rate: int) -> int {
    (frame_count * 1000 + rate - 1) / rate
}

pub fn playback_duration_millis(frame_count: usize, rate: u32) -> (r: u128)
    requires
        rate >= 1,
    ensures
        r == duration_millis_spec(frame_count as int, rate as int),
{
    ((frame_count as u128) * 1000 + (rate as u128) - 1) / (rate as u128)
}

/// Whether any configuration of the device carries two channels.
pub open spec fn has_stereo_config(configs: Seq<OutputConfig>) -> bool {
    exists|j: int| 0 <= j < configs.len() && #[trigger] configs[j].channels == 2
}

/// The whole compute side of one playback attempt: pick the output
/// configuration, validate and frame the decoded source, resample it to the
/// device's rate, and wrap the buffer in a fresh cursor. Every step that can
/// fail says so in the result; nothing here touches a device.
pub fn prepare_playback(
    channels: u16,
    sample_rate: u32,
    samples: Vec<i32>,
    configs: &Vec<OutputConfig>,
) -> (r: Result<PlaybackPlan, AudioError>)
    requires
        forall|j: int| 0 <= j < configs@.len() && (#[trigger] configs@[j]).channels == 2
            ==> configs@[j].max_sample_rate >= 1,
    ensures
        !has_stereo_config(configs@) ==> r == Err::<PlaybackPlan, AudioError>(
            AudioError::DeviceConfig,
        ),
        has_stereo_config(configs@) && channels != 2 ==> r == Err::<PlaybackPlan, AudioError>(
            AudioError::UnsupportedChannelLayout,
        ),
        has_stereo_config(configs@) && channels == 2 && (sample_rate == 0 || samples@.len() % 2
            != 0) ==> r == Err::<PlaybackPlan, AudioError>(AudioError::Decode),
        has_stereo_config(configs@) && decode_accepts(
            channels as int,
            sample_rate as int,
            samples@.len() as int,
        ) ==> (r matches Ok(plan) && {
            let source = paired_frames(samples@);
            let ri = sample_rate as int;
            let ro = plan.target_rate as int;
            &&& is_selected_config(configs@, plan.config_index as int)
            &&& plan.target_rate == configs@[plan.config_index as int].max_sample_rate
            &&& plan.cursor.wf()
            &&& plan.cursor.pos() == 0
            &&& plan.cursor.frames().len() == resampled_len(source.len() as int, ri, ro)
            &&& forall|k: int| 0 <= k < plan.cursor.frames().len()
                ==> (#[trigger] plan.cursor.frames()[k]).left == out_frame(source, ri, ro, k).0
                    && plan.cursor.frames()[k].right == out_frame(source, ri, ro, k).1
            &&& plan.duration_millis == duration_millis_spec(
                resampled_len(source.len() as int, ri, ro),
                ro,
            )
        }),
{
    let config_index = match select_output_config(configs) {
        Some(i) => i,
        None => {
            return Err(AudioError::DeviceConfig);
        },
    };
    let target_rate = configs[config_index].max_sample_rate;
    let decoded = match decode_frames(channels, sample_rate, samples) {
        Ok(d) => d,
        Err(e) => {
            return Err(e);
        },
    };
    let buffer = resample(&decoded.frames, decoded.sample_rate, target_rate);
    let duration_millis = playback_duration_millis(buffer.len(), target_rate);
    let cursor = PlaybackCursor::new(buffer);
    Ok(PlaybackPlan { config_index, target_rate, cursor, duration_millis })
}

} // verus!
