use vstd::prelude::*;

verus! {

/// Everything that can go wrong in one playback attempt. Errors raised while
/// preparing playback are fatal for the attempt; `RuntimeCallback` is only
/// ever observed on the device's side channel and never aborts playback.
#[derive(Clone, Copy, PartialEq, Eq, Structural, Debug)]
pub enum AudioError {
    /// The asset bytes could not be read.
    Io,
    /// The asset bytes do not form valid audio data.
    Decode,
    /// The decoded asset does not carry exactly two channels.
    UnsupportedChannelLayout,
    /// The output device offers no two-channel configuration.
    DeviceConfig,
    /// The device refused to build the output stream.
    StreamBuild,
    /// An out-of-band device error reported during playback; observational only.
    RuntimeCallback,
}

} // verus!
