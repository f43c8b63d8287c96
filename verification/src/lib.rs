//! Core of a single-shot audio playback pipeline: decoded stereo frames are
//! resampled to an output device's rate by linear interpolation, stored in a
//! materialized buffer, and streamed out through a forward-only cursor that
//! pads with silence once the buffer is exhausted.
//!
//! Amplitudes are fixed-point integers; the unverified shell around this
//! library converts to and from the device's own sample format at its edge.

pub mod frame;
pub mod error;
pub mod resample;
pub mod cursor;
pub mod driver;
pub mod config;
pub mod decode;
pub mod pipeline;
