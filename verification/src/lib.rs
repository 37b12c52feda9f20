//! The verified core of a streaming audio player: a bounded
//! single-producer/single-consumer sample ring, the feeder that fills it
//! under backpressure, the real-time device callback that drains it — gain,
//! underrun silence, completion detection — the shared playback status the
//! threads observe, and the lifecycle that ties them together. Demuxing,
//! decoding and the audio device are outside collaborators; the samples they
//! produce and consume travel through here as plain 32-bit words.

pub mod feeder;
pub mod observer;
pub mod player;
pub mod ring;
pub mod sample;
pub mod sink;
pub mod status;

use vstd::prelude::*;

verus! {

/// Number of interleaved channels in every sample buffer (stereo).
pub const CHANNELS: usize = 2;

/// Target playback sample rate in frames per second.
pub const SAMPLE_RATE: usize = 48000;

/// Frames requested by the audio device per callback invocation.
pub const FRAMES_PER_BUFFER: usize = 512;

/// Capacity of the sample ring: one second of interleaved audio.
pub const BUFFER_SIZE: usize = SAMPLE_RATE * CHANNELS;

} // verus!
