use vstd::prelude::*;

verus! {

/// Shared playback progress state. One instance accompanies a stream for its
/// whole life: the feeder raises and lowers `is_decoding` and advances
/// `frames_decoded`; the audio callback advances `frames_played` and lowers
/// `is_playing`; the orchestrator raises `is_playing` once the device starts.
/// All counters are in frames (one sample per channel), not raw samples.
pub struct PlayerStatus {
    pub is_decoding: bool,
    pub is_playing: bool,
    pub frames_decoded: usize,
    pub frames_played: usize,
}

impl PlayerStatus {
    /// A fresh status: nothing decoded, nothing played, both flags down.
    pub fn new() -> (s: Self)
        ensures
            !s.is_decoding,
            !s.is_playing,
            s.frames_decoded == 0,
            s.frames_played == 0,
    {
        PlayerStatus {
            is_decoding: false,
            is_playing: false,
            frames_decoded: 0,
            frames_played: 0,
        }
    }

    /// Raise the decoding flag: the idempotent set-true the feeder performs
    /// after each forwarded frame.
    pub fn mark_decoding(&mut self)
        ensures
            final(self).is_decoding,
            final(self).is_playing == old(self).is_playing,
            final(self).frames_decoded == old(self).frames_decoded,
            final(self).frames_played == old(self).frames_played,
    {
        self.is_decoding = true;
    }

    /// Lower the decoding flag: performed exactly once, when the decoder's
    /// frame sequence (including any trailing flush) is exhausted.
    pub fn finish_decoding(&mut self)
        ensures
            !final(self).is_decoding,
            final(self).is_playing == old(self).is_playing,
            final(self).frames_decoded == old(self).frames_decoded,
            final(self).frames_played == old(self).frames_played,
    {
        self.is_decoding = false;
    }

    /// Raise the playing flag: performed by the orchestrator right after the
    /// audio device has started successfully.
    pub fn start_playing(&mut self)
        ensures
            final(self).is_playing,
            final(self).is_decoding == old(self).is_decoding,
            final(self).frames_decoded == old(self).frames_decoded,
            final(self).frames_played == old(self).frames_played,
    {
        self.is_playing = true;
    }
}

} // verus!
