use vstd::prelude::*;

use crate::CHANNELS;
use crate::ring::{ring_cap, ring_samples, SampleRing};
use crate::sample::{half_word, scale_half, SILENCE};
use crate::status::PlayerStatus;

verus! {

/// What the callback tells the audio device: keep invoking the callback, or
/// stop because the stream has ended.
#[derive(Clone, Copy, PartialEq, Eq, Structural, Debug)]
pub enum CallbackFlow {
    Continue,
    Complete,
}

/// The terminal decision of the real-time callback: playback is complete
/// exactly when decoding has finished, the ring holds nothing, and the most
/// recent pop returned no samples. All three together rule out stopping
/// while a final partial buffer is still queued.
pub fn should_complete(is_decoding: bool, ring_empty: bool, received: usize) -> (b: bool)
    ensures
        b == (!is_decoding && ring_empty && received == 0),
{
    !is_decoding && ring_empty && received == 0
}

/// How many samples the callback will receive from the ring: the whole
/// request when enough is queued, everything queued otherwise.
pub open spec fn received_count(queued: Seq<u32>, request: nat) -> int {
    if request <= queued.len() {
        request as int
    } else {
        queued.len() as int
    }
}

/// One invocation of the real-time audio callback, on a device buffer of
/// `frames` frames. It pops what the ring holds, applies the fixed gain of
/// one half to every received sample, fills the shortfall — an underrun —
/// with silence, counts the full buffer as played either way, and reports
/// completion exactly when decoding is over and nothing was left to play.
pub fn audio_callback(
    ring: &mut SampleRing,
    status: &mut PlayerStatus,
    buffer: &mut Vec<u32>,
    frames: usize,
) -> (flow: CallbackFlow)
    requires
        old(buffer)@.len() == frames * CHANNELS,
        ring_samples(*old(ring)).len() % (CHANNELS as nat) == 0,
        old(status).frames_played + frames <= usize::MAX,
    ensures
        ({
            let received = received_count(ring_samples(*old(ring)), old(buffer)@.len());
            &&& final(buffer)@.len() == old(buffer)@.len()
            &&& forall|i: int|
                0 <= i < received ==> final(buffer)@[i] == half_word(
                    ring_samples(*old(ring))[i],
                )
            &&& forall|i: int|
                received <= i < final(buffer)@.len() ==> final(buffer)@[i] == SILENCE
            &&& ring_samples(*final(ring)) == ring_samples(*old(ring)).skip(received)
            &&& ring_samples(*final(ring)).len() % (CHANNELS as nat) == 0
            &&& ring_cap(*final(ring)) == ring_cap(*old(ring))
            &&& final(status).frames_played == old(status).frames_played + frames
            &&& final(status).frames_decoded == old(status).frames_decoded
            &&& final(status).is_decoding == old(status).is_decoding
            &&& (flow == CallbackFlow::Complete <==> (!old(status).is_decoding && ring_samples(
                *old(ring),
            ).len() == 0))
            &&& final(status).is_playing == (if flow == CallbackFlow::Complete {
                false
            } else {
                old(status).is_playing
            })
        }),
{
    let ghost queued = ring_samples(*ring);
    let received = ring.pop_into(buffer);

    let buffer_len = buffer.len();
    let mut idx: usize = 0;
    while idx < buffer_len
        invariant
            idx <= buffer_len,
            buffer@.len() == buffer_len,
            received <= buffer_len,
            received == received_count(queued, buffer_len as nat),
            forall|i: int| 0 <= i < received ==> i < idx ==> buffer@[i] == half_word(queued[i]),
            forall|i: int| 0 <= i < received ==> idx <= i ==> buffer@[i] == queued[i],
            forall|i: int| received <= i < idx ==> buffer@[i] == SILENCE,
        decreases buffer_len - idx,
    {
        if idx < received {
            let w = buffer[idx];
            buffer.set(idx, scale_half(w));
        } else {
            buffer.set(idx, SILENCE);
        }
        idx = idx + 1;
    }

    status.frames_played = status.frames_played + frames;

    let empty = ring.is_empty();
    if should_complete(status.is_decoding, empty, received) {
        status.is_playing = false;
        CallbackFlow::Complete
    } else {
        CallbackFlow::Continue
    }
}

} // verus!
