use vstd::prelude::*;

use crate::CHANNELS;
use crate::ring::{ring_cap, ring_free, ring_samples, SampleRing};
use crate::status::PlayerStatus;

verus! {

/// One attempt of the feeder's backpressure loop: forward to the ring as
/// much of `data[sent..]` as the free space holds right now, and account for
/// the forwarded samples in `frames_decoded`, in whole frames. The caller
/// retries (after a short wait that lets the consumer drain) while the
/// returned offset is still short of `data.len()`; samples are never dropped
/// and never written twice.
pub fn send_audio(
    ring: &mut SampleRing,
    status: &mut PlayerStatus,
    data: &Vec<u32>,
    sent: usize,
) -> (new_sent: usize)
    requires
        sent <= data@.len(),
        sent % CHANNELS == 0,
        data@.len() % (CHANNELS as nat) == 0,
        ring_samples(*old(ring)).len() % (CHANNELS as nat) == 0,
        ring_cap(*old(ring)) % (CHANNELS as nat) == 0,
        old(status).frames_decoded + data@.len() / (CHANNELS as nat) <= usize::MAX,
    ensures
        sent <= new_sent <= data@.len(),
        new_sent % CHANNELS == 0,
        new_sent - sent == if data@.len() - sent <= ring_free(*old(ring)) {
            data@.len() - sent
        } else {
            ring_free(*old(ring))
        },
        ring_samples(*final(ring)) == ring_samples(*old(ring)) + data@.subrange(
            sent as int,
            new_sent as int,
        ),
        ring_samples(*final(ring)).len() % (CHANNELS as nat) == 0,
        ring_cap(*final(ring)) == ring_cap(*old(ring)),
        final(status).frames_decoded * CHANNELS == old(status).frames_decoded * CHANNELS + (
        new_sent - sent),
        final(status).is_decoding == old(status).is_decoding,
        final(status).is_playing == old(status).is_playing,
        final(status).frames_played == old(status).frames_played,
{
    let total_len = data.len();
    let n = ring.push_from(data, sent);
    assert(sent + n <= total_len);
    assert(n % CHANNELS == 0);
    assert(n / CHANNELS <= data@.len() / (CHANNELS as nat));
    status.frames_decoded = status.frames_decoded + n / CHANNELS;
    assert((n / CHANNELS) * CHANNELS == n);
    sent + n
}

} // verus!
