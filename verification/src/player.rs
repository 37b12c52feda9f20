use vstd::prelude::*;

use crate::feeder::send_audio;
use crate::ring::{ring_cap, ring_samples, SampleRing};
use crate::sample::{half_word, SILENCE};
use crate::sink::{audio_callback, CallbackFlow};
use crate::status::PlayerStatus;
use crate::{CHANNELS, SAMPLE_RATE};

verus! {

/// Whether the decoded input must pass through the resampler before it can
/// feed the ring: anything but the target sample format, a layout that
/// covers stereo, and the target rate.
pub fn needs_resample(format_is_target: bool, layout_has_stereo: bool, rate: u32) -> (b: bool)
    ensures
        b == !(format_is_target && layout_has_stereo && rate == SAMPLE_RATE),
{
    !(format_is_target && layout_has_stereo && rate == SAMPLE_RATE as u32)
}

/// A decoder's whole output as mathematics: the samples of every frame, in
/// decode order, as one flat interleaved sequence.
pub open spec fn flat_frames(frames: Seq<Seq<u32>>) -> Seq<u32>
    decreases frames.len(),
{
    if frames.len() == 0 {
        Seq::empty()
    } else {
        flat_frames(frames.drop_last()) + frames.last()
    }
}

/// A frame list seen as a sequence of sample sequences.
pub open spec fn frames_view(frames: Seq<Vec<u32>>) -> Seq<Seq<u32>> {
    frames.map(|i: int, f: Vec<u32>| f@)
}

/// Flattening one more frame appends that frame's samples.
pub proof fn lemma_flat_take_step(view: Seq<Seq<u32>>, i: int)
    requires
        0 <= i < view.len(),
    ensures
        flat_frames(view.take(i + 1)) == flat_frames(view.take(i)) + view[i],
{
    let t = view.take(i + 1);
    assert(t.drop_last() =~= view.take(i));
    assert(t.last() == view[i]);
}

/// Flattening a longer prefix never yields fewer samples.
pub proof fn lemma_flat_take_len_le(view: Seq<Seq<u32>>, i: int, j: int)
    requires
        0 <= i <= j <= view.len(),
    ensures
        flat_frames(view.take(i)).len() <= flat_frames(view.take(j)).len(),
    decreases j - i,
{
    if i < j {
        lemma_flat_take_len_le(view, i, j - 1);
        lemma_flat_take_step(view, j - 1);
    }
}

proof fn lemma_flat_take_full(view: Seq<Seq<u32>>)
    ensures
        flat_frames(view.take(view.len() as int)) == flat_frames(view),
{
    assert(view.take(view.len() as int) =~= view);
}

/// Copy one rendered device buffer onto the end of the transcript.
fn append_samples(out: &mut Vec<u32>, extra: &Vec<u32>)
    ensures
        final(out)@ == old(out)@ + extra@,
{
    let ghost out0 = out@;
    let n = extra.len();
    assert(out@ =~= out0 + extra@.take(0));
    let mut j: usize = 0;
    while j < n
        invariant
            j <= n,
            n == extra@.len(),
            out@ == out0 + extra@.take(j as int),
        decreases n - j,
    {
        out.push(extra[j]);
        assert(out@ =~= out0 + extra@.take(j + 1 as int));
        j = j + 1;
    }
    assert(out@ =~= out0 + extra@);
}

/// The whole lifecycle, from the moment the device has started to the
/// moment the callback reports completion: feed every decoded frame through
/// the ring under backpressure, render device buffers of `frames_per_buffer`
/// frames, and stop exactly when nothing is left. The returned transcript is
/// every sample the device was handed: each decoded sample exactly once, in
/// order, scaled by the gain of one half, then pure silence to the end of
/// the final buffers. Every wait the real producer performs while the ring
/// is full appears here as one consumer callback, which is what frees ring
/// space.
#[verifier::loop_isolation(false)]
pub fn run_stream(frames: &Vec<Vec<u32>>, capacity: usize, frames_per_buffer: usize) -> (r: (
    PlayerStatus,
    Vec<u32>,
))
    requires
        capacity % CHANNELS == 0,
        frames_per_buffer >= 1,
        frames_per_buffer * CHANNELS <= capacity,
        forall|i: int|
            0 <= i < frames@.len() ==> (#[trigger] frames@[i])@.len() % (CHANNELS as nat) == 0,
        flat_frames(frames_view(frames@)).len() + 2 * (frames_per_buffer * CHANNELS)
            <= usize::MAX,
    ensures
        ({
            let all = flat_frames(frames_view(frames@));
            let bufc = frames_per_buffer * CHANNELS;
            &&& !r.0.is_playing
            &&& !r.0.is_decoding
            &&& r.0.frames_decoded * CHANNELS == all.len()
            &&& r.0.frames_played * CHANNELS == r.1@.len()
            &&& all.len() <= r.1@.len() <= all.len() + 2 * bufc
            &&& r.1@.len() % (bufc as nat) == 0
            &&& forall|i: int| 0 <= i < all.len() ==> r.1@[i] == half_word(all[i])
            &&& forall|i: int| all.len() <= i < r.1@.len() ==> r.1@[i] == SILENCE
        }),
{
    let ghost view = frames_view(frames@);
    let ghost all = flat_frames(view);

    let bufc = frames_per_buffer * CHANNELS;
    let mut ring = SampleRing::new(capacity);
    let mut status = PlayerStatus::new();
    let mut out: Vec<u32> = Vec::new();

    let mut buffer: Vec<u32> = Vec::new();
    let mut j: usize = 0;
    while j < bufc
        invariant
            j <= bufc,
            buffer@.len() == j,
        decreases bufc - j,
    {
        buffer.push(SILENCE);
        j = j + 1;
    }

    status.start_playing();

    let ghost mut popped: int = 0;
    let ghost mut ncb: int = 0;

    let nframes = frames.len();
    let mut fi: usize = 0;
    while fi < nframes
        invariant
            fi <= nframes,
            buffer@.len() == bufc,
            ring_cap(ring) == capacity,
            ring_samples(ring) == flat_frames(view.take(fi as int)).skip(popped),
            ring_samples(ring).len() % (CHANNELS as nat) == 0,
            0 <= popped <= flat_frames(view.take(fi as int)).len(),
            ncb >= 0,
            popped == ncb * bufc,
            status.is_playing,
            status.is_decoding == (fi > 0),
            status.frames_decoded * CHANNELS == flat_frames(view.take(fi as int)).len(),
            status.frames_played * CHANNELS == out@.len(),
            out@.len() == popped,
            forall|i: int|
                0 <= i < popped ==> out@[i] == half_word(flat_frames(view.take(fi as int))[i]),
        decreases nframes - fi,
    {
        let f = &frames[fi];
        let flen = f.len();
        let ghost base = flat_frames(view.take(fi as int));
        proof {
            lemma_flat_take_step(view, fi as int);
            lemma_flat_take_len_le(view, fi as int + 1, view.len() as int);
            lemma_flat_take_full(view);
        }
        let mut sent: usize = 0;
        assert(base + f@.take(0) =~= base);
        while sent < flen
            invariant
                sent <= flen,
                sent % CHANNELS == 0,
                buffer@.len() == bufc,
                ring_cap(ring) == capacity,
                ring_samples(ring) == (base + f@.take(sent as int)).skip(popped),
                ring_samples(ring).len() % (CHANNELS as nat) == 0,
                0 <= popped <= base.len() + sent,
                ncb >= 0,
                popped == ncb * bufc,
                status.is_playing,
                status.is_decoding == (fi > 0),
                status.frames_decoded * CHANNELS == base.len() + sent,
                status.frames_played * CHANNELS == out@.len(),
                out@.len() == popped,
                forall|i: int|
                    0 <= i < popped ==> out@[i] == half_word((base + f@.take(sent as int))[i]),
            decreases 2 * (flen - sent) + ring_samples(ring).len(),
        {
            let new_sent = send_audio(&mut ring, &mut status, f, sent);
            proof {
                assert((base + f@.take(new_sent as int)).skip(popped) =~= (base + f@.take(
                    sent as int,
                )).skip(popped) + f@.subrange(sent as int, new_sent as int));
                assert(forall|i: int|
                    0 <= i < popped ==> (base + f@.take(new_sent as int))[i] == (base + f@.take(
                        sent as int,
                    ))[i]);
            }
            sent = new_sent;
            if sent < flen {
                // the ring is full; the real feeder would sleep here while
                // the device drains — run the consumer callback instead
                let ghost full = base + f@.take(sent as int);
                let ghost ring_full = ring_samples(ring);
                assert(ring_full.len() == capacity);
                let flow = audio_callback(&mut ring, &mut status, &mut buffer, frames_per_buffer);
                append_samples(&mut out, &buffer);
                proof {
                    assert(ring_samples(ring) =~= full.skip(popped + bufc));
                    assert(forall|i: int|
                        popped <= i < popped + bufc ==> out@[i] == half_word(full[i]));
                    assert((ncb + 1) * (bufc as int) == ncb * (bufc as int) + bufc) by (nonlinear_arith);
                    popped = popped + bufc;
                    ncb = ncb + 1;
                }
            }
        }
        proof {
            assert(f@.take(flen as int) =~= f@);
            assert(base + f@ == flat_frames(view.take(fi as int + 1)));
        }
        status.mark_decoding();
        fi = fi + 1;
    }

    status.finish_decoding();
    proof {
        lemma_flat_take_full(view);
        assert(ring_samples(ring) == all.skip(popped));
    }

    let mut done = false;
    while !done
        invariant
            buffer@.len() == bufc,
            ring_cap(ring) == capacity,
            !status.is_decoding,
            ring_samples(ring) == all.skip(popped),
            ring_samples(ring).len() % (CHANNELS as nat) == 0,
            0 <= popped <= all.len(),
            status.frames_decoded * CHANNELS == all.len(),
            status.frames_played * CHANNELS == out@.len(),
            ncb >= 0,
            out@.len() == ncb * bufc,
            popped <= out@.len(),
            popped < all.len() ==> out@.len() == popped,
            !done ==> out@.len() <= all.len() + bufc,
            done ==> out@.len() <= all.len() + 2 * bufc,
            forall|i: int| 0 <= i < popped ==> out@[i] == half_word(all[i]),
            forall|i: int| popped <= i < out@.len() ==> out@[i] == SILENCE,
            done ==> (popped == all.len() && !status.is_playing),
            !done ==> status.is_playing,
        decreases ring_samples(ring).len() + (if done {
            0int
        } else {
            1int
        }),
    {
        let ghost ring_before = ring_samples(ring);
        let flow = audio_callback(&mut ring, &mut status, &mut buffer, frames_per_buffer);
        append_samples(&mut out, &buffer);
        proof {
            let r = if bufc <= ring_before.len() {
                bufc as int
            } else {
                ring_before.len() as int
            };
            assert(ring_samples(ring) =~= all.skip(popped + r));
            assert(forall|i: int|
                popped <= i < popped + r ==> out@[i] == half_word(all[i]));
            assert((ncb + 1) * (bufc as int) == ncb * (bufc as int) + bufc) by (nonlinear_arith);
            popped = popped + r;
            ncb = ncb + 1;
        }
        if flow == CallbackFlow::Complete {
            done = true;
        }
    }

    proof {
        vstd::arithmetic::div_mod::lemma_mod_multiples_basic(ncb, bufc as int);
    }
    (status, out)
}

} // verus!
