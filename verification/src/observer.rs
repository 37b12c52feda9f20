use vstd::prelude::*;

use crate::SAMPLE_RATE;

verus! {

/// The progress line prints seconds with one decimal digit; the observer
/// derives that digit exactly, turning a frame counter into whole tenths of
/// a second at the target rate.
pub fn progress_tenths(frames: usize) -> (t: usize)
    requires
        frames * 10 <= usize::MAX,
    ensures
        t == (frames * 10) / (SAMPLE_RATE as int),
{
    (frames * 10) / SAMPLE_RATE
}

} // verus!
