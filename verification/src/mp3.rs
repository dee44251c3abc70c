//! Picking decoded MP3 frames out of a stream of decoding results.
use crate::time::{duration_secs, duration_subsec_nanos};
use std::time::Duration;
use vstd::prelude::*;
use vstd::std_specs::iter::IteratorSpec;

verus! {

/// Sample rate, in samples per second, of the frame that stands in once the
/// decoder has no frame left.
pub const EMPTY_FRAME_SAMPLE_RATE: u32 = 44100;

/// `Duration::from_secs` makes a duration of exactly `secs` whole seconds and
/// no fractional part.
pub assume_specification[ Duration::from_secs ](secs: u64) -> (r: Duration)
    ensures
        duration_secs(r) == secs,
        duration_subsec_nanos(r) == 0,
;

/// The plain fields of a decoded frame: its bit rate, its sample rate, how
/// many channels it has and how many samples each channel holds, where it
/// starts in the stream and how long it lasts.
pub struct FrameInfo {
    pub bit_rate: u32,
    pub sample_rate: u32,
    pub channels: usize,
    pub samples_per_channel: usize,
    pub position: Duration,
    pub duration: Duration,
}

/// The frame that stands in once the decoder has no frame left: no bit rate,
/// `EMPTY_FRAME_SAMPLE_RATE` samples per second, a single channel without
/// samples, starting at zero and lasting zero.
pub fn empty_frame() -> (info: FrameInfo)
    ensures
        info.bit_rate == 0,
        info.sample_rate == EMPTY_FRAME_SAMPLE_RATE,
        info.channels == 1,
        info.samples_per_channel == 0,
        duration_secs(info.position) == 0,
        duration_subsec_nanos(info.position) == 0,
        duration_secs(info.duration) == 0,
        duration_subsec_nanos(info.duration) == 0,
{
    FrameInfo {
        bit_rate: 0,
        sample_rate: EMPTY_FRAME_SAMPLE_RATE,
        channels: 1,
        samples_per_channel: 0,
        position: Duration::from_secs(0),
        duration: Duration::from_secs(0),
    }
}

/// Every result in `results` is an error.
pub open spec fn all_failed<F, E>(results: Seq<Result<F, E>>) -> bool {
    forall|j: int| 0 <= j < results.len() ==> (#[trigger] results[j]) is Err
}

/// Takes decoding results from `decoder` up to the first decoded frame and
/// returns that frame, skipping the errors before it; when the decoder runs
/// out first, returns `empty`, the frame that stands in for a finished stream
/// (see `empty_frame`).
///
/// The loop ends only if the decoder does: it is required to follow the
/// iterator laws and to have a termination measure.
pub fn next_frame<F, E, I: Iterator<Item = Result<F, E>>>(decoder: &mut I, empty: F) -> (frame: F)
    requires
        (*old(decoder)).obeys_prophetic_iter_laws(),
        (*old(decoder)).decrease() is Some,
    ensures
        (*final(decoder)).obeys_prophetic_iter_laws(),
        ({
            let s = (*old(decoder)).remaining();
            ||| exists|k: int|
                0 <= k < s.len() && s[k] == Ok::<F, E>(frame) && all_failed(s.take(k))
                    && (*final(decoder)).remaining() == s.skip(k + 1)
            ||| all_failed(s) && frame == empty && (*final(decoder)).remaining().len() == 0
        }),
{
    let ghost mut consumed: int = 0;
    loop
        invariant
            (*decoder).obeys_prophetic_iter_laws(),
            (*decoder).decrease() is Some,
            0 <= consumed <= (*old(decoder)).remaining().len(),
            (*decoder).remaining() == (*old(decoder)).remaining().skip(consumed),
            all_failed((*old(decoder)).remaining().take(consumed)),
        decreases (*decoder).decrease()->0,
    {
        let ghost s = (*old(decoder)).remaining();
        match decoder.next() {
            None => {
                assert(s.take(consumed) =~= s);
                return empty;
            },
            Some(Ok(frame)) => {
                assert(s.skip(consumed)[0] == s[consumed]);
                assert(s.skip(consumed).drop_first() =~= s.skip(consumed + 1));
                return frame;
            },
            Some(Err(_)) => {
                proof {
                    assert(s.skip(consumed)[0] == s[consumed]);
                    assert(s.skip(consumed).drop_first() =~= s.skip(consumed + 1));
                    assert forall|j: int| 0 <= j < consumed + 1 implies (#[trigger] s.take(
                        consumed + 1,
                    )[j]) is Err by {
                        if j < consumed {
                            assert(s.take(consumed + 1)[j] == s.take(consumed)[j]);
                        }
                    }
                    consumed = consumed + 1;
                }
            },
        }
    }
}

/// Where the sample after (`channel`, `position`) lies in a decoded frame of
/// `channels` channels holding `samples` samples each: samples are handed out
/// channel by channel for one position, then for the next position; `None`
/// when the frame has no more samples.
pub fn next_sample_position(channel: usize, position: usize, channels: usize, samples: usize) -> (next: Option<(usize, usize)>)
    requires
        channel < channels,
        position < samples,
    ensures
        next == if channel + 1 < channels {
            Some(((channel + 1) as usize, position))
        } else if position + 1 < samples {
            Some((0usize, (position + 1) as usize))
        } else {
            None
        },
{
    if channel + 1 < channels {
        Some((channel + 1, position))
    } else if position + 1 < samples {
        Some((0, position + 1))
    } else {
        None
    }
}

} // verus!
