//! The framer: cuts a waveform into overlapping frames of a fixed length and
//! applies a window to each of them.
//!
//! Samples are of any copyable type. The window is handed in as a function
//! `window(sample, index, length)` that returns the windowed sample; for a
//! Hann window it multiplies the sample by
//! `0.5 * (1 - cos(2 * pi * index / (length - 1)))`.

use crate::error::PlaybackError;
use vstd::prelude::*;

verus! {

/// The number of frames of `frame_size` samples, `hop_size` apart, that fit
/// whole into `len` samples. No partial frame is counted at the end.
pub open spec fn frame_count(len: nat, frame_size: nat, hop_size: nat) -> nat
    recommends
        hop_size > 0,
{
    if len >= frame_size {
        ((len - frame_size) / (hop_size as int) + 1) as nat
    } else {
        0
    }
}

/// Whether `out` is what windowing makes of the sample `raw` at `index` in a
/// frame of `length` samples. In a frame of one sample the window's
/// denominator `length - 1` is zero: that sample is kept as it is, and the
/// window is not asked.
pub open spec fn windowed<T, W: Fn(T, usize, usize) -> T>(
    window: &W,
    raw: T,
    index: usize,
    length: usize,
    out: T,
) -> bool {
    if length == 1 {
        out == raw
    } else {
        window.ensures((raw, index, length), out)
    }
}

/// Whether `window` may be asked for every sample of `frame`. A frame of
/// fewer than two samples asks nothing of it.
pub open spec fn window_accepts<T, W: Fn(T, usize, usize) -> T>(window: &W, frame: Seq<T>) -> bool {
    frame.len() >= 2 ==> forall|i: int|
        0 <= i < frame.len() ==> window.requires(
            (#[trigger] frame[i], i as usize, frame.len() as usize),
        )
}

/// Whether `out` is the frame `raw` with the window applied: of the same
/// length, and sample by sample the windowed value of `raw`'s sample.
pub open spec fn is_windowed_frame<T, W: Fn(T, usize, usize) -> T>(
    window: &W,
    raw: Seq<T>,
    out: Seq<T>,
) -> bool {
    &&& out.len() == raw.len()
    &&& forall|i: int|
        0 <= i < raw.len() ==> windowed(
            window,
            raw[i],
            i as usize,
            raw.len() as usize,
            #[trigger] out[i],
        )
}

/// The samples that frame number `k` is cut from: `frame_size` samples
/// starting at `k * hop_size`.
pub open spec fn frame_at<T>(samples: Seq<T>, frame_size: nat, hop_size: nat, k: int) -> Seq<T> {
    samples.subrange(k * hop_size, k * hop_size + frame_size)
}

/// Every frame that is counted lies whole within the waveform.
pub proof fn lemma_frame_fits(len: nat, frame_size: nat, hop_size: nat, k: int)
    requires
        hop_size > 0,
        0 <= k < frame_count(len, frame_size, hop_size),
    ensures
        0 <= k * hop_size,
        k * hop_size + frame_size <= len,
{
    let span = len - frame_size;
    let hop = hop_size as int;
    assert(0 <= k * hop && k * hop <= span) by (nonlinear_arith)
        requires
            hop > 0,
            span >= 0,
            0 <= k <= span / hop,
    ;
}

/// No frame is left out: one more hop past the last frame, a whole frame no
/// longer fits.
pub proof fn lemma_no_further_frame(len: nat, frame_size: nat, hop_size: nat)
    requires
        hop_size > 0,
    ensures
        frame_count(len, frame_size, hop_size) * hop_size + frame_size > len,
{
    if len >= frame_size {
        let span = len - frame_size;
        let hop = hop_size as int;
        assert((span / hop + 1) * hop > span) by (nonlinear_arith)
            requires
                hop > 0,
                span >= 0,
        ;
    } else {
        assert(0 * hop_size == 0) by (nonlinear_arith);
    }
}

/// Applies the window to `frame` in place: each sample is replaced by its
/// windowed value for its index and the frame's length.
pub fn apply_window<T: Copy, W: Fn(T, usize, usize) -> T>(frame: &mut [T], window: &W)
    requires
        window_accepts(window, old(frame)@),
    ensures
        is_windowed_frame(window, old(frame)@, final(frame)@),
{
    let length: usize = frame.len();
    if length == 1 {
        return ;
    }
    let mut i: usize = 0;
    while i < length
        invariant
            i <= length,
            length != 1,
            length == frame@.len(),
            frame@.len() == old(frame)@.len(),
            window_accepts(window, old(frame)@),
            forall|j: int| i <= j < length ==> frame@[j] == old(frame)@[j],
            forall|j: int|
                0 <= j < i ==> windowed(
                    window,
                    old(frame)@[j],
                    j as usize,
                    length,
                    #[trigger] frame@[j],
                ),
        decreases length - i,
    {
        let raw = frame[i];
        frame[i] = window(raw, i, length);
        i = i + 1;
    }
}

/// With `count` whole hops behind it and less than one hop left before
/// `last`, the quotient of `last` by the hop is `count`.
proof fn lemma_hops_until(last: int, hop: int, count: int)
    requires
        hop > 0,
        count >= 0,
        count * hop <= last < count * hop + hop,
    ensures
        last / hop == count,
{
    assert(last / hop == count) by (nonlinear_arith)
        requires
            hop > 0,
            count * hop <= last < count * hop + hop,
    ;
}

/// Slides a window of `frame_size` samples over `samples` in steps of
/// `hop_size`, copies each position into a frame of its own and applies
/// `window` to the copy. A hop of zero is a configuration error. A waveform
/// shorter than one frame gives no frame.
pub fn segment_into_frames<T: Copy, W: Fn(T, usize, usize) -> T>(
    samples: &[T],
    frame_size: usize,
    hop_size: usize,
    window: &W,
) -> (frames: Result<Vec<Vec<T>>, PlaybackError>)
    requires
        hop_size > 0 ==> forall|k: int|
            0 <= k < frame_count(samples@.len(), frame_size as nat, hop_size as nat)
                ==> window_accepts(
                window,
                #[trigger] frame_at(samples@, frame_size as nat, hop_size as nat, k),
            ),
    ensures
        hop_size == 0 <==> frames is Err,
        frames is Err ==> frames == Err::<Vec<Vec<T>>, PlaybackError>(PlaybackError::Configuration),
        frames matches Ok(set) ==> {
            &&& set@.len() == frame_count(samples@.len(), frame_size as nat, hop_size as nat)
            &&& forall|k: int|
                0 <= k < set@.len() ==> is_windowed_frame(
                    window,
                    frame_at(samples@, frame_size as nat, hop_size as nat, k),
                    #[trigger] set@[k]@,
                )
        },
{
    if hop_size == 0 {
        return Err(PlaybackError::Configuration);
    }
    let mut set: Vec<Vec<T>> = Vec::new();
    let len: usize = samples.len();
    if frame_size > len {
        return Ok(set);
    }
    let last_start: usize = len - frame_size;
    let mut start: usize = 0;
    proof {
        assert(0 * hop_size == 0) by (nonlinear_arith);
    }
    loop
        invariant_except_break
            start <= last_start,
            start == set@.len() * hop_size,
        invariant
            hop_size > 0,
            len == samples@.len(),
            last_start + frame_size == len,
            set@.len() <= frame_count(samples@.len(), frame_size as nat, hop_size as nat),
            forall|k: int|
                0 <= k < frame_count(samples@.len(), frame_size as nat, hop_size as nat)
                    ==> window_accepts(
                    window,
                    #[trigger] frame_at(samples@, frame_size as nat, hop_size as nat, k),
                ),
            forall|k: int|
                0 <= k < set@.len() ==> is_windowed_frame(
                    window,
                    frame_at(samples@, frame_size as nat, hop_size as nat, k),
                    #[trigger] set@[k]@,
                ),
        ensures
            set@.len() == frame_count(samples@.len(), frame_size as nat, hop_size as nat),
        decreases last_start - start,
    {
        let ghost k: int = set@.len() as int;
        proof {
            assert(k * hop_size <= last_start);
            assert(k <= (last_start as int) / (hop_size as int)) by (nonlinear_arith)
                requires
                    hop_size > 0,
                    k >= 0,
                    k * hop_size <= last_start,
            ;
            assert(frame_at(samples@, frame_size as nat, hop_size as nat, k) == samples@.subrange(
                start as int,
                start + frame_size,
            ));
        }
        let mut frame: Vec<T> = vstd::slice::slice_to_vec(&samples[start..start + frame_size]);
        apply_window(frame.as_mut_slice(), window);
        set.push(frame);
        if hop_size > last_start - start {
            proof {
                lemma_hops_until(last_start as int, hop_size as int, k);
            }
            break ;
        }
        start = start + hop_size;
        proof {
            assert((k + 1) * hop_size == k * hop_size + hop_size) by (nonlinear_arith);
            assert(k + 1 <= (last_start as int) / (hop_size as int)) by (nonlinear_arith)
                requires
                    hop_size > 0,
                    k >= 0,
                    (k + 1) * hop_size <= last_start,
            ;
        }
    }
    Ok(set)
}

} // verus!
