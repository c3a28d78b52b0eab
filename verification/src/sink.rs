//! The audio sink: the work of one output callback, which fills a block of
//! the device's buffer from the streaming buffer and writes silence once the
//! buffer has run dry.

use crate::buffer::{
    after_pops, drained, lemma_pops_drain, lemma_pops_step, popped_sample, StreamingBuffer,
};
use crate::error::PlaybackError;
use vstd::prelude::*;

verus! {

/// The sample formats an output device may negotiate.
#[derive(Clone, Copy, Debug, PartialEq, Eq, Structural)]
pub enum SampleFormat {
    I8,
    I16,
    I32,
    I64,
    U8,
    U16,
    U32,
    U64,
    F32,
    F64,
    /// A format that has no name here.
    Unknown,
}

/// Whether the sink can feed a device that negotiated `format`. The one
/// format it feeds is 32-bit floats, the format in which the pipeline keeps
/// its samples: a sample goes into its slot as it is.
pub open spec fn supported(format: SampleFormat) -> bool {
    format == SampleFormat::F32
}

/// The block that a callback leaves behind: slot `i` holds the `i`-th waiting
/// sample while there is one, and `silence` after that.
pub open spec fn filled_block<T>(queue: Seq<T>, slots: nat, silence: T) -> Seq<T> {
    Seq::new(
        slots,
        |i: int|
            if i < queue.len() {
                queue[i]
            } else {
                silence
            },
    )
}

/// What goes into a slot for which a pop gave `sample`.
pub open spec fn slot_value<T>(sample: Option<T>, silence: T) -> T {
    match sample {
        Some(value) => value,
        None => silence,
    }
}

/// Slot by slot: slot `i` of a filled block holds what the pop that follows
/// `i` earlier pops hands out, or silence where that pop finds nothing.
pub proof fn lemma_block_slot_by_slot<T>(queue: Seq<T>, slots: nat, silence: T, i: nat)
    requires
        i < slots,
    ensures
        filled_block(queue, slots, silence)[i as int] == slot_value(
            popped_sample(after_pops(queue, i)),
            silence,
        ),
{
    lemma_pops_drain(queue, i);
}

/// Underrun: from an empty buffer a callback fills the whole block with
/// silence, and the buffer stays empty.
pub proof fn lemma_underrun_silence<T>(queue: Seq<T>, slots: nat, silence: T)
    requires
        queue.len() == 0,
    ensures
        filled_block(queue, slots, silence) == Seq::new(slots, |i: int| silence),
        forall|i: int| 0 <= i < slots ==> filled_block(queue, slots, silence)[i] == silence,
        drained(queue, slots) == queue,
{
    assert(filled_block(queue, slots, silence) =~= Seq::new(slots, |i: int| silence));
    assert(drained(queue, slots) =~= queue);
}

/// Callbacks continue where the last one stopped: a block of `first` slots
/// followed by a block of `second` slots holds what one block of
/// `first + second` slots would hold, and leaves the same samples waiting.
pub proof fn lemma_blocks_continue<T>(queue: Seq<T>, first: nat, second: nat, silence: T)
    ensures
        filled_block(queue, first, silence) + filled_block(drained(queue, first), second, silence)
            == filled_block(queue, first + second, silence),
        drained(drained(queue, first), second) == drained(queue, first + second),
{
    assert(filled_block(queue, first, silence) + filled_block(
        drained(queue, first),
        second,
        silence,
    ) =~= filled_block(queue, first + second, silence));
    assert(drained(drained(queue, first), second) =~= drained(queue, first + second));
}

/// A sink for one negotiated format, holding the value it writes for silence.
pub struct AudioSink<T> {
    silence: T,
}

impl<T: Copy> AudioSink<T> {
    /// The value written into a slot for which no sample is left.
    pub closed spec fn silence(&self) -> T {
        self.silence
    }

    /// Sets the sink up for `format`. Fails with a configuration error when
    /// the format is not supported, so that no callback is ever installed
    /// for it.
    pub fn new(format: SampleFormat, silence: T) -> (sink: Result<Self, PlaybackError>)
        ensures
            supported(format) ==> sink is Ok && sink->Ok_0.silence() == silence,
            !supported(format) ==> sink == Err::<Self, PlaybackError>(PlaybackError::Configuration),
    {
        match format {
            SampleFormat::F32 => Ok(AudioSink { silence }),
            _ => Err(PlaybackError::Configuration),
        }
    }

    /// One callback: fills every slot of `block`, in order, with the next
    /// sample popped from `buffer`, or with silence where the buffer is
    /// empty.
    pub fn fill(&self, block: &mut [T], buffer: &mut StreamingBuffer<T>)
        requires
            old(buffer).wf(),
        ensures
            final(buffer).wf(),
            final(block)@ == filled_block(old(buffer)@, old(block)@.len(), self.silence()),
            final(buffer)@ == drained(old(buffer)@, old(block)@.len()),
            final(buffer).total_pushed() == old(buffer).total_pushed(),
            old(buffer)@.len() == 0 ==> final(buffer)@.len() == 0 && forall|i: int|
                0 <= i < old(block)@.len() ==> final(block)@[i] == self.silence(),
    {
        let slots: usize = block.len();
        let mut i: usize = 0;
        while i < slots
            invariant
                i <= slots,
                slots == block@.len(),
                block@.len() == old(block)@.len(),
                buffer.wf(),
                buffer.total_pushed() == old(buffer).total_pushed(),
                buffer@ == after_pops(old(buffer)@, i as nat),
                forall|j: int| 0 <= j < i ==> block@[j] == filled_block(old(buffer)@, slots as nat, self.silence())[j],
            decreases slots - i,
        {
            proof {
                lemma_pops_step(old(buffer)@, i as nat);
                lemma_block_slot_by_slot(old(buffer)@, slots as nat, self.silence(), i as nat);
            }
            let sample = buffer.pop_front();
            block[i] = match sample {
                Some(value) => value,
                None => self.silence,
            };
            i = i + 1;
        }
        proof {
            lemma_pops_drain(old(buffer)@, slots as nat);
        }
    }
}

} // verus!
