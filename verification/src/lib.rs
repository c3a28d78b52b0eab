//! A small real-time audio playback pipeline, generic in the sample type.
//!
//! - [`source`] decodes a WAV file into the sequence of samples.
//! - [`buffer`] holds the samples in a FIFO that is filled once and drained
//!   from the front.
//! - [`sink`] does the work of one output callback: it fills a block from
//!   the buffer and writes silence once the buffer is empty.
//! - [`framer`] cuts a waveform into overlapping frames and applies a window
//!   to each.
//! - [`lifecycle`] decides the steps of a playback run, from loading to the
//!   last sample.
//! - [`error`] names the failures.
//!
//! The library never computes on a sample. Where arithmetic on samples is
//! needed (normalizing a decoded value, windowing a frame), the caller hands
//! in the function that does it, and the contracts speak of that function's
//! own contract.

pub mod buffer;
pub mod error;
pub mod framer;
pub mod lifecycle;
pub mod sink;
pub mod source;
