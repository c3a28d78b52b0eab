//! The failures that end a playback run or a framing call.

use vstd::prelude::*;

verus! {

/// Why a step could not be carried out. All of these are final: nothing is
/// tried again after one of them.
#[derive(Clone, Copy, Debug, PartialEq, Eq, Structural)]
pub enum PlaybackError {
    /// The waveform is missing or cannot be decoded.
    Io,
    /// The host has no output device.
    NoDevice,
    /// The negotiated sample format is not supported, or a framing parameter
    /// is not usable.
    Configuration,
}

/// The text that describes `error`.
pub open spec fn error_text(error: PlaybackError) -> Seq<char> {
    match error {
        PlaybackError::Io => "the waveform could not be read"@,
        PlaybackError::NoDevice => "no output device available"@,
        PlaybackError::Configuration => "configuration not supported"@,
    }
}

impl PlaybackError {
    /// A short description, for the message a failed run ends with.
    pub fn message(&self) -> (text: &'static str)
        ensures
            text@ == error_text(*self),
    {
        match self {
            PlaybackError::Io => "the waveform could not be read",
            PlaybackError::NoDevice => "no output device available",
            PlaybackError::Configuration => "configuration not supported",
        }
    }
}

} // verus!
