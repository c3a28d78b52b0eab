//! The lifecycle of one playback run, as a state machine. The caller does the
//! outside work (reading the file, talking to the audio host, sleeping) and
//! reports each outcome as an event; the controller answers with the next
//! thing to do.
//!
//! Failures during setup end the run. A fault that the host reports while the
//! stream plays is only reported: it neither ends the run nor is anything
//! tried again.

use crate::error::PlaybackError;
use crate::sink::{supported, SampleFormat};
use vstd::prelude::*;

verus! {

/// How long the caller sleeps between two looks at the buffer, in
/// milliseconds.
pub const POLL_INTERVAL_MS: u64 = 100;

/// Where a run stands.
#[derive(Clone, Copy, Debug, PartialEq, Eq, Structural)]
pub enum Phase {
    /// The waveform is being read and pushed into the buffer.
    Loading,
    /// An output device and its sample format are being looked up.
    Negotiating,
    /// The stream plays and the buffer is polled.
    Playing,
    /// The buffer ran empty and the stream was stopped.
    Finished,
    /// Setup failed; the stream was never started.
    Failed,
}

/// What the caller reports.
#[derive(Clone, Copy, Debug, PartialEq, Eq, Structural)]
pub enum Event {
    /// The waveform was decoded and the buffer filled.
    Loaded,
    /// The waveform could not be read or decoded.
    LoadFailed,
    /// The host has no output device.
    DeviceMissing,
    /// The host's default output device negotiated this sample format.
    DeviceReady(SampleFormat),
    /// The caller slept for the poll interval and looked at the buffer.
    Polled { buffer_empty: bool },
    /// The host reported a fault on the running stream.
    StreamFault,
}

/// What the caller is to do next.
#[derive(Clone, Copy, Debug, PartialEq, Eq, Structural)]
pub enum Action {
    /// Ask the host for its default output device and that device's format.
    OpenDevice,
    /// Install the sink's callback, start the stream, then sleep and poll.
    StartStream,
    /// Sleep for this many milliseconds, then report whether the buffer is
    /// empty.
    Wait { millis: u64 },
    /// Stop the stream and end the run with success.
    Stop,
    /// End the run with this error.
    Abort(PlaybackError),
    /// Write the fault to the error log and go on.
    Report,
    /// The event does not belong to this phase: do nothing.
    Ignore,
}

/// The phase that follows `phase` on `event`.
pub open spec fn next_phase(phase: Phase, event: Event) -> Phase {
    match (phase, event) {
        (Phase::Loading, Event::Loaded) => Phase::Negotiating,
        (Phase::Loading, Event::LoadFailed) => Phase::Failed,
        (Phase::Negotiating, Event::DeviceMissing) => Phase::Failed,
        (Phase::Negotiating, Event::DeviceReady(format)) => if supported(format) {
            Phase::Playing
        } else {
            Phase::Failed
        },
        (Phase::Playing, Event::Polled { buffer_empty }) => if buffer_empty {
            Phase::Finished
        } else {
            Phase::Playing
        },
        _ => phase,
    }
}

/// What the caller is told to do in `phase` on `event`.
pub open spec fn next_action(phase: Phase, event: Event) -> Action {
    match (phase, event) {
        (Phase::Loading, Event::Loaded) => Action::OpenDevice,
        (Phase::Loading, Event::LoadFailed) => Action::Abort(PlaybackError::Io),
        (Phase::Negotiating, Event::DeviceMissing) => Action::Abort(PlaybackError::NoDevice),
        (Phase::Negotiating, Event::DeviceReady(format)) => if supported(format) {
            Action::StartStream
        } else {
            Action::Abort(PlaybackError::Configuration)
        },
        (Phase::Playing, Event::Polled { buffer_empty }) => if buffer_empty {
            Action::Stop
        } else {
            Action::Wait { millis: POLL_INTERVAL_MS }
        },
        (Phase::Playing, Event::StreamFault) => Action::Report,
        _ => Action::Ignore,
    }
}

/// How far a run has come: phases are only ever left for a later one.
pub open spec fn progress(phase: Phase) -> nat {
    match phase {
        Phase::Loading => 0,
        Phase::Negotiating => 1,
        Phase::Playing => 2,
        Phase::Finished => 3,
        Phase::Failed => 3,
    }
}

/// Decides the steps of one playback run.
pub struct LifecycleController {
    phase: Phase,
}

impl View for LifecycleController {
    type V = Phase;

    /// The phase the run is in.
    closed spec fn view(&self) -> Phase {
        self.phase
    }
}

impl LifecycleController {
    /// A run at its start: the caller reads the waveform next.
    pub fn new() -> (controller: Self)
        ensures
            controller@ == Phase::Loading,
    {
        LifecycleController { phase: Phase::Loading }
    }

    /// The phase the run is in.
    pub fn phase(&self) -> (phase: Phase)
        ensures
            phase == self@,
    {
        self.phase
    }

    /// Whether the run is over, with success or with an error.
    pub fn is_over(&self) -> (over: bool)
        ensures
            over == (self@ == Phase::Finished || self@ == Phase::Failed),
    {
        match self.phase {
            Phase::Finished | Phase::Failed => true,
            _ => false,
        }
    }

    /// Takes in `event`, moves to the phase that follows, and returns what
    /// the caller is to do next.
    pub fn step(&mut self, event: Event) -> (action: Action)
        ensures
            final(self)@ == next_phase(old(self)@, event),
            action == next_action(old(self)@, event),
    {
        let (phase, action) = match (self.phase, event) {
            (Phase::Loading, Event::Loaded) => (Phase::Negotiating, Action::OpenDevice),
            (Phase::Loading, Event::LoadFailed) => (Phase::Failed, Action::Abort(PlaybackError::Io)),
            (Phase::Negotiating, Event::DeviceMissing) => (
                Phase::Failed,
                Action::Abort(PlaybackError::NoDevice),
            ),
            (Phase::Negotiating, Event::DeviceReady(SampleFormat::F32)) => (
                Phase::Playing,
                Action::StartStream,
            ),
            (Phase::Negotiating, Event::DeviceReady(_)) => (
                Phase::Failed,
                Action::Abort(PlaybackError::Configuration),
            ),
            (Phase::Playing, Event::Polled { buffer_empty: true }) => (Phase::Finished, Action::Stop),
            (Phase::Playing, Event::Polled { buffer_empty: false }) => (
                Phase::Playing,
                Action::Wait { millis: POLL_INTERVAL_MS },
            ),
            (Phase::Playing, Event::StreamFault) => (Phase::Playing, Action::Report),
            (phase, _) => (phase, Action::Ignore),
        };
        self.phase = phase;
        action
    }
}

/// A run that is over stays over: every further event is ignored.
pub proof fn lemma_over_is_final(phase: Phase, event: Event)
    requires
        phase == Phase::Finished || phase == Phase::Failed,
    ensures
        next_phase(phase, event) == phase,
        next_action(phase, event) == Action::Ignore,
{
}

/// Nothing is tried again: no event takes a run back to an earlier phase.
pub proof fn lemma_never_back(phase: Phase, event: Event)
    ensures
        progress(next_phase(phase, event)) >= progress(phase),
{
}

/// A fault on the stream changes no phase and ends no run: while the stream
/// plays it is reported, and otherwise ignored.
pub proof fn lemma_fault_is_survived(phase: Phase)
    ensures
        next_phase(phase, Event::StreamFault) == phase,
        next_action(phase, Event::StreamFault) == (if phase == Phase::Playing {
            Action::Report
        } else {
            Action::Ignore
        }),
{
}

/// A run is aborted exactly when setup fails, with the error of the step that
/// failed, and is then in the failed phase.
pub proof fn lemma_abort_reasons(phase: Phase, event: Event, error: PlaybackError)
    ensures
        next_action(phase, event) == Action::Abort(error) <==> {
            ||| phase == Phase::Loading && event == Event::LoadFailed && error == PlaybackError::Io
            ||| phase == Phase::Negotiating && event == Event::DeviceMissing && error
                == PlaybackError::NoDevice
            ||| phase == Phase::Negotiating && event is DeviceReady && !supported(event->0)
                && error == PlaybackError::Configuration
        },
        next_action(phase, event) is Abort <==> phase != Phase::Failed && next_phase(phase, event)
            == Phase::Failed,
{
}

/// The stream is started only for a supported format, and stopped only once
/// the buffer was seen empty while playing.
pub proof fn lemma_start_and_stop(phase: Phase, event: Event)
    ensures
        next_action(phase, event) == Action::StartStream <==> phase == Phase::Negotiating
            && event is DeviceReady && supported(event->0),
        next_action(phase, event) == Action::Stop <==> phase == Phase::Playing && event
            == (Event::Polled { buffer_empty: true }),
        next_phase(phase, event) == Phase::Playing ==> phase == Phase::Playing || next_action(
            phase,
            event,
        ) == Action::StartStream,
{
}

} // verus!
