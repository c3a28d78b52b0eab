use audiopipe::error::PlaybackError;
use audiopipe::lifecycle::{Action, Event, LifecycleController, Phase, POLL_INTERVAL_MS};
use audiopipe::sink::SampleFormat;

fn playing() -> LifecycleController {
    let mut controller = LifecycleController::new();
    assert_eq!(controller.step(Event::Loaded), Action::OpenDevice);
    assert_eq!(controller.step(Event::DeviceReady(SampleFormat::F32)), Action::StartStream);
    controller
}

#[test]
fn a_run_from_load_to_drain() {
    let mut controller = LifecycleController::new();
    assert_eq!(controller.phase(), Phase::Loading);
    assert!(!controller.is_over());
    assert_eq!(controller.step(Event::Loaded), Action::OpenDevice);
    assert_eq!(controller.phase(), Phase::Negotiating);
    assert_eq!(controller.step(Event::DeviceReady(SampleFormat::F32)), Action::StartStream);
    assert_eq!(controller.phase(), Phase::Playing);
    assert_eq!(
        controller.step(Event::Polled { buffer_empty: false }),
        Action::Wait { millis: 100 }
    );
    assert_eq!(controller.phase(), Phase::Playing);
    assert_eq!(
        controller.step(Event::Polled { buffer_empty: false }),
        Action::Wait { millis: POLL_INTERVAL_MS }
    );
    assert!(!controller.is_over());
    assert_eq!(controller.step(Event::Polled { buffer_empty: true }), Action::Stop);
    assert_eq!(controller.phase(), Phase::Finished);
    assert!(controller.is_over());
}

#[test]
fn poll_interval_is_a_tenth_of_a_second() {
    assert_eq!(POLL_INTERVAL_MS, 100);
}

#[test]
fn failed_load_aborts_with_an_io_error() {
    let mut controller = LifecycleController::new();
    assert_eq!(controller.step(Event::LoadFailed), Action::Abort(PlaybackError::Io));
    assert_eq!(controller.phase(), Phase::Failed);
    assert!(controller.is_over());
}

#[test]
fn missing_device_aborts() {
    let mut controller = LifecycleController::new();
    controller.step(Event::Loaded);
    assert_eq!(controller.step(Event::DeviceMissing), Action::Abort(PlaybackError::NoDevice));
    assert_eq!(controller.phase(), Phase::Failed);
}

#[test]
fn unsupported_format_never_starts_the_stream() {
    let others = [
        SampleFormat::I8,
        SampleFormat::I16,
        SampleFormat::I32,
        SampleFormat::I64,
        SampleFormat::U8,
        SampleFormat::U16,
        SampleFormat::U32,
        SampleFormat::U64,
        SampleFormat::F64,
        SampleFormat::Unknown,
    ];
    for format in others {
        let mut controller = LifecycleController::new();
        controller.step(Event::Loaded);
        assert_eq!(
            controller.step(Event::DeviceReady(format)),
            Action::Abort(PlaybackError::Configuration)
        );
        assert_eq!(controller.phase(), Phase::Failed);
        assert_eq!(controller.step(Event::Polled { buffer_empty: false }), Action::Ignore);
        assert_eq!(controller.phase(), Phase::Failed);
    }
}

#[test]
fn stream_fault_is_reported_and_playback_goes_on() {
    let mut controller = playing();
    assert_eq!(controller.step(Event::StreamFault), Action::Report);
    assert_eq!(controller.phase(), Phase::Playing);
    assert_eq!(controller.step(Event::StreamFault), Action::Report);
    assert_eq!(
        controller.step(Event::Polled { buffer_empty: false }),
        Action::Wait { millis: 100 }
    );
    assert_eq!(controller.step(Event::Polled { buffer_empty: true }), Action::Stop);
}

#[test]
fn stream_fault_outside_playback_is_ignored() {
    let mut controller = LifecycleController::new();
    assert_eq!(controller.step(Event::StreamFault), Action::Ignore);
    assert_eq!(controller.phase(), Phase::Loading);
    controller.step(Event::Loaded);
    assert_eq!(controller.step(Event::StreamFault), Action::Ignore);
    assert_eq!(controller.phase(), Phase::Negotiating);
}

#[test]
fn a_finished_run_ignores_every_event() {
    let events = [
        Event::Loaded,
        Event::LoadFailed,
        Event::DeviceMissing,
        Event::DeviceReady(SampleFormat::F32),
        Event::Polled { buffer_empty: false },
        Event::Polled { buffer_empty: true },
        Event::StreamFault,
    ];
    let mut done = playing();
    done.step(Event::Polled { buffer_empty: true });
    let mut failed = LifecycleController::new();
    failed.step(Event::LoadFailed);
    for event in events {
        assert_eq!(done.step(event), Action::Ignore);
        assert_eq!(done.phase(), Phase::Finished);
        assert_eq!(failed.step(event), Action::Ignore);
        assert_eq!(failed.phase(), Phase::Failed);
    }
}

#[test]
fn events_out_of_place_are_ignored() {
    let mut controller = LifecycleController::new();
    assert_eq!(controller.step(Event::DeviceReady(SampleFormat::F32)), Action::Ignore);
    assert_eq!(controller.step(Event::DeviceMissing), Action::Ignore);
    assert_eq!(controller.step(Event::Polled { buffer_empty: true }), Action::Ignore);
    assert_eq!(controller.phase(), Phase::Loading);
    controller.step(Event::Loaded);
    assert_eq!(controller.step(Event::Loaded), Action::Ignore);
    assert_eq!(controller.step(Event::LoadFailed), Action::Ignore);
    assert_eq!(controller.step(Event::Polled { buffer_empty: true }), Action::Ignore);
    assert_eq!(controller.phase(), Phase::Negotiating);
    let mut running = playing();
    assert_eq!(running.step(Event::Loaded), Action::Ignore);
    assert_eq!(running.step(Event::LoadFailed), Action::Ignore);
    assert_eq!(running.step(Event::DeviceMissing), Action::Ignore);
    assert_eq!(running.step(Event::DeviceReady(SampleFormat::I16)), Action::Ignore);
    assert_eq!(running.phase(), Phase::Playing);
}
