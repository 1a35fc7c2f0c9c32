use std::cell::Cell;
use std::rc::Rc;

use audio_pipeline::capture::{
    capture_step, negotiate_encoding, CaptureError, CaptureEvent, CapturePhase, Encoding,
    FormatTag,
};
use audio_pipeline::relay::RecvOutcome;
use audio_pipeline::state::{consumer_step, RenderState};
use audio_pipeline::util::Defer;

#[test]
fn negotiation_accepts_exactly_four_encodings() {
    assert_eq!(negotiate_encoding(FormatTag::I8), Ok(Encoding::I8));
    assert_eq!(negotiate_encoding(FormatTag::I16), Ok(Encoding::I16));
    assert_eq!(negotiate_encoding(FormatTag::I32), Ok(Encoding::I32));
    assert_eq!(negotiate_encoding(FormatTag::F32), Ok(Encoding::F32));
    assert_eq!(
        negotiate_encoding(FormatTag::Other(42)),
        Err(CaptureError::UnsupportedFormat(FormatTag::Other(42)))
    );
}

#[test]
fn happy_path_reaches_streaming_then_stops_cleanly() {
    let p = CapturePhase::Uninitialized;
    let (p, e) = capture_step(p, CaptureEvent::DeviceFound);
    assert_eq!((p, e), (CapturePhase::DeviceOpened, None));
    let (p, e) = capture_step(p, CaptureEvent::FormatReported(FormatTag::I16));
    assert_eq!((p, e), (CapturePhase::ConfigNegotiated(Encoding::I16), None));
    let (p, e) = capture_step(p, CaptureEvent::StreamStarted);
    assert_eq!((p, e), (CapturePhase::Streaming(Encoding::I16), None));
    let (p, e) = capture_step(p, CaptureEvent::Released);
    assert_eq!((p, e), (CapturePhase::Stopped, None));
    // Stopped is terminal: no event moves it again.
    let (p, e) = capture_step(p, CaptureEvent::DeviceFound);
    assert_eq!((p, e), (CapturePhase::Stopped, None));
}

#[test]
fn each_startup_failure_is_fatal_with_its_error() {
    let (p, e) = capture_step(CapturePhase::Uninitialized, CaptureEvent::NoDevice);
    assert_eq!((p, e), (CapturePhase::Stopped, Some(CaptureError::DeviceNotFound)));

    let (p, e) = capture_step(
        CapturePhase::DeviceOpened,
        CaptureEvent::FormatReported(FormatTag::Other(3)),
    );
    assert_eq!(
        (p, e),
        (
            CapturePhase::Stopped,
            Some(CaptureError::UnsupportedFormat(FormatTag::Other(3)))
        )
    );

    let (p, e) = capture_step(
        CapturePhase::ConfigNegotiated(Encoding::I8),
        CaptureEvent::BuildRejected,
    );
    assert_eq!((p, e), (CapturePhase::Stopped, Some(CaptureError::StreamInitError)));

    let (p, e) = capture_step(
        CapturePhase::ConfigNegotiated(Encoding::I8),
        CaptureEvent::StartRejected,
    );
    assert_eq!((p, e), (CapturePhase::Stopped, Some(CaptureError::StreamStartError)));

    let (p, e) = capture_step(CapturePhase::Streaming(Encoding::F32), CaptureEvent::RelayClosed);
    assert_eq!((p, e), (CapturePhase::Stopped, Some(CaptureError::ChannelClosed)));
}

#[test]
fn mismatched_events_change_nothing() {
    let (p, e) = capture_step(CapturePhase::Uninitialized, CaptureEvent::StreamStarted);
    assert_eq!((p, e), (CapturePhase::Uninitialized, None));
    let (p, e) = capture_step(CapturePhase::Streaming(Encoding::I32), CaptureEvent::DeviceFound);
    assert_eq!((p, e), (CapturePhase::Streaming(Encoding::I32), None));
}

#[test]
fn consumer_replaces_render_state_wholesale() {
    let mut state = RenderState::new();
    assert!(state.snapshot().is_empty());

    let more = consumer_step(RecvOutcome::Received(vec![1, 2, 3]), &mut state);
    assert!(more);
    assert_eq!(state.snapshot(), &vec![1, 2, 3]);

    // A newer buffer replaces, never merges.
    let more = consumer_step(RecvOutcome::Received(vec![9]), &mut state);
    assert!(more);
    assert_eq!(state.snapshot(), &vec![9]);

    // Nothing available yet: keep waiting, keep the last buffer.
    let more = consumer_step(RecvOutcome::Empty, &mut state);
    assert!(more);
    assert_eq!(state.snapshot(), &vec![9]);

    // End of stream: terminate silently, last buffer stays drawable.
    let more = consumer_step(RecvOutcome::Disconnected, &mut state);
    assert!(!more);
    assert_eq!(state.snapshot(), &vec![9]);
}

#[test]
fn defer_runs_its_action_exactly_once() {
    let fired = Rc::new(Cell::new(0u32));
    let seen = fired.clone();
    let guard = Defer::new(move || {
        seen.set(seen.get() + 1);
    });
    assert_eq!(fired.get(), 0);
    guard.run();
    assert_eq!(fired.get(), 1);
}
