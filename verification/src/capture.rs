//! Capture-side decisions: encoding negotiation and the capture source's
//! life cycle.
//!
//! The host shell owns the audio device; this module owns every decision
//! made around it.  `negotiate_encoding` is the exhaustive dispatch over
//! the encoding the device reports — exactly four encodings are accepted,
//! anything else is refused before capture starts.  `capture_step` is the
//! life-cycle transition function: the shell feeds it what the device did
//! (found, refused, built, started, failed, released) and obeys the phase
//! and error it hands back.  Every startup failure is fatal to the
//! capture path and lands in the terminal `Stopped` phase; so does the
//! relay closing underneath a send, which is the trigger for stream
//! teardown.

use vstd::prelude::*;

verus! {

/// The sample encoding a device reports for its default input
/// configuration.  The four named encodings are the supported ones;
/// `Other` carries an opaque identifier for any further encoding a
/// driver may report.
#[derive(Clone, Copy, PartialEq, Eq, Structural, Debug)]
pub enum FormatTag {
    I8,
    I16,
    I32,
    F32,
    Other(u32),
}

/// The supported encodings, after negotiation has accepted one.  Integer
/// blocks go through the normalizer; float blocks widen to double
/// exactly, with no arithmetic to do.
#[derive(Clone, Copy, PartialEq, Eq, Structural, Debug)]
pub enum Encoding {
    I8,
    I16,
    I32,
    F32,
}

/// Why the capture path stopped.  All but `ChannelClosed` arise once, at
/// startup; `ChannelClosed` is the consumer side disconnecting under a
/// running stream.
#[derive(Clone, Copy, PartialEq, Eq, Structural, Debug)]
pub enum CaptureError {
    /// No default input device exists.
    DeviceNotFound,
    /// The device reported an encoding outside the supported four; the
    /// offending tag rides along.
    UnsupportedFormat(FormatTag),
    /// The device rejected the requested stream configuration.
    StreamInitError,
    /// The stream was built but could not be activated.
    StreamStartError,
    /// The relay's consumer side is gone: terminal for the capture
    /// thread, the trigger for stream teardown.
    ChannelClosed,
}

/// Where a capture source stands in its life.  `Stopped` is terminal: a
/// source is created once and torn down once; capturing again takes a
/// fresh source.
#[derive(Clone, Copy, PartialEq, Eq, Structural, Debug)]
pub enum CapturePhase {
    Uninitialized,
    DeviceOpened,
    ConfigNegotiated(Encoding),
    Streaming(Encoding),
    Stopped,
}

/// What the device boundary reports back to the capture source.
#[derive(Clone, Copy, PartialEq, Eq, Structural, Debug)]
pub enum CaptureEvent {
    /// A default input device exists.
    DeviceFound,
    /// No default input device exists.
    NoDevice,
    /// The device's default configuration reports this encoding.
    FormatReported(FormatTag),
    /// The stream was built and activated.
    StreamStarted,
    /// The device rejected the stream configuration at build time.
    BuildRejected,
    /// The stream was built but refused to activate.
    StartRejected,
    /// A send into the relay found the consumer side gone.
    RelayClosed,
    /// The owner released the stream handle: deliberate teardown.
    Released,
}

/// The encoding accepted for a reported tag, if any.
pub open spec fn spec_negotiate(fmt: FormatTag) -> Option<Encoding> {
    match fmt {
        FormatTag::I8 => Some(Encoding::I8),
        FormatTag::I16 => Some(Encoding::I16),
        FormatTag::I32 => Some(Encoding::I32),
        FormatTag::F32 => Some(Encoding::F32),
        FormatTag::Other(_) => None,
    }
}

/// Exhaustive dispatch over the reported encoding: each of the four
/// supported encodings is accepted as itself; anything else is refused
/// with the offending tag, and capture never starts.
pub fn negotiate_encoding(fmt: FormatTag) -> (r: Result<Encoding, CaptureError>)
    ensures
        spec_negotiate(fmt) matches Some(e) ==> r == Ok::<Encoding, CaptureError>(e),
        spec_negotiate(fmt) is None ==> r == Err::<Encoding, CaptureError>(
            CaptureError::UnsupportedFormat(fmt),
        ),
{
    match fmt {
        FormatTag::I8 => Ok(Encoding::I8),
        FormatTag::I16 => Ok(Encoding::I16),
        FormatTag::I32 => Ok(Encoding::I32),
        FormatTag::F32 => Ok(Encoding::F32),
        FormatTag::Other(_) => Err(CaptureError::UnsupportedFormat(fmt)),
    }
}

/// The life-cycle transition table.  The phase advances
/// `Uninitialized -> DeviceOpened -> ConfigNegotiated -> Streaming`, every
/// failure is fatal and lands in `Stopped` with its error, teardown lands
/// in `Stopped` without one, `Stopped` never moves again, and an event
/// that does not belong to the current phase changes nothing.
pub open spec fn spec_capture_step(p: CapturePhase, ev: CaptureEvent) -> (CapturePhase, Option<
    CaptureError,
>) {
    match (p, ev) {
        (CapturePhase::Uninitialized, CaptureEvent::DeviceFound) => (
            CapturePhase::DeviceOpened,
            None,
        ),
        (CapturePhase::Uninitialized, CaptureEvent::NoDevice) => (
            CapturePhase::Stopped,
            Some(CaptureError::DeviceNotFound),
        ),
        (CapturePhase::DeviceOpened, CaptureEvent::FormatReported(fmt)) => match spec_negotiate(
            fmt,
        ) {
            Some(e) => (CapturePhase::ConfigNegotiated(e), None),
            None => (CapturePhase::Stopped, Some(CaptureError::UnsupportedFormat(fmt))),
        },
        (CapturePhase::ConfigNegotiated(e), CaptureEvent::StreamStarted) => (
            CapturePhase::Streaming(e),
            None,
        ),
        (CapturePhase::ConfigNegotiated(_), CaptureEvent::BuildRejected) => (
            CapturePhase::Stopped,
            Some(CaptureError::StreamInitError),
        ),
        (CapturePhase::ConfigNegotiated(_), CaptureEvent::StartRejected) => (
            CapturePhase::Stopped,
            Some(CaptureError::StreamStartError),
        ),
        (CapturePhase::Streaming(_), CaptureEvent::RelayClosed) => (
            CapturePhase::Stopped,
            Some(CaptureError::ChannelClosed),
        ),
        (CapturePhase::Streaming(_), CaptureEvent::Released) => (CapturePhase::Stopped, None),
        _ => (p, None),
    }
}

/// Advances the capture source's life cycle by one reported event,
/// returning the next phase and the error, if any, that stopped capture.
pub fn capture_step(p: CapturePhase, ev: CaptureEvent) -> (r: (CapturePhase, Option<CaptureError>))
    ensures
        r == spec_capture_step(p, ev),
        p is Stopped ==> r.0 is Stopped,
        r.1 is Some ==> r.0 is Stopped,
{
    match (p, ev) {
        (CapturePhase::Uninitialized, CaptureEvent::DeviceFound) => (
            CapturePhase::DeviceOpened,
            None,
        ),
        (CapturePhase::Uninitialized, CaptureEvent::NoDevice) => (
            CapturePhase::Stopped,
            Some(CaptureError::DeviceNotFound),
        ),
        (CapturePhase::DeviceOpened, CaptureEvent::FormatReported(fmt)) => match negotiate_encoding(
            fmt,
        ) {
            Ok(e) => (CapturePhase::ConfigNegotiated(e), None),
            Err(err) => (CapturePhase::Stopped, Some(err)),
        },
        (CapturePhase::ConfigNegotiated(e), CaptureEvent::StreamStarted) => (
            CapturePhase::Streaming(e),
            None,
        ),
        (CapturePhase::ConfigNegotiated(_), CaptureEvent::BuildRejected) => (
            CapturePhase::Stopped,
            Some(CaptureError::StreamInitError),
        ),
        (CapturePhase::ConfigNegotiated(_), CaptureEvent::StartRejected) => (
            CapturePhase::Stopped,
            Some(CaptureError::StreamStartError),
        ),
        (CapturePhase::Streaming(_), CaptureEvent::RelayClosed) => (
            CapturePhase::Stopped,
            Some(CaptureError::ChannelClosed),
        ),
        (CapturePhase::Streaming(_), CaptureEvent::Released) => (CapturePhase::Stopped, None),
        (phase, _) => (phase, None),
    }
}

} // verus!
