use vstd::prelude::*;

use crate::audio::{center_biased_samples, centered_of, samples16_of, to_samples16};
use crate::demux::{audio_segment, demux, video_segment};
use crate::error::{CaptureError, DecodeWarning};
use crate::geometry::{AudioMode, ProtocolGeometry};
use crate::pixel::{pixels_of, rotate_270, rotated_270, u8_to_u32};

verus! {

/// What one capture cycle hands to the display and the audio output.
#[derive(Debug, PartialEq, Eq)]
pub struct Cycle {
    /// Display pixels, row-major, already turned to the display's orientation.
    pub frame: Vec<u32>,
    /// Width of `frame` in pixels.
    pub frame_width: usize,
    /// Height of `frame` in pixels.
    pub frame_height: usize,
    /// Interleaved audio samples, decoded per the layout's audio mode.
    pub samples: Vec<i16>,
    /// A malformed trailing audio unit that was dropped, if any.
    pub audio_warning: Option<DecodeWarning>,
}

/// The display pixels of a capture buffer.
pub open spec fn frame_of(raw: Seq<u8>, g: ProtocolGeometry) -> Seq<u32> {
    rotated_270(pixels_of(video_segment(raw, g)), g.width as nat, g.height as nat)
}

/// The audio samples of a capture buffer.
pub open spec fn samples_of(raw: Seq<u8>, g: ProtocolGeometry) -> Seq<i16> {
    match g.audio_mode {
        AudioMode::Pcm16 => samples16_of(audio_segment(raw, g)),
        AudioMode::Biased8 => centered_of(audio_segment(raw, g)),
    }
}

/// Decodes one capture buffer: splits it, turns the video segment into a
/// display frame rotated by 270 degrees, and decodes the audio segment.
pub fn process_cycle(raw: &[u8], geometry: &ProtocolGeometry) -> (r: Result<Cycle, CaptureError>)
    requires
        geometry.wf(),
    ensures
        r is Ok <==> raw@.len() >= geometry.total_len,
        r matches Err(e) ==> e == CaptureError::TruncatedFrame,
        r matches Ok(c) ==> {
            &&& c.frame@ == frame_of(raw@, *geometry)
            &&& c.frame@.len() == geometry.width * geometry.height
            &&& c.frame_width == geometry.height
            &&& c.frame_height == geometry.width
            &&& c.samples@ == samples_of(raw@, *geometry)
            &&& c.audio_warning == (if geometry.audio_mode == AudioMode::Pcm16
                && geometry.audio_len % 2 == 1 {
                Some(DecodeWarning::IncompleteSample)
            } else {
                None
            })
        },
{
    let segments = match demux(raw, geometry) {
        Ok(s) => s,
        Err(e) => return Err(e),
    };
    let (pixels, _) = u8_to_u32(segments.video.as_slice());
    proof {
        assert((geometry.width * geometry.height * 3) / 3 == geometry.width * geometry.height)
            by (nonlinear_arith);
    }
    let frame = rotate_270(pixels.as_slice(), geometry.width, geometry.height);
    let (samples, audio_warning) = match geometry.audio_mode {
        AudioMode::Pcm16 => to_samples16(segments.audio.as_slice()),
        AudioMode::Biased8 => (center_biased_samples(segments.audio.as_slice()), None),
    };
    Ok(Cycle {
        frame,
        frame_width: geometry.height,
        frame_height: geometry.width,
        samples,
        audio_warning,
    })
}

/// Where the capture loop stands.
#[derive(Debug, Clone, Copy, PartialEq, Eq, Structural)]
pub enum LoopState {
    Idle,
    Configuring,
    /// Between cycles: waiting to learn whether a stop was asked for.
    Polling,
    Kicking,
    Reading,
    Dispatching,
    Closing,
    Finished,
}

/// What the caller observed while performing the last action.
#[derive(Debug, Clone, Copy, PartialEq, Eq, Structural)]
pub enum LoopEvent {
    Start,
    Configured,
    ConfigureFailed,
    /// No stop was asked for: go on with another cycle.
    Running,
    StopRequested,
    KickSent,
    KickFailed,
    /// A bulk read returned `bytes` bytes.
    BulkRead { bytes: usize },
    BulkReadFailed,
    Dispatched,
    TornDown,
}

/// What the caller is to do next.
#[derive(Debug, Clone, Copy, PartialEq, Eq, Structural)]
pub enum LoopAction {
    /// Run the device handshake.
    Configure,
    /// Check for a stop signal (window closed, quit key).
    CheckStop,
    /// Send the vendor request of `vendor_kick`.
    SendVendorKick,
    /// Read from the bulk endpoint into the capture buffer.
    ReadBulk,
    /// Decode the capture buffer and hand frame and samples to the sinks.
    Dispatch,
    /// Tear the device session down.
    Teardown,
    /// Leave the loop.
    Exit,
}

/// The decisions of the capture loop. One cycle sends the vendor request,
/// then reads until a read returns zero bytes, then dispatches what was read.
/// Any failure, and a stop signal seen between cycles, leads to teardown
/// before the loop exits. The device's own framing is kept as it is: a
/// cycle's data is complete when a read returns no bytes, and a failed read
/// ends the session.
#[derive(Debug, Clone, Copy, PartialEq, Eq, Structural)]
pub struct CaptureLoop {
    pub state: LoopState,
    /// The failure that ended the loop, if one did.
    pub error: Option<CaptureError>,
}

/// The action that a state waits to hear about.
pub open spec fn pending_action(state: LoopState) -> LoopAction {
    match state {
        LoopState::Idle => LoopAction::Configure,
        LoopState::Configuring => LoopAction::Configure,
        LoopState::Polling => LoopAction::CheckStop,
        LoopState::Kicking => LoopAction::SendVendorKick,
        LoopState::Reading => LoopAction::ReadBulk,
        LoopState::Dispatching => LoopAction::Dispatch,
        LoopState::Closing => LoopAction::Teardown,
        LoopState::Finished => LoopAction::Exit,
    }
}

impl CaptureLoop {
    pub fn new() -> (r: CaptureLoop)
        ensures
            r.state == LoopState::Idle,
            r.error is None,
    {
        CaptureLoop { state: LoopState::Idle, error: None }
    }

    /// The loop after `event`, and the action to perform next. An event that
    /// does not answer the pending action changes nothing and asks for that
    /// action again.
    pub open spec fn stepped(self, event: LoopEvent) -> (CaptureLoop, LoopAction) {
        let to = |state: LoopState| (CaptureLoop { state, ..self }, pending_action(state));
        let fail = |e: CaptureError|
            (CaptureLoop { state: LoopState::Closing, error: Some(e) }, LoopAction::Teardown);
        match (self.state, event) {
            (LoopState::Idle, LoopEvent::Start) => to(LoopState::Configuring),
            (LoopState::Configuring, LoopEvent::Configured) => to(LoopState::Polling),
            (LoopState::Configuring, LoopEvent::ConfigureFailed) => fail(
                CaptureError::ConfigurationError,
            ),
            (LoopState::Polling, LoopEvent::Running) => to(LoopState::Kicking),
            (LoopState::Polling, LoopEvent::StopRequested) => to(LoopState::Closing),
            (LoopState::Kicking, LoopEvent::KickSent) => to(LoopState::Reading),
            (LoopState::Kicking, LoopEvent::KickFailed) => fail(CaptureError::ControlTransferError),
            (LoopState::Reading, LoopEvent::BulkRead { bytes }) => if bytes == 0 {
                to(LoopState::Dispatching)
            } else {
                to(LoopState::Reading)
            },
            (LoopState::Reading, LoopEvent::BulkReadFailed) => fail(
                CaptureError::BulkTransferError,
            ),
            (LoopState::Dispatching, LoopEvent::Dispatched) => to(LoopState::Polling),
            (LoopState::Closing, LoopEvent::TornDown) => to(LoopState::Finished),
            _ => (self, pending_action(self.state)),
        }
    }

    /// Takes the outcome of the last action and names the next one.
    pub fn step(&mut self, event: LoopEvent) -> (action: LoopAction)
        ensures
            (*final(self), action) == old(self).stepped(event),
    {
        let next = match (self.state, event) {
            (LoopState::Idle, LoopEvent::Start) => LoopState::Configuring,
            (LoopState::Configuring, LoopEvent::Configured) => LoopState::Polling,
            (LoopState::Configuring, LoopEvent::ConfigureFailed) => {
                self.error = Some(CaptureError::ConfigurationError);
                LoopState::Closing
            },
            (LoopState::Polling, LoopEvent::Running) => LoopState::Kicking,
            (LoopState::Polling, LoopEvent::StopRequested) => LoopState::Closing,
            (LoopState::Kicking, LoopEvent::KickSent) => LoopState::Reading,
            (LoopState::Kicking, LoopEvent::KickFailed) => {
                self.error = Some(CaptureError::ControlTransferError);
                LoopState::Closing
            },
            (LoopState::Reading, LoopEvent::BulkRead { bytes }) => if bytes == 0 {
                LoopState::Dispatching
            } else {
                LoopState::Reading
            },
            (LoopState::Reading, LoopEvent::BulkReadFailed) => {
                self.error = Some(CaptureError::BulkTransferError);
                LoopState::Closing
            },
            (LoopState::Dispatching, LoopEvent::Dispatched) => LoopState::Polling,
            (LoopState::Closing, LoopEvent::TornDown) => LoopState::Finished,
            _ => self.state,
        };
        self.state = next;
        Self::action_for(next)
    }

    /// The action that `state` waits to hear about.
    pub fn action_for(state: LoopState) -> (action: LoopAction)
        ensures
            action == pending_action(state),
    {
        match state {
            LoopState::Idle => LoopAction::Configure,
            LoopState::Configuring => LoopAction::Configure,
            LoopState::Polling => LoopAction::CheckStop,
            LoopState::Kicking => LoopAction::SendVendorKick,
            LoopState::Reading => LoopAction::ReadBulk,
            LoopState::Dispatching => LoopAction::Dispatch,
            LoopState::Closing => LoopAction::Teardown,
            LoopState::Finished => LoopAction::Exit,
        }
    }
}

/// The loop only exits through teardown: `Exit` comes only once teardown has
/// been reported done, and every failure, like a stop signal between cycles,
/// asks for teardown next.
pub proof fn exit_only_after_teardown(l: CaptureLoop, event: LoopEvent)
    ensures
        l.stepped(event).1 == LoopAction::Exit ==> l.state == LoopState::Closing || l.state
            == LoopState::Finished,
        l.state == LoopState::Closing && l.stepped(event).1 == LoopAction::Exit ==> event
            == LoopEvent::TornDown,
        (event == LoopEvent::ConfigureFailed && l.state == LoopState::Configuring || event
            == LoopEvent::KickFailed && l.state == LoopState::Kicking || event
            == LoopEvent::BulkReadFailed && l.state == LoopState::Reading || event
            == LoopEvent::StopRequested && l.state == LoopState::Polling) ==> l.stepped(event).1
            == LoopAction::Teardown,
{
}

/// One polling cycle: from `Polling`, going on sends the vendor request,
/// reads while reads return data, dispatches once when a read returns zero
/// bytes, and comes back to `Polling` with no error.
pub proof fn one_cycle_dispatches_once(l: CaptureLoop, bytes: usize)
    requires
        l.state == LoopState::Polling,
        bytes > 0,
    ensures
        ({
            let (l1, a1) = l.stepped(LoopEvent::Running);
            let (l2, a2) = l1.stepped(LoopEvent::KickSent);
            let (l3, a3) = l2.stepped(LoopEvent::BulkRead { bytes });
            let (l4, a4) = l3.stepped(LoopEvent::BulkRead { bytes: 0 });
            let (l5, a5) = l4.stepped(LoopEvent::Dispatched);
            &&& a1 == LoopAction::SendVendorKick
            &&& a2 == LoopAction::ReadBulk
            &&& a3 == LoopAction::ReadBulk
            &&& a4 == LoopAction::Dispatch
            &&& a5 == LoopAction::CheckStop
            &&& l5 == l
        }),
{
}

} // verus!
