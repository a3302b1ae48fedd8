//! Video media: forwarding RTP packets to a local video track.
//!
//! A forwarding routine writes each packet to the track. It ends quietly when the
//! track is gone or its pipe is closed, and with an error on any other write error.

pub mod gst;

use vstd::prelude::*;

verus! {

/// How writing one packet to the video track went.
#[derive(Clone, Copy, Debug, PartialEq, Eq, Structural)]
pub enum WriteOutcome {
    Written,
    /// The track no longer exists.
    TrackGone,
    /// The track's pipe is closed.
    ClosedPipe,
    /// Any other write error.
    Failed,
}

/// What a forwarding routine does next.
#[derive(Clone, Copy, Debug, PartialEq, Eq, Structural)]
pub enum ForwardStep {
    /// Forward the next packet.
    Continue,
    /// End without error.
    Finish,
    /// End with the write error.
    Fail,
}

pub open spec fn spec_next_step(outcome: WriteOutcome) -> ForwardStep {
    match outcome {
        WriteOutcome::Written => ForwardStep::Continue,
        WriteOutcome::TrackGone => ForwardStep::Finish,
        WriteOutcome::ClosedPipe => ForwardStep::Finish,
        WriteOutcome::Failed => ForwardStep::Fail,
    }
}

/// The next step of a forwarding routine after writing a packet.
pub fn next_step(outcome: WriteOutcome) -> (step: ForwardStep)
    ensures
        step == spec_next_step(outcome),
{
    match outcome {
        WriteOutcome::Written => ForwardStep::Continue,
        WriteOutcome::TrackGone => ForwardStep::Finish,
        WriteOutcome::ClosedPipe => ForwardStep::Finish,
        WriteOutcome::Failed => ForwardStep::Fail,
    }
}

} // verus!
