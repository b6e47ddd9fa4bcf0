//! Frame admission between the MP3 decoder and the sample buffer.
//!
//! The decoder task hands each decode outcome to this module as a plain
//! event. Good frames are delivered whole into the buffer — after waiting for
//! room, never by dropping samples — a corrupt frame is skipped, and a clean
//! end of stream finishes the decoder so the controller can tear the session
//! down.

use vstd::prelude::*;

verus! {

use crate::buffer::{free_space, SampleBuffer};

/// What the decoder got when it asked for the next frame.
pub enum FrameEvent {
    /// A frame decoded cleanly into these PCM samples.
    Frame(Vec<i16>),
    /// The byte stream ended cleanly.
    EndOfStream,
    /// The frame could not be decoded.
    CorruptFrame,
}

/// What the decoder does with one event.
#[derive(Clone, Copy, PartialEq, Eq, Structural, Debug)]
pub enum FrameAction {
    /// Wait for room, then push the whole frame.
    Deliver,
    /// Drop this one frame and keep decoding.
    Skip,
    /// Stop decoding; the controller tears the session down.
    Finish,
}

/// The decode-error policy, fixed once for the whole player: a corrupt frame
/// is skipped and decoding goes on, because for streaming radio dropping one
/// bad frame recovers better than ending the session; a clean end of stream
/// finishes the decoder.
pub open spec fn frame_action_spec(ev: FrameEvent) -> FrameAction {
    match ev {
        FrameEvent::Frame(_) => FrameAction::Deliver,
        FrameEvent::EndOfStream => FrameAction::Finish,
        FrameEvent::CorruptFrame => FrameAction::Skip,
    }
}

/// Decides what to do with one decode outcome; see [`frame_action_spec`].
pub fn frame_action(ev: &FrameEvent) -> (a: FrameAction)
    ensures
        a == frame_action_spec(*ev),
{
    match ev {
        FrameEvent::Frame(_) => FrameAction::Deliver,
        FrameEvent::EndOfStream => FrameAction::Finish,
        FrameEvent::CorruptFrame => FrameAction::Skip,
    }
}

/// The writer's permit check: whether the buffer has room for a whole frame
/// of `n` samples right now. When it does not, the decoder waits for the
/// callback to free space — backpressure — rather than dropping samples or
/// letting the buffer grow.
pub fn admits(buf: &SampleBuffer, n: usize) -> (b: bool)
    requires
        buf.wf(),
    ensures
        b == (n as int <= free_space(buf@, buf.cap())),
{
    n <= buf.free_len()
}

/// Pushes one whole frame. The decoder calls this only once [`admits`] has
/// granted room for all of it, so every sample of the frame is queued, in
/// order, behind what was already there.
pub fn push_frame(buf: &mut SampleBuffer, frame: &Vec<i16>)
    requires
        old(buf).wf(),
        frame@.len() as int <= free_space(old(buf)@, old(buf).cap()),
    ensures
        final(buf).wf(),
        final(buf).cap() == old(buf).cap(),
        final(buf)@ == old(buf)@ + frame@,
{
    let _ = buf.push(frame);
    proof {
        assert(frame@.take(frame@.len() as int) =~= frame@);
    }
}

} // verus!
