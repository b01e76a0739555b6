//! The per-tick seam of the redraw loop: one stream observation in, one
//! presentation decision out.

use vstd::prelude::*;

use crate::decode::{decode_frame, decodes_to_image, rgba_decoding_of};
use crate::frame::RgbaFrame;
use crate::stream::{ReadEvent, ReadOutcome, StreamTracker};
use crate::CaptureError;

verus! {

/// What one redraw tick should do with the screen.
pub enum PresentStep {
    /// Show this freshly decoded frame, captured under this metadata.
    Show(RgbaFrame, crate::stream::FrameMeta),
    /// Show nothing new this tick and poll again.
    Skip,
    /// The stream is over; stop polling.
    Stop,
}

/// Take one observation of the capture stream through the tracker and, if
/// it delivers a fresh frame, decode it for display.
///
/// A transient empty read asks only to poll again; end-of-stream asks to
/// stop; a stale frame is a transient read failure; and a fresh frame
/// whose bytes do not decode to an image with at least one pixel is a
/// decode failure.
pub fn present_event(tracker: &mut StreamTracker, ev: ReadEvent) -> (r: Result<
    PresentStep,
    CaptureError,
>)
    ensures
        *final(tracker) == old(tracker).step(ev),
        ({
            let out = old(tracker).outcome(ev);
            match out {
                Ok(o) => match o {
                    ReadOutcome::Delivered(d, m) => if decodes_to_image(d@) {
                        r matches Ok(s) && s matches PresentStep::Show(f, m2) && m2 == m
                            && f.well_formed() && rgba_decoding_of(d@) == Some((
                            f.width as nat,
                            f.height as nat,
                            f.pixels@,
                        ))
                    } else {
                        r == Err::<PresentStep, CaptureError>(CaptureError::DecodeFailed)
                    },
                    ReadOutcome::TryAgain => r == Ok::<PresentStep, CaptureError>(
                        PresentStep::Skip,
                    ),
                    ReadOutcome::Finished => r == Ok::<PresentStep, CaptureError>(
                        PresentStep::Stop,
                    ),
                },
                Err(e) => r == Err::<PresentStep, CaptureError>(e),
            }
        }),
{
    match tracker.advance(ev) {
        Ok(ReadOutcome::Delivered(data, meta)) => match decode_frame(&data) {
            Ok(frame) => Ok(PresentStep::Show(frame, meta)),
            Err(e) => Err(e),
        },
        Ok(ReadOutcome::TryAgain) => Ok(PresentStep::Skip),
        Ok(ReadOutcome::Finished) => Ok(PresentStep::Stop),
        Err(e) => Err(e),
    }
}

} // verus!
