//! A small library for pulling single frames from a capture source and
//! turning them into RGBA pixel buffers ready for display.
//!
//! The hardware-facing edges (camera protocol sessions, capture device
//! nodes, the GUI event loop) live outside this crate; what is verified
//! here is the seam between them: decoding encoded frame bytes into a
//! well-formed pixel buffer, negotiating a capture format against what a
//! device actually supports, and tracking a buffered frame stream so that
//! metadata is never reused and end-of-stream is distinguishable from a
//! transient empty read.

pub mod decode;
pub mod format;
pub mod frame;
pub mod present;
pub mod stream;

use vstd::prelude::*;

verus! {

/// The failure kinds a capture pipeline can report, distinguishing
/// permanent conditions from transient ones so that a caller may choose
/// to retry rather than abort.
#[derive(Clone, Copy, Debug, PartialEq, Eq, Structural)]
pub enum CaptureError {
    /// No capture device could be found or opened.
    DeviceNotFound,
    /// The device could not agree on any capture format.
    NegotiationFailed,
    /// A read yielded nothing this time; retrying may succeed.
    TransientRead,
    /// The frame bytes could not be decoded as an image.
    DecodeFailed,
}

} // verus!
