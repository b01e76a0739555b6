//! Capture format negotiation: what a driver actually grants for a
//! requested width, height and pixel encoding tag.

use vstd::prelude::*;

use crate::CaptureError;

verus! {

/// A four-character pixel encoding tag, packed into one word with the
/// first character in the lowest byte, as capture drivers store it.
#[derive(Clone, Copy, Debug, PartialEq, Eq, Structural)]
pub struct FourCc {
    pub code: u32,
}

impl FourCc {
    /// Pack a four-character tag, first character lowest.
    pub fn from_tag(tag: &[u8; 4]) -> (f: FourCc)
        ensures
            f.code == tag[0] + tag[1] * 0x100 + tag[2] * 0x1_0000 + tag[3] * 0x100_0000,
    {
        let b0 = tag[0] as u32;
        let b1 = tag[1] as u32;
        let b2 = tag[2] as u32;
        let b3 = tag[3] as u32;
        FourCc { code: b0 + b1 * 0x100 + b2 * 0x1_0000 + b3 * 0x100_0000 }
    }
}

/// A capture format: frame dimensions and the pixel encoding tag.
#[derive(Clone, Copy, Debug, PartialEq, Eq, Structural)]
pub struct CaptureFormat {
    pub width: u32,
    pub height: u32,
    pub fourcc: FourCc,
}

/// The format a driver grants for a request: the request itself when the
/// device supports it, otherwise the device's first supported format, and
/// nothing when the device supports no format at all.
pub open spec fn negotiated_format(
    supported: Seq<CaptureFormat>,
    requested: CaptureFormat,
) -> Option<CaptureFormat> {
    if supported.contains(requested) {
        Some(requested)
    } else if supported.len() > 0 {
        Some(supported[0])
    } else {
        None
    }
}

/// Negotiate a capture format against the formats a device supports.
///
/// The driver may substitute a different format than the one requested;
/// the returned value is the format actually granted, and a caller must
/// read its dimensions back rather than assume the request was honored.
pub fn negotiate_format(
    supported: &Vec<CaptureFormat>,
    requested: &CaptureFormat,
) -> (r: Result<CaptureFormat, CaptureError>)
    ensures
        r matches Ok(f) ==> Some(f) == negotiated_format(supported@, *requested),
        r matches Ok(f) ==> supported@.contains(f),
        (r is Ok) == (supported@.len() > 0),
        r is Err ==> r == Err::<CaptureFormat, CaptureError>(CaptureError::NegotiationFailed),
{
    let mut i: usize = 0;
    while i < supported.len()
        invariant
            i <= supported@.len(),
            forall|j: int| 0 <= j < i ==> supported@[j] != *requested,
        decreases supported@.len() - i,
    {
        if supported[i] == *requested {
            return Ok(*requested);
        }
        i += 1;
    }
    if supported.len() > 0 {
        Ok(supported[0])
    } else {
        Err(CaptureError::NegotiationFailed)
    }
}

/// Law: when the requested format is not among those a device supports but
/// the device supports at least one format, negotiation still succeeds and
/// grants one of the device's own formats — never the requested one. A
/// caller must therefore read the granted format back instead of assuming
/// its request went through.
pub proof fn lemma_negotiation_reports_actual(
    supported: Seq<CaptureFormat>,
    requested: CaptureFormat,
)
    requires
        supported.len() > 0,
        !supported.contains(requested),
    ensures
        negotiated_format(supported, requested) == Some(supported[0]),
        supported.contains(negotiated_format(supported, requested)->Some_0),
        negotiated_format(supported, requested) != Some(requested),
{
    assert(supported.contains(supported[0]));
}

/// An open capture session: the one piece of state kept across redraws,
/// carrying the format the driver actually granted.
pub struct CaptureSession {
    pub format: CaptureFormat,
}

impl CaptureSession {
    /// Decide the outcome of startup acquisition: no device detected is a
    /// distinct failure from a device that grants no format, and a session
    /// that does open records the granted format — which need not be the
    /// requested one.
    pub fn open(
        device_found: bool,
        supported: &Vec<CaptureFormat>,
        requested: &CaptureFormat,
    ) -> (r: Result<CaptureSession, CaptureError>)
        ensures
            !device_found ==> r == Err::<CaptureSession, CaptureError>(
                CaptureError::DeviceNotFound,
            ),
            device_found ==> {
                &&& (r is Ok) == (supported@.len() > 0)
                &&& r matches Ok(s) ==> Some(s.format) == negotiated_format(
                    supported@,
                    *requested,
                )
                &&& r is Err ==> r == Err::<CaptureSession, CaptureError>(
                    CaptureError::NegotiationFailed,
                )
            },
    {
        if !device_found {
            return Err(CaptureError::DeviceNotFound);
        }
        match negotiate_format(supported, requested) {
            Ok(f) => Ok(CaptureSession { format: f }),
            Err(e) => Err(e),
        }
    }

    /// Read back the format the session was actually granted.
    pub fn format(&self) -> (f: CaptureFormat)
        ensures
            f == self.format,
    {
        self.format
    }
}

/// Law: a request the device does support is granted unchanged.
pub proof fn lemma_supported_request_honored(
    supported: Seq<CaptureFormat>,
    requested: CaptureFormat,
)
    requires
        supported.contains(requested),
    ensures
        negotiated_format(supported, requested) == Some(requested),
{
}

} // verus!
