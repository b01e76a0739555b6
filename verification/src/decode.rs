//! Decoding encoded frame bytes into a well-formed RGBA pixel buffer.

use vstd::prelude::*;

use crate::frame::RgbaFrame;
use crate::CaptureError;

verus! {

/// What the image decoder yields on a given byte sequence: `None` when no
/// format can be detected or decoding fails, otherwise the width, the
/// height, and the row-major RGBA samples (four bytes per pixel, alpha not
/// premultiplied) of the decoded image.
pub uninterp spec fn rgba_decoding_of(bytes: Seq<u8>) -> Option<(nat, nat, Seq<u8>)>;

/// Whether the given bytes decode to an image with at least one pixel.
pub open spec fn decodes_to_image(bytes: Seq<u8>) -> bool {
    match rgba_decoding_of(bytes) {
        Some(t) => t.0 > 0 && t.1 > 0,
        None => false,
    }
}

/// Relies on image::load_from_memory (the format is guessed from the bytes
/// themselves) followed by image::DynamicImage::to_rgba8: the decoded RGBA
/// image depends on the input bytes alone; the returned buffer holds
/// exactly four bytes per pixel, alpha not premultiplied; an empty input
/// has no detectable format and fails to decode.
#[verifier::external_body]
fn decode_rgba_bytes(bytes: &[u8]) -> (r: Option<(u32, u32, Vec<u8>)>)
    ensures
        r matches Some(t) ==> rgba_decoding_of(bytes@) == Some((
            t.0 as nat,
            t.1 as nat,
            t.2@,
        )),
        r matches Some(t) ==> t.2@.len() == t.0 as nat * t.1 as nat * 4,
        r is None ==> rgba_decoding_of(bytes@) is None,
        bytes@.len() == 0 ==> r is None,
{
    match image::load_from_memory(bytes) {
        Ok(img) => {
            let buf = img.to_rgba8();
            let w = buf.width();
            let h = buf.height();
            Some((w, h, buf.into_raw()))
        }
        Err(_) => None,
    }
}

/// Decode one captured frame's bytes into an RGBA pixel buffer.
///
/// The encoding is detected from the bytes alone. A buffer that does not
/// decode, an empty buffer, and a buffer that decodes to an image without
/// a single pixel are all rejected as a decode failure, so a returned
/// frame is never zero-sized and always carries exactly `width * height *
/// 4` pixel bytes.
pub fn decode_frame(bytes: &[u8]) -> (r: Result<RgbaFrame, CaptureError>)
    ensures
        r matches Ok(f) ==> {
            &&& f.well_formed()
            &&& rgba_decoding_of(bytes@) == Some((
                f.width as nat,
                f.height as nat,
                f.pixels@,
            ))
            &&& f.pixels@.len() == f.width as nat * f.height as nat * 4
        },
        (r is Ok) == decodes_to_image(bytes@),
        r is Err ==> r == Err::<RgbaFrame, CaptureError>(CaptureError::DecodeFailed),
        bytes@.len() == 0 ==> r is Err,
{
    match decode_rgba_bytes(bytes) {
        Some((w, h, p)) => {
            if w == 0 || h == 0 {
                Err(CaptureError::DecodeFailed)
            } else {
                Ok(RgbaFrame { width: w, height: h, pixels: p })
            }
        },
        None => Err(CaptureError::DecodeFailed),
    }
}

} // verus!
