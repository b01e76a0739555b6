use camframe::decode::decode_frame;
use camframe::CaptureError;

use image::{DynamicImage, ImageBuffer, ImageFormat, Rgba};

/// Encode RGBA pixels as a PNG byte buffer.
fn encode_png(width: u32, height: u32, rgba: Vec<u8>) -> Vec<u8> {
    let img: ImageBuffer<Rgba<u8>, Vec<u8>> =
        ImageBuffer::from_raw(width, height, rgba).expect("pixel buffer matches dimensions");
    let mut bytes: Vec<u8> = Vec::new();
    DynamicImage::ImageRgba8(img)
        .write_to(&mut std::io::Cursor::new(&mut bytes), ImageFormat::Png)
        .expect("in-memory PNG encoding succeeds");
    bytes
}

#[test]
fn decoded_buffer_is_width_height_four() {
    let rgba: Vec<u8> = vec![
        10, 20, 30, 255, 40, 50, 60, 255, 70, 80, 90, 255, //
        1, 2, 3, 255, 4, 5, 6, 255, 7, 8, 9, 255,
    ];
    let encoded = encode_png(3, 2, rgba);
    let frame = decode_frame(&encoded).expect("valid PNG decodes");
    assert_eq!(frame.width, 3);
    assert_eq!(frame.height, 2);
    assert_eq!(frame.byte_len(), 3 * 2 * 4);
    assert_eq!(frame.pixels.len(), 24);
}

#[test]
fn decoded_alpha_is_not_premultiplied() {
    // A half-transparent pure-red pixel keeps its full red sample: with a
    // premultiplied layout the red byte would have been scaled down.
    let rgba: Vec<u8> = vec![255, 0, 0, 128];
    let encoded = encode_png(1, 1, rgba);
    let frame = decode_frame(&encoded).expect("valid PNG decodes");
    assert_eq!(frame.pixels, vec![255, 0, 0, 128]);
}

#[test]
fn empty_buffer_is_a_decode_failure() {
    let r = decode_frame(&[]);
    match r {
        Err(e) => assert_eq!(e, CaptureError::DecodeFailed),
        Ok(_) => panic!("an empty buffer must not decode"),
    }
}

#[test]
fn corrupt_buffer_is_a_decode_failure() {
    let garbage: Vec<u8> = vec![0x13, 0x37, 0x00, 0xff, 0x42, 0x99, 0x10, 0x01];
    match decode_frame(&garbage) {
        Err(e) => assert_eq!(e, CaptureError::DecodeFailed),
        Ok(_) => panic!("garbage bytes must not decode"),
    }
}

#[test]
fn truncated_image_is_a_decode_failure() {
    let encoded = encode_png(2, 1, vec![255, 0, 0, 255, 0, 0, 255, 255]);
    let truncated = &encoded[..12];
    match decode_frame(truncated) {
        Err(e) => assert_eq!(e, CaptureError::DecodeFailed),
        Ok(_) => panic!("a truncated image must not decode"),
    }
}

#[test]
fn two_pixel_red_then_blue_round_trip() {
    // A 2-by-1 image, red then blue, through a lossless encoding: the
    // decoded pixel bytes must come back exactly.
    let rgba: Vec<u8> = vec![255, 0, 0, 255, 0, 0, 255, 255];
    let encoded = encode_png(2, 1, rgba.clone());
    // The encoded form differs from the raw pixels, so an identity decoder
    // could not pass this test.
    assert_ne!(encoded, rgba);
    let frame = decode_frame(&encoded).expect("valid PNG decodes");
    assert_eq!(frame.width, 2);
    assert_eq!(frame.height, 1);
    assert_eq!(frame.pixels, vec![255, 0, 0, 255, 0, 0, 255, 255]);
}
