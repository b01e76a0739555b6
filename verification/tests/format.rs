use camframe::format::{negotiate_format, CaptureFormat, CaptureSession, FourCc};
use camframe::CaptureError;

fn yuyv() -> FourCc {
    FourCc::from_tag(b"YUYV")
}

#[test]
fn fourcc_packs_first_character_lowest() {
    let f = FourCc::from_tag(b"YUYV");
    assert_eq!(
        f.code,
        0x59 + 0x55 * 0x100 + 0x59 * 0x1_0000 + 0x56 * 0x100_0000
    );
    assert_eq!(f.code, 0x5659_5559);
}

#[test]
fn unsupported_request_yields_device_size() {
    // The device only offers 640x480; requesting 1280x720 must come back
    // with the device's actual size, not the requested one.
    let supported = vec![CaptureFormat { width: 640, height: 480, fourcc: yuyv() }];
    let requested = CaptureFormat { width: 1280, height: 720, fourcc: yuyv() };
    let granted = negotiate_format(&supported, &requested).expect("device offers a format");
    assert_eq!(granted.width, 640);
    assert_eq!(granted.height, 480);
    assert_ne!(granted, requested);
}

#[test]
fn session_reads_back_actual_format() {
    let supported = vec![CaptureFormat { width: 640, height: 480, fourcc: yuyv() }];
    let requested = CaptureFormat { width: 1280, height: 720, fourcc: yuyv() };
    let session =
        CaptureSession::open(true, &supported, &requested).expect("device offers a format");
    let actual = session.format();
    assert_eq!(actual, supported[0]);
    assert_ne!(actual, requested);
}

#[test]
fn supported_request_is_honored() {
    let wanted = CaptureFormat { width: 1280, height: 720, fourcc: yuyv() };
    let supported = vec![
        CaptureFormat { width: 640, height: 480, fourcc: yuyv() },
        wanted,
    ];
    let granted = negotiate_format(&supported, &wanted).expect("device offers a format");
    assert_eq!(granted, wanted);
}

#[test]
fn no_supported_format_fails_negotiation() {
    let supported: Vec<CaptureFormat> = Vec::new();
    let requested = CaptureFormat { width: 1280, height: 720, fourcc: yuyv() };
    match negotiate_format(&supported, &requested) {
        Err(e) => assert_eq!(e, CaptureError::NegotiationFailed),
        Ok(_) => panic!("a device without formats must not negotiate"),
    }
}

#[test]
fn missing_device_is_its_own_failure() {
    let supported = vec![CaptureFormat { width: 640, height: 480, fourcc: yuyv() }];
    let requested = CaptureFormat { width: 640, height: 480, fourcc: yuyv() };
    match CaptureSession::open(false, &supported, &requested) {
        Err(e) => assert_eq!(e, CaptureError::DeviceNotFound),
        Ok(_) => panic!("no session without a device"),
    }
}
