use kinect::ImageFormat;
use kinect::UNKNOWN_FORMAT_CODE;

const NAMED: [ImageFormat; 9] = [
    ImageFormat::ColorMjpg,
    ImageFormat::ColorNv12,
    ImageFormat::ColorYuy2,
    ImageFormat::ColorBgra32,
    ImageFormat::Depth16,
    ImageFormat::Ir16,
    ImageFormat::Custom8,
    ImageFormat::Custom16,
    ImageFormat::Custom,
];

#[test]
fn named_formats_have_their_codes() {
    for (code, f) in NAMED.iter().enumerate() {
        assert_eq!(f.to_k4a(), code as u32);
    }
    assert_eq!(ImageFormat::ColorBgra32.to_k4a(), 3);
    assert_eq!(ImageFormat::Depth16.to_k4a(), 4);
}

#[test]
fn named_formats_round_trip() {
    for f in NAMED.iter() {
        assert_eq!(ImageFormat::from(f.to_k4a()), *f);
    }
}

#[test]
fn codes_round_trip() {
    for code in 0u32..=8 {
        assert_eq!(ImageFormat::from(code).to_k4a(), code);
    }
}

#[test]
fn codes_outside_the_named_range_are_unknown() {
    for code in [9u32, 10, 100, 254, 255, 256, u32::MAX] {
        assert_eq!(ImageFormat::from(code), ImageFormat::UnknownFormatError);
    }
}

#[test]
fn unknown_sentinel_differs_from_every_named_code() {
    assert_eq!(ImageFormat::UnknownFormatError.to_k4a(), UNKNOWN_FORMAT_CODE);
    for f in NAMED.iter() {
        assert_ne!(f.to_k4a(), UNKNOWN_FORMAT_CODE);
    }
    assert_eq!(ImageFormat::from(UNKNOWN_FORMAT_CODE), ImageFormat::UnknownFormatError);
}
