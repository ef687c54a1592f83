use vstd::prelude::*;

verus! {

/// The pixel formats an image buffer of the SDK can hold.
#[derive(Debug, Clone, Copy, PartialEq, Eq, Structural)]
pub enum ImageFormat {
    ColorMjpg,
    ColorNv12,
    ColorYuy2,
    ColorBgra32,
    /// Depth image type DEPTH16.
    /// Each pixel of DEPTH16 data is two bytes of little endian unsigned depth data.
    /// The unit of the data is in millimeters from the origin of the camera.
    /// Stride indicates the length of each line in bytes and should be used to determine
    /// the start location of each line of the image in memory.
    Depth16,
    Ir16,
    Custom8,
    Custom16,
    Custom,
    /// Stands for any native code that names none of the formats above.
    UnknownFormatError,
}

/// The native code of `UnknownFormatError`, distinct from every code of a named format.
pub const UNKNOWN_FORMAT_CODE: u32 = 255;

/// The native integer code of a format.
pub open spec fn format_code(f: ImageFormat) -> u32 {
    match f {
        ImageFormat::ColorMjpg => 0,
        ImageFormat::ColorNv12 => 1,
        ImageFormat::ColorYuy2 => 2,
        ImageFormat::ColorBgra32 => 3,
        ImageFormat::Depth16 => 4,
        ImageFormat::Ir16 => 5,
        ImageFormat::Custom8 => 6,
        ImageFormat::Custom16 => 7,
        ImageFormat::Custom => 8,
        ImageFormat::UnknownFormatError => UNKNOWN_FORMAT_CODE,
    }
}

/// The format that a native integer code names.
pub open spec fn format_of_code(code: u32) -> ImageFormat {
    if code == 0 {
        ImageFormat::ColorMjpg
    } else if code == 1 {
        ImageFormat::ColorNv12
    } else if code == 2 {
        ImageFormat::ColorYuy2
    } else if code == 3 {
        ImageFormat::ColorBgra32
    } else if code == 4 {
        ImageFormat::Depth16
    } else if code == 5 {
        ImageFormat::Ir16
    } else if code == 6 {
        ImageFormat::Custom8
    } else if code == 7 {
        ImageFormat::Custom16
    } else if code == 8 {
        ImageFormat::Custom
    } else {
        ImageFormat::UnknownFormatError
    }
}

impl ImageFormat {
    /// The native integer code of this format.
    pub fn to_k4a(&self) -> (code: u32)
        ensures
            code == format_code(*self),
    {
        match self {
            ImageFormat::ColorMjpg => 0,
            ImageFormat::ColorNv12 => 1,
            ImageFormat::ColorYuy2 => 2,
            ImageFormat::ColorBgra32 => 3,
            ImageFormat::Depth16 => 4,
            ImageFormat::Ir16 => 5,
            ImageFormat::Custom8 => 6,
            ImageFormat::Custom16 => 7,
            ImageFormat::Custom => 8,
            ImageFormat::UnknownFormatError => UNKNOWN_FORMAT_CODE,
        }
    }
}

impl From<u32> for ImageFormat {
    /// The format that a native integer code names; `UnknownFormatError` for
    /// any code outside `0..=8`.
    fn from(code: u32) -> (f: ImageFormat) {
        match code {
            0 => ImageFormat::ColorMjpg,
            1 => ImageFormat::ColorNv12,
            2 => ImageFormat::ColorYuy2,
            3 => ImageFormat::ColorBgra32,
            4 => ImageFormat::Depth16,
            5 => ImageFormat::Ir16,
            6 => ImageFormat::Custom8,
            7 => ImageFormat::Custom16,
            8 => ImageFormat::Custom,
            _ => ImageFormat::UnknownFormatError,
        }
    }
}

impl vstd::std_specs::convert::FromSpecImpl<u32> for ImageFormat {
    open spec fn obeys_from_spec() -> bool {
        true
    }

    open spec fn from_spec(code: u32) -> ImageFormat {
        format_of_code(code)
    }
}

/// Encoding a named format to its native code and decoding that code gives
/// the format back.
pub proof fn lemma_format_round_trip(f: ImageFormat)
    requires
        f != ImageFormat::UnknownFormatError,
    ensures
        format_of_code(format_code(f)) == f,
        format_code(f) <= 8,
{
}

/// Decoding any code outside `0..=8` gives the unknown-format sentinel, and
/// decoding a code inside it and encoding the result gives the code back.
pub proof fn lemma_code_round_trip(code: u32)
    ensures
        code > 8 ==> format_of_code(code) == ImageFormat::UnknownFormatError,
        code <= 8 ==> format_code(format_of_code(code)) == code,
{
}

} // verus!
