//! The configuration that starts a device's cameras, and its named presets.

use vstd::prelude::*;
use crate::image_format::ImageFormat;

verus! {

/// `K4A_COLOR_RESOLUTION_OFF`: the color camera is off.
pub const COLOR_RESOLUTION_OFF: u32 = 0;
/// `K4A_COLOR_RESOLUTION_720P`: 1280 * 720.
pub const COLOR_RESOLUTION_720P: u32 = 1;
/// `K4A_COLOR_RESOLUTION_1080P`: 1920 * 1080.
pub const COLOR_RESOLUTION_1080P: u32 = 2;
/// `K4A_COLOR_RESOLUTION_1440P`: 2560 * 1440.
pub const COLOR_RESOLUTION_1440P: u32 = 3;
/// `K4A_COLOR_RESOLUTION_1536P`: 2048 * 1536.
pub const COLOR_RESOLUTION_1536P: u32 = 4;
/// `K4A_COLOR_RESOLUTION_2160P`: 3840 * 2160.
pub const COLOR_RESOLUTION_2160P: u32 = 5;
/// `K4A_COLOR_RESOLUTION_3072P`: 4096 * 3072.
pub const COLOR_RESOLUTION_3072P: u32 = 6;

/// `K4A_DEPTH_MODE_OFF`: the depth sensor is off.
pub const DEPTH_MODE_OFF: u32 = 0;
/// `K4A_DEPTH_MODE_NFOV_2X2BINNED`: depth at 320x288.
pub const DEPTH_MODE_NFOV_2X2BINNED: u32 = 1;
/// `K4A_DEPTH_MODE_NFOV_UNBINNED`: depth at 640x576.
pub const DEPTH_MODE_NFOV_UNBINNED: u32 = 2;
/// `K4A_DEPTH_MODE_WFOV_2X2BINNED`: depth at 512x512.
pub const DEPTH_MODE_WFOV_2X2BINNED: u32 = 3;
/// `K4A_DEPTH_MODE_WFOV_UNBINNED`: depth at 1024x1024.
pub const DEPTH_MODE_WFOV_UNBINNED: u32 = 4;
/// `K4A_DEPTH_MODE_PASSIVE_IR`: passive IR only, at 1024x1024.
pub const DEPTH_MODE_PASSIVE_IR: u32 = 5;

/// `K4A_FRAMES_PER_SECOND_5`.
pub const FRAMES_PER_SECOND_5: u32 = 0;
/// `K4A_FRAMES_PER_SECOND_15`.
pub const FRAMES_PER_SECOND_15: u32 = 1;
/// `K4A_FRAMES_PER_SECOND_30`.
pub const FRAMES_PER_SECOND_30: u32 = 2;

/// `K4A_WIRED_SYNC_MODE_STANDALONE`: neither sync jack is used.
pub const WIRED_SYNC_MODE_STANDALONE: u32 = 0;
/// `K4A_WIRED_SYNC_MODE_MASTER`: the 'Sync Out' jack drives other devices.
pub const WIRED_SYNC_MODE_MASTER: u32 = 1;
/// `K4A_WIRED_SYNC_MODE_SUBORDINATE`: the 'Sync In' jack drives this device.
pub const WIRED_SYNC_MODE_SUBORDINATE: u32 = 2;

/// The operating parameters handed to the native `k4a_device_start_cameras`,
/// field for field.
#[derive(Clone, Copy, Debug, PartialEq, Eq, Structural)]
pub struct DeviceConfiguration {
    pub color_format: ImageFormat,
    pub color_resolution: u32,
    pub depth_mode: u32,
    pub camera_fps: u32,
    pub synchronized_images_only: bool,
    pub depth_delay_off_color_usec: i32,
    pub wired_sync_mode: u32,
    pub subordinate_delay_off_master_usec: u32,
    pub disable_streaming_indicator: bool,
}

impl DeviceConfiguration {
    /// The configuration used when none is chosen: MJPEG color at 720p,
    /// wide-field 2x2-binned depth, the frame rate left at its zero code, and
    /// every synchronization and timing field zeroed or off.
    pub open spec fn spec_new() -> DeviceConfiguration {
        DeviceConfiguration {
            color_format: ImageFormat::ColorMjpg,
            color_resolution: COLOR_RESOLUTION_720P,
            depth_mode: DEPTH_MODE_WFOV_2X2BINNED,
            camera_fps: 0,
            synchronized_images_only: false,
            depth_delay_off_color_usec: 0,
            wired_sync_mode: 0,
            subordinate_delay_off_master_usec: 0,
            disable_streaming_indicator: false,
        }
    }

    /// The configuration with every sensor off: color and depth off, 30 frames
    /// per second, standalone wired sync.
    pub open spec fn spec_init_disable_all() -> DeviceConfiguration {
        DeviceConfiguration {
            color_format: ImageFormat::ColorMjpg,
            color_resolution: COLOR_RESOLUTION_OFF,
            depth_mode: DEPTH_MODE_OFF,
            camera_fps: FRAMES_PER_SECOND_30,
            synchronized_images_only: false,
            depth_delay_off_color_usec: 0,
            wired_sync_mode: WIRED_SYNC_MODE_STANDALONE,
            subordinate_delay_off_master_usec: 0,
            disable_streaming_indicator: false,
        }
    }

    /// The configuration that starting the cameras with defaults uses: BGRA32
    /// color at 2160p, narrow-field unbinned depth, 30 frames per second, and
    /// the other fields as in `spec_new`.
    pub open spec fn spec_default_start() -> DeviceConfiguration {
        DeviceConfiguration {
            color_format: ImageFormat::ColorBgra32,
            color_resolution: COLOR_RESOLUTION_2160P,
            depth_mode: DEPTH_MODE_NFOV_UNBINNED,
            camera_fps: FRAMES_PER_SECOND_30,
            ..Self::spec_new()
        }
    }

    pub fn new() -> (c: Self)
        ensures
            c == Self::spec_new(),
    {
        DeviceConfiguration {
            color_format: ImageFormat::ColorMjpg,
            color_resolution: COLOR_RESOLUTION_720P,
            depth_mode: DEPTH_MODE_WFOV_2X2BINNED,
            camera_fps: 0,
            synchronized_images_only: false,
            depth_delay_off_color_usec: 0,
            wired_sync_mode: 0,
            subordinate_delay_off_master_usec: 0,
            disable_streaming_indicator: false,
        }
    }

    /// Returns a configuration with everything disabled, the same as the SDK's
    /// constant `K4A_DEVICE_CONFIG_INIT_DISABLE_ALL`.
    pub fn init_disable_all() -> (c: Self)
        ensures
            c == Self::spec_init_disable_all(),
    {
        DeviceConfiguration {
            color_format: ImageFormat::ColorMjpg,
            color_resolution: COLOR_RESOLUTION_OFF,
            depth_mode: DEPTH_MODE_OFF,
            camera_fps: FRAMES_PER_SECOND_30,
            synchronized_images_only: false,
            depth_delay_off_color_usec: 0,
            wired_sync_mode: WIRED_SYNC_MODE_STANDALONE,
            subordinate_delay_off_master_usec: 0,
            disable_streaming_indicator: false,
        }
    }

    /// The configuration that starting the cameras with defaults uses.
    ///
    /// Although the color camera does not produce BGRA32 natively and the
    /// conversion costs CPU, it is the one color format that a 3D view of
    /// the depth and color data can use.
    pub fn default_start() -> (c: Self)
        ensures
            c == Self::spec_default_start(),
    {
        let mut c = Self::new();
        c.color_format = ImageFormat::ColorBgra32;
        c.color_resolution = COLOR_RESOLUTION_2160P;
        c.depth_mode = DEPTH_MODE_NFOV_UNBINNED;
        c.camera_fps = FRAMES_PER_SECOND_30;
        c
    }
}

/// The three presets are pairwise distinct.
pub proof fn lemma_presets_distinct()
    ensures
        DeviceConfiguration::spec_new() != DeviceConfiguration::spec_init_disable_all(),
        DeviceConfiguration::spec_new() != DeviceConfiguration::spec_default_start(),
        DeviceConfiguration::spec_init_disable_all() != DeviceConfiguration::spec_default_start(),
{
}

} // verus!
