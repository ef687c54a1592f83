//! High-level, verified core of a binding to the Azure Kinect sensor SDK.
//!
//! The library holds everything of the binding that can be stated and proved
//! over plain values: the image-format encoding, the mapping of native
//! status codes onto typed errors, the serial-number query protocol, the
//! device-configuration presets, the calibration value, and the
//! reference-counting discipline of shared native handles.

use vstd::prelude::*;

pub mod image_format;
mod text;
pub mod error;
pub mod status;
pub mod serial;
pub mod device_configuration;
pub mod calibration;
pub mod refcount;

pub use image_format::{ImageFormat, UNKNOWN_FORMAT_CODE};
pub use device_configuration::DeviceConfiguration;
pub use calibration::Calibration;

verus! {

/// A library error
#[allow(inconsistent_fields)]
#[derive(Debug, Clone, Copy, PartialEq, Eq, Structural)]
pub enum KinectError {
    UnableToOpen { error_code: u32 },
    UnableToGetSerialNumber,
    UnableToStartCameras { error_code: u32 },
    UnableToCreateImage { error_code: u32 },
    UnableToGetSyncJackStatus { error_code: i32 },
}

/// Synchronization jack status.
#[derive(Debug, Copy, Clone, PartialEq, Eq, Structural)]
pub struct SynchronizationJackStatus {
    pub sync_in_jack_connected: bool,
    pub sync_out_jack_connected: bool,
}

/// The width and height of a camera's image, in pixels.
#[derive(Clone, Copy, Debug, PartialEq, Eq, Structural)]
pub struct Resolution {
    pub width: i32,
    pub height: i32,
}

} // verus!
