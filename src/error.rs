//! Typed errors of the device, capture and image operations.
//!
//! Each one carries the native status code where the failure is not a fixed
//! condition. Each has a `describe` method that gives its text.

use vstd::prelude::*;
use vstd::string::StringExecFns;
use crate::text::{decimal, push_decimal};

verus! {

/// Text made of a prefix, the decimal form of a code, and a closing `)`.
fn text_with_code(prefix: &str, code: i32) -> (r: String)
    ensures
        r@ == prefix@ + decimal(code as int) + ")"@,
{
    let mut s = String::from_str(prefix);
    push_decimal(&mut s, code);
    s.append(")");
    s
}

/// Represents errors creating images with `k4a_image_create`.
#[derive(Copy, Clone, Debug, PartialEq, Eq, Structural)]
pub struct CreateImageError {
    /// The error code returned by libk4a.
    pub error_code: i32,
}

impl CreateImageError {
    pub open spec fn spec_describe(self) -> Seq<char> {
        "CreateImageError (code: "@ + decimal(self.error_code as int) + ")"@
    }

    /// The text of this error.
    pub fn describe(&self) -> (r: String)
        ensures
            r@ == self.spec_describe(),
    {
        text_with_code("CreateImageError (code: ", self.error_code)
    }
}

/// Represents errors getting the calibration with `k4a_device_get_calibration`.
#[derive(Copy, Clone, Debug, PartialEq, Eq, Structural)]
pub enum DeviceGetCalibrationError {
    /// Failed to get device calibration.
    FailedError,
    /// Unexpected error code returned by libk4a.
    UnexpectedError(i32),
}

impl DeviceGetCalibrationError {
    pub open spec fn spec_describe(self) -> Seq<char> {
        match self {
            DeviceGetCalibrationError::FailedError => "DeviceGetCalibrationError::FailedError"@,
            DeviceGetCalibrationError::UnexpectedError(code) =>
                "DeviceGetCalibrationError::UnexpectedError (code: "@ + decimal(code as int) + ")"@,
        }
    }

    /// The text of this error.
    pub fn describe(&self) -> (r: String)
        ensures
            r@ == self.spec_describe(),
    {
        match self {
            DeviceGetCalibrationError::FailedError =>
                String::from_str("DeviceGetCalibrationError::FailedError"),
            DeviceGetCalibrationError::UnexpectedError(code) =>
                text_with_code("DeviceGetCalibrationError::UnexpectedError (code: ", *code),
        }
    }
}

/// Represents errors getting a capture with `k4a_device_get_capture`.
#[derive(Copy, Clone, Debug, PartialEq, Eq, Structural)]
pub enum DeviceGetCaptureError {
    /// It took too long to get the capture, and our timeout elapsed.
    /// Error contains the timeout threshold that was asked for (not the time elapsed).
    TimeoutError { timeout_millis: i32 },
    /// There was a failure in getting the capture
    FailedError,
    /// Unexpected error code returned by libk4a
    UnexpectedError(i32),
}

impl DeviceGetCaptureError {
    pub open spec fn spec_describe(self) -> Seq<char> {
        match self {
            DeviceGetCaptureError::TimeoutError { timeout_millis } =>
                "DeviceGetCaptureError::TimeoutError (timeout of "@ + decimal(timeout_millis as int)
                    + " millis elapsed)"@,
            DeviceGetCaptureError::FailedError => "DeviceGetCaptureError::FailedError"@,
            DeviceGetCaptureError::UnexpectedError(code) =>
                "DeviceGetCaptureError::UnexpectedError (code: "@ + decimal(code as int) + ")"@,
        }
    }

    /// The text of this error.
    pub fn describe(&self) -> (r: String)
        ensures
            r@ == self.spec_describe(),
    {
        match self {
            DeviceGetCaptureError::TimeoutError { timeout_millis } => {
                let mut s = String::from_str("DeviceGetCaptureError::TimeoutError (timeout of ");
                push_decimal(&mut s, *timeout_millis);
                s.append(" millis elapsed)");
                s
            },
            DeviceGetCaptureError::FailedError =>
                String::from_str("DeviceGetCaptureError::FailedError"),
            DeviceGetCaptureError::UnexpectedError(code) =>
                text_with_code("DeviceGetCaptureError::UnexpectedError (code: ", *code),
        }
    }
}

/// Represents errors opening devices with `k4a_device_open`.
#[derive(Copy, Clone, Debug, PartialEq, Eq, Structural)]
pub struct DeviceOpenError {
    pub error_code: i32,
}

impl DeviceOpenError {
    pub open spec fn spec_describe(self) -> Seq<char> {
        "DeviceOpenError (code: "@ + decimal(self.error_code as int) + ")"@
    }

    /// The text of this error.
    pub fn describe(&self) -> (r: String)
        ensures
            r@ == self.spec_describe(),
    {
        text_with_code("DeviceOpenError (code: ", self.error_code)
    }
}

/// Represents errors starting the cameras with `k4a_device_start_cameras`.
#[derive(Copy, Clone, Debug, PartialEq, Eq, Structural)]
pub struct DeviceStartCamerasError {
    /// The error code returned by libk4a.
    pub error_code: i32,
}

impl DeviceStartCamerasError {
    pub open spec fn spec_describe(self) -> Seq<char> {
        "DeviceStartCamerasError (code: "@ + decimal(self.error_code as int) + ")"@
    }

    /// The text of this error.
    pub fn describe(&self) -> (r: String)
        ensures
            r@ == self.spec_describe(),
    {
        text_with_code("DeviceStartCamerasError (code: ", self.error_code)
    }
}

} // verus!
