use kinect::error::{
    CreateImageError, DeviceGetCalibrationError, DeviceGetCaptureError, DeviceOpenError,
    DeviceStartCamerasError,
};

#[test]
fn open_error_text() {
    assert_eq!(DeviceOpenError { error_code: 1 }.describe(), "DeviceOpenError (code: 1)");
    assert_eq!(DeviceOpenError { error_code: -12 }.describe(), "DeviceOpenError (code: -12)");
}

#[test]
fn start_cameras_error_text() {
    assert_eq!(
        DeviceStartCamerasError { error_code: 0 }.describe(),
        "DeviceStartCamerasError (code: 0)"
    );
}

#[test]
fn create_image_error_text() {
    assert_eq!(
        CreateImageError { error_code: i32::MIN }.describe(),
        "CreateImageError (code: -2147483648)"
    );
    assert_eq!(
        CreateImageError { error_code: i32::MAX }.describe(),
        "CreateImageError (code: 2147483647)"
    );
}

#[test]
fn calibration_error_text() {
    assert_eq!(
        DeviceGetCalibrationError::FailedError.describe(),
        "DeviceGetCalibrationError::FailedError"
    );
    assert_eq!(
        DeviceGetCalibrationError::UnexpectedError(42).describe(),
        "DeviceGetCalibrationError::UnexpectedError (code: 42)"
    );
}

#[test]
fn capture_error_text() {
    assert_eq!(
        DeviceGetCaptureError::TimeoutError { timeout_millis: 1000 }.describe(),
        "DeviceGetCaptureError::TimeoutError (timeout of 1000 millis elapsed)"
    );
    assert_eq!(DeviceGetCaptureError::FailedError.describe(), "DeviceGetCaptureError::FailedError");
    assert_eq!(
        DeviceGetCaptureError::UnexpectedError(305).describe(),
        "DeviceGetCaptureError::UnexpectedError (code: 305)"
    );
}
