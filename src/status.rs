//! The native status codes of the SDK and their mapping onto the
//! library's typed outcomes, one function per operation family.
//!
//! Every native call reports a status; the caller hands that status to the
//! function of its family here and gets back `Ok` or the typed error.

use vstd::prelude::*;
use crate::error::{
    CreateImageError, DeviceGetCalibrationError, DeviceGetCaptureError, DeviceOpenError,
    DeviceStartCamerasError,
};
use crate::{KinectError, SynchronizationJackStatus};

verus! {

/// `K4A_RESULT_SUCCEEDED`: the call succeeded.
pub const RESULT_SUCCEEDED: u32 = 0;
/// `K4A_RESULT_FAILED`: the call failed.
pub const RESULT_FAILED: u32 = 1;

/// `K4A_BUFFER_RESULT_SUCCEEDED`: the buffer was filled.
pub const BUFFER_RESULT_SUCCEEDED: u32 = 0;
/// `K4A_BUFFER_RESULT_FAILED`: the call failed.
pub const BUFFER_RESULT_FAILED: u32 = 1;
/// `K4A_BUFFER_RESULT_TOO_SMALL`: the buffer given was too small; the length
/// needed was reported.
pub const BUFFER_RESULT_TOO_SMALL: u32 = 2;

/// `K4A_WAIT_RESULT_SUCCEEDED`: a capture was handed out.
pub const WAIT_RESULT_SUCCEEDED: u32 = 0;
/// `K4A_WAIT_RESULT_FAILED`: the device failed.
pub const WAIT_RESULT_FAILED: u32 = 1;
/// `K4A_WAIT_RESULT_TIMEOUT`: no capture came within the timeout.
pub const WAIT_RESULT_TIMEOUT: u32 = 2;

/// The signed error code that carries a native status: the same 32 bits.
pub open spec fn signed_code(status: u32) -> i32 {
    status as i32
}

fn to_signed(status: u32) -> (r: i32)
    ensures
        r == signed_code(status),
{
    #[verifier::truncate]
    (status as i32)
}

/// The outcome of `k4a_device_open`: success, or a `DeviceOpenError` that
/// carries the native status.
pub fn open_result(status: u32) -> (r: Result<(), DeviceOpenError>)
    ensures
        status == RESULT_SUCCEEDED <==> r is Ok,
        status != RESULT_SUCCEEDED ==> r == Err::<(), _>(
            DeviceOpenError { error_code: signed_code(status) },
        ),
{
    if status != RESULT_SUCCEEDED {
        return Err(DeviceOpenError { error_code: to_signed(status) });
    }
    Ok(())
}

/// The outcome of `k4a_device_start_cameras`: success, or a
/// `DeviceStartCamerasError` that carries the native status.
pub fn start_cameras_result(status: u32) -> (r: Result<(), DeviceStartCamerasError>)
    ensures
        status == RESULT_SUCCEEDED <==> r is Ok,
        status != RESULT_SUCCEEDED ==> r == Err::<(), _>(
            DeviceStartCamerasError { error_code: signed_code(status) },
        ),
{
    if status != RESULT_SUCCEEDED {
        return Err(DeviceStartCamerasError { error_code: to_signed(status) });
    }
    Ok(())
}

/// The outcome of `k4a_image_create`: success, or a `CreateImageError` that
/// carries the native status.
pub fn create_image_result(status: u32) -> (r: Result<(), CreateImageError>)
    ensures
        status == RESULT_SUCCEEDED <==> r is Ok,
        status != RESULT_SUCCEEDED ==> r == Err::<(), _>(
            CreateImageError { error_code: signed_code(status) },
        ),
{
    if status != RESULT_SUCCEEDED {
        return Err(CreateImageError { error_code: to_signed(status) });
    }
    Ok(())
}

/// The outcome of `k4a_device_get_sync_jack`, given its status and the two
/// flags it wrote: both flags on success, else the native status.
pub fn sync_jack_result(status: u32, sync_in: bool, sync_out: bool) -> (r: Result<
    SynchronizationJackStatus,
    KinectError,
>)
    ensures
        status == RESULT_SUCCEEDED ==> r == Ok::<_, KinectError>(
            SynchronizationJackStatus {
                sync_in_jack_connected: sync_in,
                sync_out_jack_connected: sync_out,
            },
        ),
        status != RESULT_SUCCEEDED ==> r == Err::<SynchronizationJackStatus, _>(
            KinectError::UnableToGetSyncJackStatus { error_code: signed_code(status) },
        ),
{
    if status != RESULT_SUCCEEDED {
        return Err(KinectError::UnableToGetSyncJackStatus { error_code: to_signed(status) });
    }
    Ok(SynchronizationJackStatus {
        sync_in_jack_connected: sync_in,
        sync_out_jack_connected: sync_out,
    })
}

/// The outcome of `k4a_device_get_capture` that was called with `timeout_ms`:
/// success, a timeout that carries the timeout asked for, a device failure,
/// or any other status as an unexpected code.
pub fn capture_result(status: u32, timeout_ms: i32) -> (r: Result<(), DeviceGetCaptureError>)
    ensures
        status == WAIT_RESULT_SUCCEEDED <==> r is Ok,
        status == WAIT_RESULT_TIMEOUT ==> r == Err::<(), _>(
            DeviceGetCaptureError::TimeoutError { timeout_millis: timeout_ms },
        ),
        status == WAIT_RESULT_FAILED ==> r == Err::<(), _>(DeviceGetCaptureError::FailedError),
        status > WAIT_RESULT_TIMEOUT ==> r == Err::<(), _>(
            DeviceGetCaptureError::UnexpectedError(signed_code(status)),
        ),
{
    if status == WAIT_RESULT_SUCCEEDED {
        Ok(())
    } else if status == WAIT_RESULT_TIMEOUT {
        Err(DeviceGetCaptureError::TimeoutError { timeout_millis: timeout_ms })
    } else if status == WAIT_RESULT_FAILED {
        Err(DeviceGetCaptureError::FailedError)
    } else {
        Err(DeviceGetCaptureError::UnexpectedError(to_signed(status)))
    }
}

/// The outcome of `k4a_device_get_calibration`: success, a failure, or any
/// other status as an unexpected code. The calibration that the call wrote is
/// to be read only when this is `Ok`.
pub fn calibration_result(status: u32) -> (r: Result<(), DeviceGetCalibrationError>)
    ensures
        status == RESULT_SUCCEEDED <==> r is Ok,
        status == RESULT_FAILED ==> r == Err::<(), _>(DeviceGetCalibrationError::FailedError),
        status > RESULT_FAILED ==> r == Err::<(), _>(
            DeviceGetCalibrationError::UnexpectedError(signed_code(status)),
        ),
{
    if status == RESULT_SUCCEEDED {
        Ok(())
    } else if status == RESULT_FAILED {
        Err(DeviceGetCalibrationError::FailedError)
    } else {
        Err(DeviceGetCalibrationError::UnexpectedError(to_signed(status)))
    }
}

} // verus!
