//! The calibration of a device: a plain value, copied out of the SDK.
//!
//! The SDK stores every metric quantity of a calibration as an `f32`. This
//! value holds each of them as its IEEE-754 bit pattern (`f32::to_bits`), so
//! that the value converts to and from the native layout with no loss; the
//! zero pattern is `0.0`.

use vstd::prelude::*;
use crate::Resolution;

verus! {

/// A rotation (3x3, row major) and a translation (3) between two reference
/// frames, as `f32` bit patterns.
#[derive(Clone, Copy, Debug, PartialEq, Eq)]
pub struct Extrinsics {
    pub rotation: [u32; 9],
    pub translation: [u32; 3],
}

/// The named coefficients of an intrinsic camera model, as `f32` bit
/// patterns. The native union holds them or the same fifteen values as an
/// array; this is always read as the named record.
#[derive(Clone, Copy, Debug, PartialEq, Eq, Structural)]
pub struct IntrinsicParameters {
    pub cx: u32,
    pub cy: u32,
    pub fx: u32,
    pub fy: u32,
    pub k1: u32,
    pub k2: u32,
    pub k3: u32,
    pub k4: u32,
    pub k5: u32,
    pub k6: u32,
    pub codx: u32,
    pub cody: u32,
    pub p2: u32,
    pub p1: u32,
    pub metric_radius: u32,
}

/// The intrinsic calibration of a camera.
#[derive(Clone, Copy, Debug, PartialEq, Eq, Structural)]
pub struct Intrinsics {
    /// The native code of the calibration model.
    pub model_type: u32,
    /// How many of the parameters are valid.
    pub parameter_count: u32,
    pub parameters: IntrinsicParameters,
}

/// The calibration of one camera: its extrinsics and intrinsics, the
/// resolution they were obtained for, and the metric radius of its field of
/// view (as an `f32` bit pattern).
#[derive(Clone, Copy, Debug, PartialEq, Eq)]
pub struct CameraCalibration {
    pub extrinsics: Extrinsics,
    pub intrinsics: Intrinsics,
    pub resolution_width: i32,
    pub resolution_height: i32,
    pub metric_radius: u32,
}

/// The calibration of a whole device: its depth and color cameras, the
/// extrinsics between every pair of its four reference frames (depth,
/// color, gyroscope, accelerometer), and the depth mode and color
/// resolution it was obtained for.
#[derive(Clone, Copy, Debug, PartialEq, Eq)]
pub struct Calibration {
    pub depth_camera_calibration: CameraCalibration,
    pub color_camera_calibration: CameraCalibration,
    pub extrinsics: [[Extrinsics; 4]; 4],
    pub depth_mode: u32,
    pub color_resolution: u32,
}

impl Extrinsics {
    pub open spec fn is_zero(self) -> bool {
        &&& forall|i: int| 0 <= i < 9 ==> #[trigger] self.rotation@[i] == 0
        &&& forall|i: int| 0 <= i < 3 ==> #[trigger] self.translation@[i] == 0
    }

    fn zero() -> (e: Self)
        ensures
            e.is_zero(),
    {
        Extrinsics { rotation: [0, 0, 0, 0, 0, 0, 0, 0, 0], translation: [0, 0, 0] }
    }
}

impl IntrinsicParameters {
    pub open spec fn is_zero(self) -> bool {
        self == IntrinsicParameters {
            cx: 0,
            cy: 0,
            fx: 0,
            fy: 0,
            k1: 0,
            k2: 0,
            k3: 0,
            k4: 0,
            k5: 0,
            k6: 0,
            codx: 0,
            cody: 0,
            p2: 0,
            p1: 0,
            metric_radius: 0,
        }
    }
}

impl CameraCalibration {
    pub open spec fn is_zero(self) -> bool {
        &&& self.extrinsics.is_zero()
        &&& self.intrinsics.model_type == 0
        &&& self.intrinsics.parameter_count == 0
        &&& self.intrinsics.parameters.is_zero()
        &&& self.resolution_width == 0
        &&& self.resolution_height == 0
        &&& self.metric_radius == 0
    }

    fn zero() -> (c: Self)
        ensures
            c.is_zero(),
    {
        CameraCalibration {
            extrinsics: Extrinsics::zero(),
            intrinsics: Intrinsics {
                model_type: 0,
                parameter_count: 0,
                parameters: IntrinsicParameters {
                    cx: 0,
                    cy: 0,
                    fx: 0,
                    fy: 0,
                    k1: 0,
                    k2: 0,
                    k3: 0,
                    k4: 0,
                    k5: 0,
                    k6: 0,
                    codx: 0,
                    cody: 0,
                    p2: 0,
                    p1: 0,
                    metric_radius: 0,
                },
            },
            resolution_width: 0,
            resolution_height: 0,
            metric_radius: 0,
        }
    }
}

impl Calibration {
    /// Every number of the calibration is zero.
    pub open spec fn is_zero(self) -> bool {
        &&& self.depth_camera_calibration.is_zero()
        &&& self.color_camera_calibration.is_zero()
        &&& forall|i: int, j: int|
            0 <= i < 4 && 0 <= j < 4 ==> (#[trigger] self.extrinsics@[i]@[j]).is_zero()
        &&& self.depth_mode == 0
        &&& self.color_resolution == 0
    }

    /// The all-zero calibration, a placeholder until a real one is fetched.
    pub fn default() -> (c: Self)
        ensures
            c.is_zero(),
            c.color_camera_calibration.resolution_width == 0,
            c.color_camera_calibration.resolution_height == 0,
            c.depth_camera_calibration.resolution_width == 0,
            c.depth_camera_calibration.resolution_height == 0,
    {
        let e = Extrinsics::zero();
        let row = [e, e, e, e];
        let camera = CameraCalibration::zero();
        let c = Calibration {
            depth_camera_calibration: camera,
            color_camera_calibration: camera,
            extrinsics: [row, row, row, row],
            depth_mode: 0,
            color_resolution: 0,
        };
        assert forall|i: int, j: int| 0 <= i < 4 && 0 <= j < 4 implies (
        #[trigger] c.extrinsics@[i]@[j]).is_zero() by {
            assert(c.extrinsics@[i] == row);
            assert(row@[j] == e);
        }
        c
    }

    /// Return the Calibration's color camera resolution width.
    pub fn color_camera_resolution_width(&self) -> (w: i32)
        ensures
            w == self.color_camera_calibration.resolution_width,
    {
        self.color_camera_calibration.resolution_width
    }

    /// Return the Calibration's color camera resolution height.
    pub fn color_camera_resolution_height(&self) -> (h: i32)
        ensures
            h == self.color_camera_calibration.resolution_height,
    {
        self.color_camera_calibration.resolution_height
    }

    /// Return the Calibration's depth camera resolution width.
    pub fn depth_camera_resolution_width(&self) -> (w: i32)
        ensures
            w == self.depth_camera_calibration.resolution_width,
    {
        self.depth_camera_calibration.resolution_width
    }

    /// Return the Calibration's depth camera resolution height.
    pub fn depth_camera_resolution_height(&self) -> (h: i32)
        ensures
            h == self.depth_camera_calibration.resolution_height,
    {
        self.depth_camera_calibration.resolution_height
    }

    /// The color camera's resolution, as a transformation built from this
    /// calibration records it.
    pub fn color_resolution_pair(&self) -> (r: Resolution)
        ensures
            r.width == self.color_camera_calibration.resolution_width,
            r.height == self.color_camera_calibration.resolution_height,
    {
        Resolution {
            width: self.color_camera_calibration.resolution_width,
            height: self.color_camera_calibration.resolution_height,
        }
    }

    /// The depth camera's resolution, as a transformation built from this
    /// calibration records it.
    pub fn depth_resolution_pair(&self) -> (r: Resolution)
        ensures
            r.width == self.depth_camera_calibration.resolution_width,
            r.height == self.depth_camera_calibration.resolution_height,
    {
        Resolution {
            width: self.depth_camera_calibration.resolution_width,
            height: self.depth_camera_calibration.resolution_height,
        }
    }
}

} // verus!
