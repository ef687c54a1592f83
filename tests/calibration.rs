use kinect::calibration::{CameraCalibration, Extrinsics};
use kinect::{Calibration, Resolution};

fn zero_extrinsics() -> Extrinsics {
    Extrinsics { rotation: [0; 9], translation: [0; 3] }
}

#[test]
fn zero_calibration_has_zero_resolutions() {
    let c = Calibration::default();
    assert_eq!(c.color_camera_resolution_width(), 0);
    assert_eq!(c.color_camera_resolution_height(), 0);
    assert_eq!(c.depth_camera_resolution_width(), 0);
    assert_eq!(c.depth_camera_resolution_height(), 0);
}

#[test]
fn zero_calibration_is_all_zero() {
    let c = Calibration::default();
    assert_eq!(c.depth_mode, 0);
    assert_eq!(c.color_resolution, 0);
    for row in c.extrinsics.iter() {
        for e in row.iter() {
            assert_eq!(*e, zero_extrinsics());
        }
    }
    for cam in [c.depth_camera_calibration, c.color_camera_calibration] {
        assert_eq!(cam.extrinsics, zero_extrinsics());
        assert_eq!(cam.metric_radius, 0);
        assert_eq!(cam.intrinsics.model_type, 0);
        assert_eq!(cam.intrinsics.parameter_count, 0);
        assert_eq!(cam.intrinsics.parameters.cx, 0);
        assert_eq!(cam.intrinsics.parameters.metric_radius, 0);
        assert_eq!(f32::from_bits(cam.intrinsics.parameters.fx), 0.0f32);
    }
}

fn with_resolutions(color: (i32, i32), depth: (i32, i32)) -> Calibration {
    let mut c = Calibration::default();
    let set = |cam: &mut CameraCalibration, (w, h): (i32, i32)| {
        cam.resolution_width = w;
        cam.resolution_height = h;
    };
    set(&mut c.color_camera_calibration, color);
    set(&mut c.depth_camera_calibration, depth);
    c
}

#[test]
fn accessors_read_each_camera() {
    let c = with_resolutions((3840, 2160), (640, 576));
    assert_eq!(c.color_camera_resolution_width(), 3840);
    assert_eq!(c.color_camera_resolution_height(), 2160);
    assert_eq!(c.depth_camera_resolution_width(), 640);
    assert_eq!(c.depth_camera_resolution_height(), 576);
    assert_eq!(c.color_resolution_pair(), Resolution { width: 3840, height: 2160 });
    assert_eq!(c.depth_resolution_pair(), Resolution { width: 640, height: 576 });
}

#[test]
fn copies_are_independent() {
    let a = with_resolutions((1280, 720), (512, 512));
    let mut b = a;
    b.color_camera_calibration.resolution_width = 1920;
    assert_eq!(a.color_camera_resolution_width(), 1280);
    assert_eq!(b.color_camera_resolution_width(), 1920);
}
