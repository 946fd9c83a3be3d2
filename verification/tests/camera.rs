use std::rc::Rc;

use stdvis::{
    control_int_value, frame_image, native_to_view, Camera, CameraConfig, CaptureError,
    ControlError, ControlSource, ControlValue, DeviceCamera, Image, MatImageData, OpenError,
    PixelBuffer, Pose, ScriptedSource, CID_EXPOSURE, CID_EXPOSURE_AUTO, EXPOSURE_MANUAL,
};

fn frame(width: u32, height: u32, channels: usize, fill: u8) -> PixelBuffer {
    let rows = height as usize;
    let cols = width as usize;
    let stride = cols * channels;
    PixelBuffer::new(rows, cols, channels, stride, vec![fill; rows * stride]).unwrap()
}

fn config_for(id: u8, width: u32, height: u32) -> CameraConfig {
    let mut config = CameraConfig::default();
    config.id = id;
    config.resolution = (width, height);
    config
}

#[test]
fn config_propagation() {
    let mut config = config_for(7, 640, 480);
    config.pose = Pose {
        angle: 1,
        dist: 2,
        height: 3,
        yaw: 4,
        pitch: 5,
        roll: 6,
    };
    let shared = Rc::new(config);
    let mut image = Image::new(42, shared.clone(), MatImageData::new(frame(640, 480, 3, 0)));

    assert_eq!(image.config().id, 7);
    assert_eq!(image.config().resolution, (640, 480));
    assert_eq!(image.config().pose, shared.pose);
    // the config is the very record the image was built with, by identity
    assert!(Rc::ptr_eq(&image.camera, &shared));
    // pixel accessors do not disturb it
    let _ = image.as_pixels();
    let _ = image.as_pixels_mut();
    let _ = image.as_raw();
    assert!(Rc::ptr_eq(&image.camera, &shared));
    assert_eq!(image.timestamp, 42);
}

#[test]
fn capture_failure_mapping() {
    let mut device = ScriptedSource::new((640, 480), 3, true);
    device.push_drop();
    device.push_frame(frame(640, 480, 3, 9)).unwrap();

    let mut camera = DeviceCamera::open(config_for(0, 640, 480), device).unwrap();

    // the dropped read surfaces as a recoverable failure ...
    let first = camera.grab_frame();
    assert!(matches!(first, Err(CaptureError::ReadFailed)));

    // ... and the camera stays usable: config kept, next grab succeeds
    assert_eq!(camera.config().resolution, (640, 480));
    let second = camera.grab_frame().unwrap();
    assert_eq!(second.config().resolution, (640, 480));
    assert_eq!(second.as_raw().sample(0, 0, 0), 9);
}

#[test]
fn end_to_end_scenario() {
    let mut device = ScriptedSource::new((640, 480), 3, true);
    device.push_frame(frame(640, 480, 3, 0)).unwrap();

    let mut camera = DeviceCamera::open(config_for(1, 640, 480), device).unwrap();
    let mut image = camera.grab_frame().unwrap();

    let pixels = image.as_pixels();
    assert_eq!(pixels.shape(), &vec![480, 640, 3]);
    assert_eq!(image.config().resolution, (640, 480));

    // mutate pixel (0, 0) to (255, 0, 0) through the mutable view
    let view = image.as_pixels_mut();
    let raw = image.as_raw_mut();
    view.set_sample(raw, 0, 0, 0, 255);
    view.set_sample(raw, 0, 0, 1, 0);
    view.set_sample(raw, 0, 0, 2, 0);

    // the native buffer reads (255, 0, 0) at (0, 0)
    let raw = image.as_raw();
    assert_eq!(raw.sample(0, 0, 0), 255);
    assert_eq!(raw.sample(0, 0, 1), 0);
    assert_eq!(raw.sample(0, 0, 2), 0);
}

#[test]
fn negotiated_resolution_stored() {
    // the device supports only 1280 x 720; 1920 x 1080 is requested
    let device = ScriptedSource::new((1280, 720), 3, true);
    let camera = DeviceCamera::open(config_for(2, 1920, 1080), device).unwrap();
    assert_eq!(camera.config().resolution, (1280, 720));
}

#[test]
fn frames_match_negotiated_resolution() {
    let mut device = ScriptedSource::new((1280, 720), 3, true);
    device.push_frame(frame(1280, 720, 3, 5)).unwrap();
    // a frame of the requested-but-unsupported size is refused
    assert!(device.push_frame(frame(1920, 1080, 3, 5)).is_err());

    let mut camera = DeviceCamera::open(config_for(2, 1920, 1080), device).unwrap();
    let image = camera.grab_frame().unwrap();
    let view = native_to_view(image.as_raw()).unwrap();
    assert_eq!(view.shape(), &vec![720, 1280, 3]);
}

#[test]
fn open_fails_when_absent() {
    let device = ScriptedSource::new((640, 480), 3, false);
    let r = DeviceCamera::open(config_for(3, 640, 480), device);
    assert!(matches!(r, Err(OpenError::NotFound)));
}

#[test]
fn open_fails_on_unsupported_format() {
    // a single-channel device cannot satisfy three-channel 8-bit capture
    let device = ScriptedSource::new((640, 480), 1, true);
    let r = DeviceCamera::open(config_for(4, 640, 480), device);
    assert!(matches!(r, Err(OpenError::Unsupported)));
}

#[test]
fn exhausted_device_reports_unavailable() {
    let device = ScriptedSource::new((640, 480), 3, true);
    let mut camera = DeviceCamera::open(config_for(5, 640, 480), device).unwrap();
    let r = camera.grab_frame();
    assert!(matches!(r, Err(CaptureError::DeviceUnavailable)));
}

#[test]
fn timestamps_follow_the_device_clock() {
    let mut device = ScriptedSource::new((4, 2), 3, true);
    device.push_frame(frame(4, 2, 3, 1)).unwrap();
    device.push_frame(frame(4, 2, 3, 2)).unwrap();
    let mut camera = DeviceCamera::open(config_for(6, 4, 2), device).unwrap();
    let first = camera.grab_frame().unwrap();
    let second = camera.grab_frame().unwrap();
    assert_eq!(first.timestamp, 0);
    assert_eq!(second.timestamp, 1);
}

#[test]
fn open_stores_the_measured_exposure() {
    // the device reports this exposure reading; the request carried 0
    let mut device = ScriptedSource::new((640, 480), 3, true);
    device.exposure_reading = 123;
    let camera = DeviceCamera::open(config_for(10, 640, 480), device).unwrap();
    assert_eq!(camera.config().exposure, 123);
}

#[test]
fn set_exposure_requests_manual_mode_then_value() {
    let device = ScriptedSource::new((640, 480), 3, true);
    let mut camera = DeviceCamera::open(config_for(12, 640, 480), device).unwrap();
    let before = camera.device.requests.len();
    camera.set_exposure(40).unwrap();
    assert_eq!(
        camera.device.requests[before..],
        [(CID_EXPOSURE_AUTO, EXPOSURE_MANUAL), (CID_EXPOSURE, 40)]
    );
}

#[test]
fn exposure_round_trip_through_controls() {
    let device = ScriptedSource::new((640, 480), 3, true);
    let mut camera = DeviceCamera::open(config_for(8, 640, 480), device).unwrap();

    camera.set_exposure(40).unwrap();
    assert_eq!(camera.exposure().unwrap(), 40);
    // setting exposure switched the device to manual mode first
    assert_eq!(camera.device.exposure_auto, EXPOSURE_MANUAL);
    // control traffic does not disturb capture configuration
    assert_eq!(camera.config().resolution, (640, 480));
}

#[test]
fn frame_wrapping_maps_outcomes_exactly() {
    let shared = Rc::new(config_for(9, 4, 2));
    let wrapped = frame_image(Ok(frame(4, 2, 3, 3)), 77, shared.clone()).unwrap();
    assert_eq!(wrapped.timestamp, 77);
    assert!(Rc::ptr_eq(&wrapped.camera, &shared));
    assert_eq!(wrapped.as_raw().sample(0, 0, 0), 3);

    let failed = frame_image(Err(CaptureError::ReadFailed), 77, shared.clone());
    assert!(matches!(failed, Err(CaptureError::ReadFailed)));
    let gone = frame_image(Err(CaptureError::DeviceUnavailable), 77, shared);
    assert!(matches!(gone, Err(CaptureError::DeviceUnavailable)));
}

#[test]
fn config_duplicate_agrees() {
    let mut config = config_for(11, 320, 240);
    config.intrinsic_matrix = (1..=9).collect();
    config.distortion_coeffs = (10..=14).collect();
    let copy = config.duplicate();
    assert_eq!(copy.id, config.id);
    assert_eq!(copy.resolution, config.resolution);
    assert_eq!(copy.pose, config.pose);
    assert_eq!(copy.intrinsic_matrix, config.intrinsic_matrix);
    assert_eq!(copy.distortion_coeffs, config.distortion_coeffs);
}

#[test]
fn unknown_controls_are_unsupported() {
    let mut device = ScriptedSource::new((640, 480), 3, true);
    device.exposure = 5;
    assert_eq!(device.get_control(CID_EXPOSURE), Ok(ControlValue::Value(5)));
    assert_eq!(
        device.get_control(0),
        Err(ControlError::UnsupportedControl)
    );
    assert_eq!(
        device.set_control(0, 1),
        Err(ControlError::UnsupportedControl)
    );
}

#[test]
fn control_value_mapping() {
    assert_eq!(control_int_value(Ok(ControlValue::Value(17))), Ok(17));
    assert_eq!(
        control_int_value(Ok(ControlValue::Other)),
        Err(ControlError::UnsupportedControl)
    );
    assert_eq!(
        control_int_value(Err(ControlError::DeviceBusy)),
        Err(ControlError::DeviceBusy)
    );
}
