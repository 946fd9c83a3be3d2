//! Camera access and a uniform pixel-buffer abstraction for a vision
//! pipeline: cameras produce frames backed by a native matrix buffer, and a
//! conversion engine exposes those buffers as shape-and-stride described
//! pixel views over the same memory.

mod analysis;
mod buffer;
mod calibrate;
mod camera;
mod image;
mod sample;
mod types;
mod view;

pub use analysis::ContourAnalyzer;
pub use analysis::ContourExtractor;
pub use buffer::BufferDesc;
pub use buffer::PixelBuffer;
pub use buffer::ShapeError;
pub use calibrate::Calibrate;
pub use calibrate::MIN_CALIBRATION_IMAGES;
pub use calibrate::all_sizes_equal;
pub use calibrate::apply_calibration;
pub use calibrate::fixed_point_index;
pub use calibrate::has_min_images;
pub use camera::CID_EXPOSURE;
pub use camera::CID_EXPOSURE_AUTO;
pub use camera::Camera;
pub use camera::CaptureError;
pub use camera::ControlError;
pub use camera::ControlSource;
pub use camera::ControlValue;
pub use camera::DeviceCamera;
pub use camera::EXPOSURE_MANUAL;
pub use camera::OpenError;
pub use camera::ScriptedSource;
pub use camera::VideoSource;
pub use camera::control_int_value;
pub use camera::frame_image;
pub use image::Image;
pub use image::ImageData;
pub use image::MatImageData;
pub use sample::ImageMetadata;
pub use sample::Metadata;
pub use sample::Params;
pub use sample::SAMPLE_BATCH_SIZE;
pub use sample::SAMPLE_EXPOSURE_STEP;
pub use sample::Sample;
pub use sample::exposure_for_index;
pub use sample::record_capture;
pub use types::CameraConfig;
pub use types::Contour;
pub use types::ContourGroup;
pub use types::DISTORTION_COEFFS_LEN;
pub use types::INTRINSIC_MATRIX_LEN;
pub use types::Pose;
pub use types::VisionTarget;
pub use view::PixelView;
pub use view::native_to_view;
pub use view::view_to_native;
