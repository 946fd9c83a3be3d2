//! The rules of a bulk-sampling session: its parameters, the exposure
//! schedule the captures sweep through, and the metadata record kept
//! beside the written images.

use vstd::prelude::*;

use crate::types::{CameraConfig, VisionTarget};

verus! {

/// Captures taken in one sampling run.
pub const SAMPLE_BATCH_SIZE: usize = 10;

/// Exposure units the schedule advances per capture.
pub const SAMPLE_EXPOSURE_STEP: i32 = 20;

/// Parameters of a bulk-sampling run: an optional delay between captures
/// in milliseconds, the path of the input-parameter file, and the
/// directory images and metadata are written to.
#[derive(Debug)]
pub struct Sample {
    pub delay_ms: Option<u64>,
    pub params_file: String,
    pub output_dir: String,
}

impl Sample {
    /// The configured pause between captures, in milliseconds, when one
    /// was asked for.
    pub fn delay(&self) -> (r: Option<u64>)
        ensures
            r == self.delay_ms,
    {
        self.delay_ms
    }
}

/// Input parameters of a sampling run: the label written into every
/// record, the target the samples are taken of, and the camera to open.
#[derive(Debug)]
pub struct Params {
    pub label: String,
    pub target: VisionTarget,
    pub camera: CameraConfig,
}

impl Default for Params {
    /// The template written out when no parameter file exists yet: an
    /// empty label, the all-zero target, and the default camera record.
    fn default() -> (r: Params)
        ensures
            r.label@ == Seq::<char>::empty(),
            r.target == (VisionTarget { id: 0, beta: 0, theta: 0, dist: 0, height: 0, confidence: 0 }),
            r.camera.id == 0,
            r.camera.resolution == (0u32, 0u32),
            r.camera.pose == (crate::types::Pose {
                angle: 0,
                dist: 0,
                height: 0,
                yaw: 0,
                pitch: 0,
                roll: 0,
            }),
            r.camera.fov == (0u64, 0u64),
            r.camera.focal_length == 0,
            r.camera.sensor_width == 0,
            r.camera.sensor_height == 0,
            r.camera.exposure == 0,
            r.camera.intrinsic_matrix@ == Seq::<u64>::empty(),
            r.camera.distortion_coeffs@ == Seq::<u64>::empty(),
    {
        Params {
            label: String::new(),
            target: VisionTarget::default(),
            camera: CameraConfig::default(),
        }
    }
}

/// The record kept for one written image: its position in the output
/// directory, the label, the camera configuration at capture time, and
/// the exposure the device reported.
#[derive(Debug)]
pub struct ImageMetadata {
    pub index: usize,
    pub label: String,
    pub config: CameraConfig,
    pub exposure: i32,
}

/// The metadata file beside the sampled images.
#[derive(Debug)]
pub struct Metadata {
    pub images: Vec<ImageMetadata>,
}

impl Metadata {
    /// Every record's index is its position in the file.
    pub open spec fn wf(self) -> bool {
        forall|i: int| 0 <= i < self.images@.len() ==> (#[trigger] self.images@[i]).index == i
    }

    /// An empty metadata record.
    pub fn new() -> (r: Metadata)
        ensures
            r.images@.len() == 0,
            r.wf(),
    {
        Metadata { images: Vec::new() }
    }
}

/// The exposure the schedule asks of the device for the capture at
/// `index`: the step size times the index, for every index whose product
/// the exposure type can hold.
pub fn exposure_for_index(index: i32) -> (r: i32)
    requires
        0 <= index <= i32::MAX / SAMPLE_EXPOSURE_STEP,
    ensures
        r == SAMPLE_EXPOSURE_STEP * index,
{
    index * SAMPLE_EXPOSURE_STEP
}

/// Appends the record of one written image: its index is exactly the
/// number of images recorded before it, so positions and indices stay in
/// step, and nothing already recorded moves.
pub fn record_capture(
    meta: &mut Metadata,
    label: String,
    config: CameraConfig,
    exposure: i32,
)
    requires
        old(meta).images@.len() < usize::MAX,
    ensures
        final(meta).images@.len() == old(meta).images@.len() + 1,
        final(meta).images@ == old(meta).images@.push(
            ImageMetadata { index: old(meta).images@.len() as usize, label, config, exposure },
        ),
        old(meta).wf() ==> final(meta).wf(),
{
    let index = meta.images.len();
    meta.images.push(ImageMetadata { index, label, config, exposure });
}

} // verus!
