//! Geometry and configuration value types shared across the pipeline, and
//! the contour and target records the downstream stages exchange.
//!
//! Angles, distances and other physical quantities are carried as IEEE-754
//! bit patterns (`u64` for doubles, `u32` for singles): the pipeline stores
//! and forwards them unchanged and never computes with them, so nothing
//! here depends on floating-point arithmetic.

use vstd::prelude::*;

verus! {

/// Number of entries of a calibrated intrinsic matrix (3 x 3, row-major).
pub const INTRINSIC_MATRIX_LEN: usize = 9;

/// Number of distortion coefficients a calibration produces.
pub const DISTORTION_COEFFS_LEN: usize = 5;

/// A representation of a relative position and rotation.
#[derive(Clone, Copy, Debug, PartialEq, Eq, Structural)]
pub struct Pose {
    pub angle: u64,
    pub dist: u64,
    pub height: u64,
    pub yaw: u64,
    pub pitch: u64,
    pub roll: u64,
}

impl Default for Pose {
    /// The origin pose: every component is the zero bit pattern.
    fn default() -> (r: Pose)
        ensures
            r == (Pose { angle: 0, dist: 0, height: 0, yaw: 0, pitch: 0, roll: 0 }),
    {
        Pose { angle: 0, dist: 0, height: 0, yaw: 0, pitch: 0, roll: 0 }
    }
}

/// A collection of camera properties: identity, the negotiated resolution
/// in pixels as `(width, height)`, mounting pose, field of view, sensor
/// geometry, exposure, and, once calibrated, the intrinsic matrix and
/// distortion coefficients.
#[derive(Debug)]
pub struct CameraConfig {
    pub id: u8,
    pub resolution: (u32, u32),
    pub pose: Pose,
    pub fov: (u64, u64),
    pub focal_length: u64,
    pub sensor_width: u64,
    pub sensor_height: u64,
    pub exposure: u64,
    pub intrinsic_matrix: Vec<u64>,
    pub distortion_coeffs: Vec<u64>,
}

impl CameraConfig {
    /// The calibration fields are either absent or exactly the sizes a
    /// calibration produces.
    pub open spec fn wf(self) -> bool {
        &&& (self.intrinsic_matrix@.len() == 0 || self.intrinsic_matrix@.len()
            == INTRINSIC_MATRIX_LEN)
        &&& (self.distortion_coeffs@.len() == 0 || self.distortion_coeffs@.len()
            == DISTORTION_COEFFS_LEN)
    }

    /// Both calibration fields are present.
    pub open spec fn calibrated(self) -> bool {
        &&& self.intrinsic_matrix@.len() == INTRINSIC_MATRIX_LEN
        &&& self.distortion_coeffs@.len() == DISTORTION_COEFFS_LEN
    }

    /// The two configurations agree on every field.
    pub open spec fn agrees_with(self, other: CameraConfig) -> bool {
        &&& self.id == other.id
        &&& self.resolution == other.resolution
        &&& self.pose == other.pose
        &&& self.fov == other.fov
        &&& self.focal_length == other.focal_length
        &&& self.sensor_width == other.sensor_width
        &&& self.sensor_height == other.sensor_height
        &&& self.exposure == other.exposure
        &&& self.intrinsic_matrix@ == other.intrinsic_matrix@
        &&& self.distortion_coeffs@ == other.distortion_coeffs@
    }

    /// Returns a configuration equal to this one, with its own copies of
    /// the calibration vectors.
    pub fn duplicate(&self) -> (r: CameraConfig)
        ensures
            r.agrees_with(*self),
    {
        CameraConfig {
            id: self.id,
            resolution: self.resolution,
            pose: self.pose,
            fov: self.fov,
            focal_length: self.focal_length,
            sensor_width: self.sensor_width,
            sensor_height: self.sensor_height,
            exposure: self.exposure,
            intrinsic_matrix: clone_words(&self.intrinsic_matrix),
            distortion_coeffs: clone_words(&self.distortion_coeffs),
        }
    }
}

impl Default for CameraConfig {
    /// An uncalibrated configuration with zero identity, resolution and
    /// geometry.
    fn default() -> (r: CameraConfig)
        ensures
            r.id == 0,
            r.resolution == (0u32, 0u32),
            r.pose == (Pose { angle: 0, dist: 0, height: 0, yaw: 0, pitch: 0, roll: 0 }),
            r.fov == (0u64, 0u64),
            r.focal_length == 0,
            r.sensor_width == 0,
            r.sensor_height == 0,
            r.exposure == 0,
            r.intrinsic_matrix@ == Seq::<u64>::empty(),
            r.distortion_coeffs@ == Seq::<u64>::empty(),
            r.wf(),
    {
        CameraConfig {
            id: 0,
            resolution: (0, 0),
            pose: Pose::default(),
            fov: (0, 0),
            focal_length: 0,
            sensor_width: 0,
            sensor_height: 0,
            exposure: 0,
            intrinsic_matrix: Vec::new(),
            distortion_coeffs: Vec::new(),
        }
    }
}

/// Copies a vector of 64-bit words; the copy holds exactly the same words.
fn clone_words(v: &Vec<u64>) -> (r: Vec<u64>)
    ensures
        r@ == v@,
{
    let r = v.clone();
    proof {
        assert(r@ =~= v@);
    }
    r
}

/// A collection of points that form a contour. Coordinates are IEEE-754
/// single-precision bit patterns.
#[derive(Debug)]
pub struct Contour {
    pub points: Vec<(u32, u32)>,
}

/// A collection of contours that share a logical origin, tagged with an
/// identifier and the configuration of the camera that observed them.
#[derive(Debug)]
pub struct ContourGroup {
    pub id: u8,
    pub camera: std::rc::Rc<CameraConfig>,
    pub contours: Vec<Contour>,
}

/// A measurement derived from one detected target: bearing `beta`,
/// elevation `theta`, distance and height as double bit patterns, and a
/// confidence score as a single bit pattern.
#[derive(Clone, Copy, Debug, PartialEq, Eq, Structural)]
pub struct VisionTarget {
    pub id: u8,
    pub beta: u64,
    pub theta: u64,
    pub dist: u64,
    pub height: u64,
    pub confidence: u32,
}

impl Default for VisionTarget {
    /// The all-zero measurement.
    fn default() -> (r: VisionTarget)
        ensures
            r == (VisionTarget { id: 0, beta: 0, theta: 0, dist: 0, height: 0, confidence: 0 }),
    {
        VisionTarget { id: 0, beta: 0, theta: 0, dist: 0, height: 0, confidence: 0 }
    }
}

} // verus!
