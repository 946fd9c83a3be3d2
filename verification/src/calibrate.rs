//! The rules of a checkerboard calibration session: the inner-corner grid
//! the detector is asked to find, the consistency checks on the input
//! images, the choice of the fixed reference corner, and how a solver's
//! result is persisted into a camera configuration.
//!
//! The numerical solver and the corner detector themselves are outside
//! services; this module fixes everything around them.

use vstd::prelude::*;

use crate::buffer::ShapeError;
use crate::types::{CameraConfig, DISTORTION_COEFFS_LEN, INTRINSIC_MATRIX_LEN};

verus! {

/// Fewest successfully detected boards a calibration may rest on.
pub const MIN_CALIBRATION_IMAGES: usize = 3;

/// Parameters of one calibration session: the checkerboard's geometry,
/// where the resulting configuration is written, and the images to detect
/// boards in. The square size is an IEEE-754 single bit pattern in
/// millimeters, carried for the solver and never computed with here.
#[derive(Debug)]
pub struct Calibrate {
    pub square_size_mm: u32,
    pub board_rows: u8,
    pub board_cols: u8,
    pub camera_config: String,
    pub debug_dir: Option<String>,
    pub image_paths: Vec<String>,
}

impl Calibrate {
    /// Inner corners across the board: one fewer than the columns.
    pub open spec fn spec_width(self) -> int {
        self.board_cols - 1
    }

    /// Inner corners down the board: one fewer than the rows.
    pub open spec fn spec_height(self) -> int {
        self.board_rows - 1
    }

    /// Inner corners across the board.
    pub fn width(&self) -> (r: u8)
        requires
            self.board_cols >= 1,
        ensures
            r == self.spec_width(),
    {
        self.board_cols - 1
    }

    /// Inner corners down the board.
    pub fn height(&self) -> (r: u8)
        requires
            self.board_rows >= 1,
        ensures
            r == self.spec_height(),
    {
        self.board_rows - 1
    }

    /// The object-space corner grid, in units of one checkerboard square:
    /// entry `col * height + row` is `(col, row)`, column-major, one entry
    /// per inner corner. The caller scales by the square size to get
    /// metric object points; every corner lies in the board plane.
    pub fn compute_checkerboard_obj_points(&self) -> (r: Vec<(u32, u32)>)
        requires
            self.board_cols >= 1,
            self.board_rows >= 1,
        ensures
            r@.len() == self.spec_width() * self.spec_height(),
            forall|i: int|
                0 <= i < r@.len() ==> #[trigger] r@[i] == (
                    ((i / self.spec_height()) as u32, (i % self.spec_height()) as u32)
                ),
    {
        let width = self.width();
        let height = self.height();
        let h = height as usize;
        let w = width as usize;
        let mut points: Vec<(u32, u32)> = Vec::new();
        if h == 0 {
            return points;
        }
        let mut col: usize = 0;
        while col < w
            invariant
                0 < h <= 254,
                w <= 254,
                col <= w,
                h == self.spec_height(),
                w == self.spec_width(),
                points@.len() == col * h,
                forall|i: int|
                    0 <= i < points@.len() ==> #[trigger] points@[i] == (
                        ((i / h as int) as u32, (i % h as int) as u32)
                    ),
            decreases w - col,
        {
            let mut row: usize = 0;
            while row < h
                invariant
                    0 < h <= 254,
                    w <= 254,
                    col < w,
                    row <= h,
                    h == self.spec_height(),
                    w == self.spec_width(),
                    points@.len() == col * h + row,
                    forall|i: int|
                        0 <= i < points@.len() ==> #[trigger] points@[i] == (
                            ((i / h as int) as u32, (i % h as int) as u32)
                        ),
                decreases h - row,
            {
                proof {
                    assert(col * h + row < 254 * 254) by (nonlinear_arith)
                        requires
                            0 <= col < w <= 254,
                            0 <= row < h <= 254,
                    ;
                    vstd::arithmetic::div_mod::lemma_fundamental_div_mod_converse(
                        (col * h + row) as int,
                        h as int,
                        col as int,
                        row as int,
                    );
                }
                points.push((col as u32, row as u32));
                row = row + 1;
            }
            proof {
                assert(col * h + h == (col + 1) * h) by (nonlinear_arith);
            }
            col = col + 1;
        }
        points
    }
}

/// Whether every reported image size equals the first: calibration
/// requires all input images to share one size, and an empty batch is
/// vacuously consistent.
pub fn all_sizes_equal(sizes: &Vec<(u32, u32)>) -> (r: bool)
    ensures
        r <==> (forall|i: int| 0 <= i < sizes@.len() ==> #[trigger] sizes@[i] == sizes@[0]),
{
    let n = sizes.len();
    if n == 0 {
        return true;
    }
    let first = sizes[0];
    let mut i: usize = 1;
    while i < n
        invariant
            1 <= i <= n,
            n == sizes@.len(),
            first == sizes@[0],
            forall|j: int| 0 <= j < i ==> #[trigger] sizes@[j] == sizes@[0],
        decreases n - i,
    {
        let cur = sizes[i];
        if !(cur.0 == first.0 && cur.1 == first.1) {
            return false;
        }
        i = i + 1;
    }
    true
}

/// Whether enough boards were detected to run the solver at all.
pub fn has_min_images(detected: usize) -> (r: bool)
    ensures
        r == (detected >= MIN_CALIBRATION_IMAGES),
{
    detected >= MIN_CALIBRATION_IMAGES
}

/// The designated fixed reference corner handed to the solver: the
/// second-to-last entry of the object-point grid (the board's top-right
/// inner corner in the grid's column-major order).
pub fn fixed_point_index(n_points: usize) -> (r: usize)
    requires
        n_points >= 2,
    ensures
        r == n_points - 2,
{
    n_points - 2
}

/// Persists a solver's result into a configuration: a 3 x 3 intrinsic
/// matrix and five distortion coefficients, as double bit patterns,
/// replace the configuration's calibration fields and everything else is
/// kept. A result of any other size is rejected as inconsistent and the
/// configuration is left alone.
pub fn apply_calibration(
    config: &mut CameraConfig,
    intrinsic: Vec<u64>,
    distortion: Vec<u64>,
) -> (r: Result<(), ShapeError>)
    ensures
        final(config).id == old(config).id,
        final(config).resolution == old(config).resolution,
        final(config).pose == old(config).pose,
        final(config).fov == old(config).fov,
        final(config).focal_length == old(config).focal_length,
        final(config).sensor_width == old(config).sensor_width,
        final(config).sensor_height == old(config).sensor_height,
        final(config).exposure == old(config).exposure,
        intrinsic@.len() == INTRINSIC_MATRIX_LEN && distortion@.len() == DISTORTION_COEFFS_LEN
            ==> {
            &&& r == Ok::<(), ShapeError>(())
            &&& final(config).intrinsic_matrix@ == intrinsic@
            &&& final(config).distortion_coeffs@ == distortion@
            &&& final(config).calibrated()
        },
        !(intrinsic@.len() == INTRINSIC_MATRIX_LEN && distortion@.len() == DISTORTION_COEFFS_LEN)
            ==> {
            &&& r == Err::<(), ShapeError>(ShapeError::InconsistentMetadata)
            &&& final(config).intrinsic_matrix@ == old(config).intrinsic_matrix@
            &&& final(config).distortion_coeffs@ == old(config).distortion_coeffs@
        },
{
    if !(intrinsic.len() == INTRINSIC_MATRIX_LEN && distortion.len() == DISTORTION_COEFFS_LEN) {
        return Err(ShapeError::InconsistentMetadata);
    }
    config.intrinsic_matrix = intrinsic;
    config.distortion_coeffs = distortion;
    Ok(())
}

} // verus!
