//! Interfaces of the downstream pipeline stages: contour extraction and
//! target analysis. The stages themselves live outside this crate; these
//! traits only fix the shape of what they consume and produce.

use vstd::prelude::*;

use crate::buffer::ShapeError;
use crate::image::{Image, ImageData};
use crate::types::{ContourGroup, VisionTarget};

verus! {

/// An interface that extracts contour groups from an `Image`. Which
/// groups come back, and whether extraction succeeds, is the
/// implementation's affair; a failure to read the image's pixel view
/// surfaces as a `ShapeError`.
pub trait ContourExtractor {
    fn extract_from<I: ImageData>(&self, image: &Image<I>) -> (r: Result<
        Vec<ContourGroup>,
        ShapeError,
    >)
        requires
            image.pixels.inv(),
    ;
}

/// An interface that computes a `VisionTarget` given a `ContourGroup`.
pub trait ContourAnalyzer {
    fn analyze(&self, contours: &ContourGroup) -> (r: Result<VisionTarget, ShapeError>);
}

} // verus!
