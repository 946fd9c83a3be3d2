//! The image data capability and the `Image` value that binds one frame to
//! the configuration of the camera that produced it.

use vstd::prelude::*;

use crate::buffer::PixelBuffer;
use crate::types::CameraConfig;
use crate::view::PixelView;
use crate::view::native_to_view;

verus! {

/// A generalized format for image data: one owned native buffer, exposed
/// both as an n-dimensional pixel view and as the raw storage itself.
/// `Inner` is the underlying storage type. Views are non-owning and must
/// not be kept past the owner; a mutable access path and any other access
/// path to the same buffer must not coexist, which the borrow rules
/// enforce.
pub trait ImageData: Sized {
    type Inner;

    /// The storage this value currently owns is in a state its accessors
    /// accept.
    spec fn inv(&self) -> bool;

    /// The underlying raw storage.
    spec fn raw_model(&self) -> Self::Inner;

    /// The native buffer the pixel accessors read.
    spec fn buffer_model(&self) -> PixelBuffer;

    /// Returns the image data as an array view of its pixels, consistent
    /// with the current native buffer.
    fn as_pixels(&self) -> (v: PixelView)
        requires
            self.inv(),
        ensures
            self.buffer_model().wf(),
            v.is_native_view(self.buffer_model()),
    ;

    /// Returns a view for mutating pixels in place. Taking it borrows the
    /// owner mutably, so every previously derived access path is dead; the
    /// data itself is not changed by deriving the view.
    fn as_pixels_mut(&mut self) -> (v: PixelView)
        requires
            old(self).inv(),
        ensures
            *final(self) == *old(self),
            final(self).buffer_model().wf(),
            v.is_native_view(final(self).buffer_model()),
    ;

    /// Returns a reference to the underlying storage, for handing the
    /// buffer to a native call without copying.
    fn as_raw(&self) -> (r: &Self::Inner)
        ensures
            *r == self.raw_model(),
    ;

    /// Returns a mutable reference to the underlying storage.
    fn as_raw_mut(&mut self) -> (r: &mut Self::Inner)
        ensures
            *r == old(self).raw_model(),
            final(self).raw_model() == *final(r),
    ;
}

/// Image data captured into a native matrix buffer.
pub struct MatImageData {
    pub mat: PixelBuffer,
}

impl MatImageData {
    /// Wraps a captured native buffer.
    pub fn new(mat: PixelBuffer) -> (r: Self)
        ensures
            r.mat == mat,
    {
        Self { mat }
    }
}

impl ImageData for MatImageData {
    type Inner = PixelBuffer;

    open spec fn inv(&self) -> bool {
        self.mat.wf()
    }

    open spec fn raw_model(&self) -> PixelBuffer {
        self.mat
    }

    open spec fn buffer_model(&self) -> PixelBuffer {
        self.mat
    }

    fn as_pixels(&self) -> (v: PixelView) {
        match native_to_view(&self.mat) {
            Ok(v) => v,
            Err(_) => vstd::pervasive::unreached(),
        }
    }

    fn as_pixels_mut(&mut self) -> (v: PixelView) {
        match native_to_view(&self.mat) {
            Ok(v) => v,
            Err(_) => vstd::pervasive::unreached(),
        }
    }

    fn as_raw(&self) -> (r: &PixelBuffer) {
        &self.mat
    }

    fn as_raw_mut(&mut self) -> (r: &mut PixelBuffer) {
        &mut self.mat
    }
}

/// An image: a capture timestamp, a shared reference to the configuration
/// of the originating camera, and the captured pixels. The configuration
/// is shared immutably, so every image taken from one camera points at the
/// very same record.
pub struct Image<Storage: ImageData> {
    pub timestamp: u64,
    pub camera: std::rc::Rc<CameraConfig>,
    pub pixels: Storage,
}

impl<Storage: ImageData> Image<Storage> {
    /// Binds a frame to its camera's configuration. No validation is done
    /// here: resolution consistency is the producer's obligation, checked
    /// opportunistically by consumers.
    pub fn new(timestamp: u64, camera: std::rc::Rc<CameraConfig>, pixels: Storage) -> (r: Self)
        ensures
            r.timestamp == timestamp,
            r.camera == camera,
            r.pixels == pixels,
    {
        Self { timestamp, camera, pixels }
    }

    /// The configuration of the camera that produced this image: exactly
    /// the record the image was constructed with.
    pub fn config(&self) -> (r: &CameraConfig)
        ensures
            *r == self.camera,
    {
        &self.camera
    }

    /// Delegates to the pixel data: the view of the current buffer.
    pub fn as_pixels(&self) -> (v: PixelView)
        requires
            self.pixels.inv(),
        ensures
            self.pixels.buffer_model().wf(),
            v.is_native_view(self.pixels.buffer_model()),
    {
        self.pixels.as_pixels()
    }

    /// Delegates to the pixel data: a view for in-place mutation.
    pub fn as_pixels_mut(&mut self) -> (v: PixelView)
        requires
            old(self).pixels.inv(),
        ensures
            *final(self) == *old(self),
            final(self).pixels.buffer_model().wf(),
            v.is_native_view(final(self).pixels.buffer_model()),
    {
        self.pixels.as_pixels_mut()
    }

    /// Delegates to the pixel data: the underlying storage.
    pub fn as_raw(&self) -> (r: &Storage::Inner)
        ensures
            *r == self.pixels.raw_model(),
    {
        self.pixels.as_raw()
    }

    /// Delegates to the pixel data: the underlying storage, mutably.
    pub fn as_raw_mut(&mut self) -> (r: &mut Storage::Inner)
        ensures
            *r == old(self).pixels.raw_model(),
            final(self).pixels.raw_model() == *final(r),
    {
        self.pixels.as_raw_mut()
    }
}

/// Configuration propagation: whatever `Image::new` returned for a given
/// shared configuration, `config` called on that image hands back exactly
/// that configuration; construction stores the record unchanged and no
/// accessor replaces it.
pub proof fn lemma_config_propagation<Storage: ImageData>(
    timestamp: u64,
    camera: std::rc::Rc<CameraConfig>,
    pixels: Storage,
    img: Image<Storage>,
    cfg: &CameraConfig,
)
    requires
        call_ensures(Image::<Storage>::new, (timestamp, camera, pixels), img),
        call_ensures(Image::<Storage>::config, (&img,), cfg),
    ensures
        *cfg == camera,
{
}

} // verus!
