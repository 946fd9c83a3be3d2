//! The conversion engine between a native buffer and an n-dimensional pixel
//! view over the same storage: shape, stride and channel inference in both
//! directions, and sample access through a view's strides.

use vstd::prelude::*;

use crate::buffer::{BufferDesc, PixelBuffer, ShapeError};

verus! {

/// A non-owning, shape-and-stride description of the samples of a native
/// buffer, read as an n-dimensional array of 8-bit samples. A view never
/// holds pixel storage: every access goes to the buffer it was derived
/// from, so a write through the view is immediately visible through the
/// native handle and through any freshly derived view.
#[derive(Debug)]
pub struct PixelView {
    pub dims: Vec<usize>,
    pub strides: Vec<usize>,
}

impl PixelView {
    /// This view describes exactly the layout of `b`: row and column
    /// extents with the row stride, and, when `b` carries an explicit
    /// channel count, the channel extent appended as the trailing
    /// dimension with unit stride.
    pub open spec fn is_native_view(self, b: PixelBuffer) -> bool {
        if b.channels > 0 {
            &&& self.dims@ == seq![b.rows, b.cols, b.channels]
            &&& self.strides@ == seq![b.row_stride, b.channels, 1usize]
        } else {
            &&& self.dims@ == seq![b.rows, b.cols]
            &&& self.strides@ == seq![b.row_stride, 1usize]
        }
    }

    /// Number of dimensions of the view.
    pub fn ndim(&self) -> (r: usize)
        ensures
            r == self.dims@.len(),
    {
        self.dims.len()
    }

    /// The extent of each dimension, channels last when present.
    pub fn shape(&self) -> (r: &Vec<usize>)
        ensures
            r@ == self.dims@,
    {
        &self.dims
    }

    /// The element stride of each dimension.
    pub fn stride_of(&self, axis: usize) -> (r: usize)
        requires
            axis < self.strides@.len(),
        ensures
            r == self.strides@[axis as int],
    {
        self.strides[axis]
    }

    /// Element offset of `(row, col, chan)` computed from the view's own
    /// strides; it always lands on the byte the native metadata addresses.
    fn native_offset(&self, b: &PixelBuffer, row: usize, col: usize, chan: usize) -> (off: usize)
        requires
            b.wf(),
            self.is_native_view(*b),
            b.in_bounds(row as int, col as int, chan as int),
        ensures
            off == b.spec_offset(row as int, col as int, chan as int),
            off < b.data.len(),
    {
        proof {
            crate::buffer::lemma_offset_in_bounds(*b, row as int, col as int, chan as int);
        }
        if self.strides.len() == 3 {
            proof {
                assert(b.channels > 0);
                assert(self.strides@[0] == b.row_stride);
                assert(self.strides@[1] == b.channels);
                assert(self.strides@[2] == 1);
            }
            row * self.strides[0] + col * self.strides[1] + chan * self.strides[2]
        } else {
            proof {
                assert(b.channels == 0);
                assert(self.strides@[0] == b.row_stride);
                assert(self.strides@[1] == 1);
                assert(chan == 0);
            }
            row * self.strides[0] + col * self.strides[1]
        }
    }

    /// Reads the sample at `(row, col, chan)` through the view's strides;
    /// the result is exactly the sample the native handle stores there.
    pub fn sample(&self, b: &PixelBuffer, row: usize, col: usize, chan: usize) -> (r: u8)
        requires
            b.wf(),
            self.is_native_view(*b),
            b.in_bounds(row as int, col as int, chan as int),
        ensures
            r == b.spec_sample(row as int, col as int, chan as int),
    {
        let off = self.native_offset(b, row, col, chan);
        b.data[off]
    }

    /// Writes `value` into the sample at `(row, col, chan)` through the
    /// view's strides. The native handle sees the new value at once; its
    /// metadata is untouched, so this very view still describes it.
    pub fn set_sample(
        &self,
        b: &mut PixelBuffer,
        row: usize,
        col: usize,
        chan: usize,
        value: u8,
    )
        requires
            old(b).wf(),
            self.is_native_view(*old(b)),
            old(b).in_bounds(row as int, col as int, chan as int),
        ensures
            final(b).rows == old(b).rows,
            final(b).cols == old(b).cols,
            final(b).channels == old(b).channels,
            final(b).row_stride == old(b).row_stride,
            final(b).data@ == old(b).data@.update(
                old(b).spec_offset(row as int, col as int, chan as int),
                value,
            ),
            final(b).wf(),
            self.is_native_view(*final(b)),
            final(b).spec_sample(row as int, col as int, chan as int) == value,
    {
        let off = self.native_offset(b, row, col, chan);
        b.data.set(off, value);
    }
}

/// Derives the n-dimensional view of a native buffer: dimension extents
/// are the row and column counts, with the channel count appended as the
/// trailing dimension when it is positive (a zero channel count is
/// single-channel storage and appends nothing); strides are read from the
/// native metadata, never assumed equal to `cols * channels`. Fails with a
/// `ShapeError` when the buffer reports a zero extent or metadata that
/// contradicts its storage.
pub fn native_to_view(b: &PixelBuffer) -> (r: Result<PixelView, ShapeError>)
    ensures
        b.rows == 0 || b.cols == 0 ==> r == Err::<PixelView, ShapeError>(
            ShapeError::InsufficientDimensions,
        ),
        b.rows > 0 && b.cols > 0 && !b.wf() ==> r == Err::<PixelView, ShapeError>(
            ShapeError::InconsistentMetadata,
        ),
        b.wf() ==> (r matches Ok(v) && v.is_native_view(*b)),
{
    if b.rows == 0 || b.cols == 0 {
        return Err(ShapeError::InsufficientDimensions);
    }
    let width = b.channel_width();
    let row_bytes = match b.cols.checked_mul(width) {
        Some(n) => n,
        None => {
            return Err(ShapeError::InconsistentMetadata);
        },
    };
    if b.row_stride < row_bytes {
        return Err(ShapeError::InconsistentMetadata);
    }
    let total = match b.rows.checked_mul(b.row_stride) {
        Some(n) => n,
        None => {
            return Err(ShapeError::InconsistentMetadata);
        },
    };
    if b.data.len() != total {
        return Err(ShapeError::InconsistentMetadata);
    }
    let mut dims: Vec<usize> = Vec::new();
    let mut strides: Vec<usize> = Vec::new();
    dims.push(b.rows);
    dims.push(b.cols);
    strides.push(b.row_stride);
    if b.channels > 0 {
        dims.push(b.channels);
        strides.push(b.channels);
        strides.push(1);
        proof {
            assert(dims@ =~= seq![b.rows, b.cols, b.channels]);
            assert(strides@ =~= seq![b.row_stride, b.channels, 1usize]);
        }
    } else {
        strides.push(1);
        proof {
            assert(dims@ =~= seq![b.rows, b.cols]);
            assert(strides@ =~= seq![b.row_stride, 1usize]);
        }
    }
    Ok(PixelView { dims, strides })
}

/// The view has the exact shape a native handle can take back: two leading
/// dimensions, a trailing channel dimension of extent `channel_count` with
/// unit stride when `channel_count > 0`, and pixels `channel_count`
/// elements apart within a row.
pub open spec fn native_desc_ok(v: PixelView, channel_count: usize) -> bool {
    if channel_count > 0 {
        &&& v.dims@.len() == 3
        &&& v.strides@.len() == 3
        &&& v.dims@[2] == channel_count
        &&& v.strides@[1] == channel_count
        &&& v.strides@[2] == 1
    } else {
        &&& v.dims@.len() == 2
        &&& v.strides@.len() == 2
        &&& v.strides@[1] == 1
    }
}

/// The native metadata recovered from a view: leading extents become the
/// row and column counts, the leading stride becomes the row stride.
pub open spec fn spec_native_desc(v: PixelView, channel_count: usize) -> BufferDesc {
    BufferDesc {
        rows: v.dims@[0] as usize,
        cols: v.dims@[1] as usize,
        channels: channel_count,
        row_stride: v.strides@[0] as usize,
    }
}

/// The inverse conversion: takes the view's shape, drops the trailing
/// channel dimension when `channel_count > 0`, and rebuilds the native
/// metadata from the view's strides. The result aliases whatever storage
/// the view was derived from; nothing is copied. Fails with a `ShapeError`
/// when the view has fewer than two dimensions, or a shape or strides that
/// no native row-major handle with `channel_count` channels could carry.
pub fn view_to_native(v: &PixelView, channel_count: usize) -> (r: Result<BufferDesc, ShapeError>)
    ensures
        v.dims@.len() < 2 ==> r == Err::<BufferDesc, ShapeError>(
            ShapeError::InsufficientDimensions,
        ),
        v.dims@.len() >= 2 && !native_desc_ok(*v, channel_count) ==> r == Err::<
            BufferDesc,
            ShapeError,
        >(ShapeError::InconsistentMetadata),
        native_desc_ok(*v, channel_count) ==> r == Ok::<BufferDesc, ShapeError>(
            spec_native_desc(*v, channel_count),
        ),
{
    if v.dims.len() < 2 {
        return Err(ShapeError::InsufficientDimensions);
    }
    if channel_count > 0 {
        if !(v.dims.len() == 3 && v.strides.len() == 3 && v.dims[2] == channel_count
            && v.strides[1] == channel_count && v.strides[2] == 1) {
            return Err(ShapeError::InconsistentMetadata);
        }
    } else {
        if !(v.dims.len() == 2 && v.strides.len() == 2 && v.strides[1] == 1) {
            return Err(ShapeError::InconsistentMetadata);
        }
    }
    Ok(
        BufferDesc {
            rows: v.dims[0],
            cols: v.dims[1],
            channels: channel_count,
            row_stride: v.strides[0],
        },
    )
}

/// Distinct sample coordinates of a well-formed buffer always address
/// distinct bytes of its storage.
pub proof fn lemma_offset_injective(
    b: PixelBuffer,
    r1: int,
    c1: int,
    k1: int,
    r2: int,
    c2: int,
    k2: int,
)
    requires
        b.wf(),
        b.in_bounds(r1, c1, k1),
        b.in_bounds(r2, c2, k2),
        !(r1 == r2 && c1 == c2 && k1 == k2),
    ensures
        b.spec_offset(r1, c1, k1) != b.spec_offset(r2, c2, k2),
{
    let w = b.spec_channel_width();
    let s = b.row_stride as int;
    assert(b.spec_offset(r1, c1, k1) != b.spec_offset(r2, c2, k2)) by (nonlinear_arith)
        requires
            0 <= r1 < b.rows,
            0 <= c1 < b.cols,
            0 <= k1 < w,
            0 <= r2 < b.rows,
            0 <= c2 < b.cols,
            0 <= k2 < w,
            !(r1 == r2 && c1 == c2 && k1 == k2),
            b.cols * w <= s,
            b.spec_offset(r1, c1, k1) == r1 * s + c1 * w + k1,
            b.spec_offset(r2, c2, k2) == r2 * s + c2 * w + k2,
    ;
}

/// Round trip: deriving the view of a well-formed native buffer and
/// turning that view back into native metadata with the buffer's own
/// channel count succeeds and reproduces the buffer's row, column and
/// channel counts and its row stride. The storage was never copied, so the
/// recovered handle describes the very same memory.
pub proof fn lemma_view_round_trip(b: PixelBuffer, v: PixelView)
    requires
        b.wf(),
        v.is_native_view(b),
    ensures
        native_desc_ok(v, b.channels),
        spec_native_desc(v, b.channels) == b.spec_desc(),
{
}

/// Shape of a derived view: the row and column extents, with the channel
/// count as the trailing extent exactly when it is positive.
pub proof fn lemma_native_view_shape(b: PixelBuffer, v: PixelView)
    requires
        b.wf(),
        v.is_native_view(b),
    ensures
        b.channels > 0 ==> v.dims@ == seq![b.rows, b.cols, b.channels],
        b.channels == 0 ==> v.dims@ == seq![b.rows, b.cols],
{
}

/// Aliasing: a buffer whose storage differs from `b`'s only by one sample
/// written at `(row, col, chan)` shows the new value there and the old
/// value at every other coordinate, both through the native handle and
/// through any view derived from it.
pub proof fn lemma_sample_after_write(
    b: PixelBuffer,
    w: PixelBuffer,
    row: int,
    col: int,
    chan: int,
    value: u8,
)
    requires
        b.wf(),
        b.in_bounds(row, col, chan),
        w.rows == b.rows,
        w.cols == b.cols,
        w.channels == b.channels,
        w.row_stride == b.row_stride,
        w.data@ == b.data@.update(b.spec_offset(row, col, chan), value),
    ensures
        w.wf(),
        w.spec_sample(row, col, chan) == value,
        forall|r2: int, c2: int, k2: int|
            b.in_bounds(r2, c2, k2) && !(r2 == row && c2 == col && k2 == chan)
                ==> w.spec_sample(r2, c2, k2) == b.spec_sample(r2, c2, k2),
{
    crate::buffer::lemma_offset_in_bounds(b, row, col, chan);
    assert forall|r2: int, c2: int, k2: int|
        b.in_bounds(r2, c2, k2) && !(r2 == row && c2 == col && k2 == chan)
            implies w.spec_sample(r2, c2, k2) == b.spec_sample(r2, c2, k2) by {
        crate::buffer::lemma_offset_in_bounds(b, r2, c2, k2);
        lemma_offset_injective(b, r2, c2, k2, row, col, chan);
    }
}

} // verus!
