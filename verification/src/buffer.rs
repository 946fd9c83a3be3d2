//! The native pixel storage: a row-major matrix of 8-bit samples described
//! by row, column and channel counts and a row stride.

use vstd::prelude::*;

verus! {

/// Failure to interpret buffer or view metadata as a pixel matrix shape.
#[derive(Clone, Copy, Debug, PartialEq, Eq, Structural)]
pub enum ShapeError {
    /// The metadata describes fewer dimensions than a pixel matrix needs.
    InsufficientDimensions,
    /// The row, column, channel and stride counts contradict one another or
    /// the amount of stored data.
    InconsistentMetadata,
}

/// The metadata of a native buffer without its storage: what a
/// freshly-captured buffer reports, and what a view hands back when it is
/// turned into a native handle again.
#[derive(Clone, Copy, Debug, PartialEq, Eq, Structural)]
pub struct BufferDesc {
    pub rows: usize,
    pub cols: usize,
    pub channels: usize,
    pub row_stride: usize,
}

/// A native matrix buffer: row-major 8-bit samples, `channels` samples per
/// pixel, consecutive rows laid `row_stride` bytes apart. The stride may
/// exceed `cols * channels` to allow padded or aligned rows. A channel count
/// of zero means single-channel storage with no explicit channel axis.
#[derive(Debug)]
pub struct PixelBuffer {
    pub rows: usize,
    pub cols: usize,
    pub channels: usize,
    pub row_stride: usize,
    pub data: Vec<u8>,
}

impl PixelBuffer {
    /// Samples actually stored per pixel: a zero channel count is treated as
    /// single-channel.
    pub open spec fn spec_channel_width(self) -> int {
        if self.channels == 0 {
            1
        } else {
            self.channels as int
        }
    }

    /// The metadata is consistent: positive extents, rows at least
    /// `cols * channels` bytes apart, and exactly `rows * row_stride` bytes
    /// of storage behind them.
    pub open spec fn wf(self) -> bool {
        &&& self.rows > 0
        &&& self.cols > 0
        &&& self.row_stride >= self.cols * self.spec_channel_width()
        &&& self.data.len() == self.rows * self.row_stride
    }

    /// Byte offset of sample `(row, col, chan)` in the backing storage.
    pub open spec fn spec_offset(self, row: int, col: int, chan: int) -> int {
        row * self.row_stride + col * self.spec_channel_width() + chan
    }

    /// The stored value of sample `(row, col, chan)`.
    pub open spec fn spec_sample(self, row: int, col: int, chan: int) -> u8 {
        self.data[self.spec_offset(row, col, chan)]
    }

    /// Whether `(row, col, chan)` addresses a sample of this buffer.
    pub open spec fn in_bounds(self, row: int, col: int, chan: int) -> bool {
        &&& 0 <= row < self.rows
        &&& 0 <= col < self.cols
        &&& 0 <= chan < self.spec_channel_width()
    }

    /// Builds a buffer after checking that the metadata describes the given
    /// storage: zero extents are rejected as insufficient dimensions, and a
    /// stride or data length that contradicts the counts as inconsistent
    /// metadata.
    pub fn new(
        rows: usize,
        cols: usize,
        channels: usize,
        row_stride: usize,
        data: Vec<u8>,
    ) -> (r: Result<PixelBuffer, ShapeError>)
        ensures
            ({
                let b = (PixelBuffer { rows, cols, channels, row_stride, data });
                &&& b.wf() ==> r == Ok::<PixelBuffer, ShapeError>(b)
                &&& (rows == 0 || cols == 0) ==> r == Err::<PixelBuffer, ShapeError>(
                    ShapeError::InsufficientDimensions,
                )
                &&& (rows > 0 && cols > 0 && !b.wf()) ==> r == Err::<PixelBuffer, ShapeError>(
                    ShapeError::InconsistentMetadata,
                )
            }),
    {
        if rows == 0 || cols == 0 {
            return Err(ShapeError::InsufficientDimensions);
        }
        let width: usize = if channels == 0 {
            1
        } else {
            channels
        };
        let row_bytes = match cols.checked_mul(width) {
            Some(n) => n,
            None => {
                return Err(ShapeError::InconsistentMetadata);
            },
        };
        if row_stride < row_bytes {
            return Err(ShapeError::InconsistentMetadata);
        }
        let total = match rows.checked_mul(row_stride) {
            Some(n) => n,
            None => {
                return Err(ShapeError::InconsistentMetadata);
            },
        };
        if data.len() != total {
            return Err(ShapeError::InconsistentMetadata);
        }
        Ok(PixelBuffer { rows, cols, channels, row_stride, data })
    }

    /// Samples per pixel as stored, with zero channels read as one.
    pub fn channel_width(&self) -> (r: usize)
        ensures
            r == self.spec_channel_width(),
    {
        if self.channels == 0 {
            1
        } else {
            self.channels
        }
    }

    /// Reads the sample at `(row, col, chan)` directly from the native
    /// storage.
    pub fn sample(&self, row: usize, col: usize, chan: usize) -> (r: u8)
        requires
            self.wf(),
            self.in_bounds(row as int, col as int, chan as int),
        ensures
            r == self.spec_sample(row as int, col as int, chan as int),
    {
        proof {
            lemma_offset_in_bounds(*self, row as int, col as int, chan as int);
        }
        let width = self.channel_width();
        let off = row * self.row_stride + col * width + chan;
        self.data[off]
    }

    /// Writes `value` into the sample at `(row, col, chan)`; every other
    /// byte of the storage and all metadata are left as they were.
    pub fn write_sample(&mut self, row: usize, col: usize, chan: usize, value: u8)
        requires
            old(self).wf(),
            old(self).in_bounds(row as int, col as int, chan as int),
        ensures
            final(self).rows == old(self).rows,
            final(self).cols == old(self).cols,
            final(self).channels == old(self).channels,
            final(self).row_stride == old(self).row_stride,
            final(self).data@ == old(self).data@.update(
                old(self).spec_offset(row as int, col as int, chan as int),
                value,
            ),
            final(self).wf(),
            final(self).spec_sample(row as int, col as int, chan as int) == value,
    {
        proof {
            lemma_offset_in_bounds(*self, row as int, col as int, chan as int);
        }
        let width = self.channel_width();
        let off = row * self.row_stride + col * width + chan;
        self.data.set(off, value);
    }

    /// The metadata of this buffer, without the storage.
    pub open spec fn spec_desc(self) -> BufferDesc {
        BufferDesc {
            rows: self.rows,
            cols: self.cols,
            channels: self.channels,
            row_stride: self.row_stride,
        }
    }

    /// Reports the buffer's metadata.
    pub fn desc(&self) -> (r: BufferDesc)
        ensures
            r == self.spec_desc(),
    {
        BufferDesc {
            rows: self.rows,
            cols: self.cols,
            channels: self.channels,
            row_stride: self.row_stride,
        }
    }

    /// The two buffers agree on all metadata and hold the same bytes.
    pub open spec fn agrees_with(self, other: PixelBuffer) -> bool {
        &&& self.rows == other.rows
        &&& self.cols == other.cols
        &&& self.channels == other.channels
        &&& self.row_stride == other.row_stride
        &&& self.data@ == other.data@
    }

    /// Returns a buffer equal to this one, with its own copy of the storage.
    pub fn duplicate(&self) -> (r: PixelBuffer)
        ensures
            r.agrees_with(*self),
    {
        let data = clone_bytes(&self.data);
        PixelBuffer {
            rows: self.rows,
            cols: self.cols,
            channels: self.channels,
            row_stride: self.row_stride,
            data,
        }
    }
}

/// Copies a byte vector; the copy holds exactly the same bytes.
fn clone_bytes(v: &Vec<u8>) -> (r: Vec<u8>)
    ensures
        r@ == v@,
{
    let r = v.clone();
    proof {
        assert(r@ =~= v@);
    }
    r
}

/// A sample's byte offset lies inside the storage of a well-formed buffer.
pub proof fn lemma_offset_in_bounds(b: PixelBuffer, row: int, col: int, chan: int)
    requires
        b.wf(),
        b.in_bounds(row, col, chan),
    ensures
        0 <= row * (b.row_stride as int),
        0 <= col * b.spec_channel_width(),
        0 <= b.spec_offset(row, col, chan) < b.data.len(),
{
    let w = b.spec_channel_width();
    let s = b.row_stride as int;
    assert(0 <= row * s) by (nonlinear_arith)
        requires
            0 <= row,
            0 <= s,
    ;
    assert(0 <= col * w) by (nonlinear_arith)
        requires
            0 <= col,
            0 <= w,
    ;
    assert(col * w + chan < b.cols * w) by (nonlinear_arith)
        requires
            0 <= col < b.cols,
            0 <= chan < w,
            0 < w,
    ;
    assert(row * s + b.cols * w <= b.rows as int * s) by (nonlinear_arith)
        requires
            0 <= row < b.rows,
            b.cols * w <= s,
            0 < s,
    ;
    assert(0 <= row * s + col * w + chan) by (nonlinear_arith)
        requires
            0 <= row,
            0 <= col,
            0 <= chan,
            0 < s,
            0 < w,
    ;
}

} // verus!
