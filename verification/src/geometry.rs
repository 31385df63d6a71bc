//! Pixel-buffer geometry: dimensions in pixels and the row stride in bytes.

use vstd::prelude::*;

verus! {

/// Width and height of a pixel buffer, in pixels.
#[derive(Clone, Copy, PartialEq, Eq, Structural, Debug)]
pub struct Size2D {
    pub width: i32,
    pub height: i32,
}

impl Size2D {
    pub fn new(width: i32, height: i32) -> (r: Size2D)
        ensures
            r.width == width,
            r.height == height,
    {
        Size2D { width, height }
    }
}

/// The shape of an allocated buffer: its size in pixels and its stride, the
/// number of bytes each row occupies. The per-pixel depth is `stride / width`.
#[derive(Clone, Copy, PartialEq, Eq, Structural, Debug)]
pub struct SurfaceGeometry {
    pub size: Size2D,
    pub stride: i32,
}

impl SurfaceGeometry {
    /// A geometry describes a buffer when both dimensions are positive and a
    /// row holds at least one byte per pixel.
    pub open spec fn spec_valid(self) -> bool {
        &&& 0 < self.size.width
        &&& 0 < self.size.height
        &&& self.size.width <= self.stride
    }

    /// Number of bytes in the backing buffer: `stride` bytes for each row.
    pub open spec fn spec_byte_len(self) -> int {
        self.stride * self.size.height
    }

    pub fn valid(&self) -> (r: bool)
        ensures
            r == self.spec_valid(),
    {
        0 < self.size.width && 0 < self.size.height && self.size.width <= self.stride
    }

    pub fn byte_len(&self) -> (r: u64)
        requires
            self.spec_valid(),
        ensures
            r == self.spec_byte_len(),
    {
        let rows: u64 = self.size.height as u64;
        let row_bytes: u64 = self.stride as u64;
        proof {
            assert(row_bytes * rows < 0x8000_0000u64 * 0x8000_0000u64) by (nonlinear_arith)
                requires
                    row_bytes < 0x8000_0000u64,
                    rows < 0x8000_0000u64,
            ;
        }
        row_bytes * rows
    }
}

} // verus!
