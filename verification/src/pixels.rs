//! The decoded source image, reduced to what the pipeline reads of it.
//!
//! Decoding itself is an opaque capability of an external codec; the
//! pipeline only ever looks at the dimensions of the decoded grid, so the
//! buffer carries those as plain values. A buffer exists only for a
//! successfully decoded image, which always has at least one pixel on
//! each side.

use vstd::prelude::*;

verus! {

/// A fully decoded raster image of `width` by `height` pixels. Produced
/// exactly once per image source; ownership moves from the decode task to
/// the protocol state holder when decoding completes.
#[derive(Clone, Copy, Debug, PartialEq, Eq, Structural)]
pub struct PixelBuffer {
    pub width: u32,
    pub height: u32,
}

impl PixelBuffer {
    /// A decoded image is never empty.
    pub open spec fn wf(self) -> bool {
        self.width > 0 && self.height > 0
    }

    /// Build a buffer description from decoded dimensions; an empty grid
    /// is not a decoded image and is refused.
    pub fn new(width: u32, height: u32) -> (r: Option<PixelBuffer>)
        ensures
            r is Some <==> width > 0 && height > 0,
            r matches Some(b) ==> b.width == width && b.height == height && b.wf(),
    {
        if width > 0 && height > 0 {
            Some(PixelBuffer { width, height })
        } else {
            None
        }
    }
}

} // verus!
