//! Grayscale pixel buffer handed to the rasterizer collaborator.
//!
//! The core only allocates the buffer: a white (255) single-channel
//! pixel per coordinate. Rendering into it and writing it out are
//! the collaborator's work, outside this crate.

use vstd::prelude::*;

verus! {

/// One single-channel pixel.
#[derive(Clone)]
pub struct Luma<T: Clone> {
    pub data: [T; 1],
}

/// A row-major pixel buffer of the given dimensions.
pub struct ImageBuffer<T> {
    width: u32,
    height: u32,
    data: Vec<T>,
}

impl<T> ImageBuffer<T> {
    /// The buffer's width.
    pub closed spec fn width_spec(&self) -> u32 {
        self.width
    }

    /// The buffer's height.
    pub closed spec fn height_spec(&self) -> u32 {
        self.height
    }

    /// The pixels, row by row.
    pub closed spec fn pixels(&self) -> Seq<T> {
        self.data@
    }
}

impl ImageBuffer<Luma<u8>> {
    /// Allocates a `width` by `height` buffer of white pixels.
    pub fn new(width: u32, height: u32) -> (r: ImageBuffer<Luma<u8>>)
        requires
            width * height <= usize::MAX,
        ensures
            r.width_spec() == width,
            r.height_spec() == height,
            r.pixels().len() == width * height,
            forall|j: int| 0 <= j < r.pixels().len() ==> (#[trigger] r.pixels()[j]).data@[0] == 255,
    {
        let total: usize = (width as usize) * (height as usize);
        let mut data: Vec<Luma<u8>> = Vec::new();
        let mut i: usize = 0;
        while i < total
            invariant
                i <= total,
                data@.len() == i,
                forall|j: int| 0 <= j < i ==> (#[trigger] data@[j]).data@[0] == 255,
            decreases total - i,
        {
            data.push(Luma { data: [255] });
            i = i + 1;
        }
        ImageBuffer { width, height, data }
    }
}

} // verus!
