use vstd::prelude::*;

verus! {

/// Width and height of a render target, in pixels.
///
/// Both extents are positive: a zero-sized target is rejected at
/// construction.
#[derive(Clone, Copy)]
pub struct Size {
    pub width: u32,
    pub height: u32,
}

impl Size {
    /// Number of pixels in a target of this size.
    pub open spec fn area(&self) -> int {
        self.width * self.height
    }

    pub fn new(width: u32, height: u32) -> (size: Self)
        requires
            width > 0,
            height > 0,
        ensures
            size.width == width,
            size.height == height,
    {
        Self { width, height }
    }

    pub fn get_area(&self) -> (area: u32)
        requires
            self.width * self.height <= u32::MAX,
        ensures
            area == self.area(),
    {
        self.width * self.height
    }
}

} // verus!
