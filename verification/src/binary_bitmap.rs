//! Rectangular regions of an image, as the search hands them to a decoder.

use vstd::prelude::*;

verus! {

/// A rectangular region of an image of type `S`. The region knows where in
/// the image it lies; its own coordinates start at `(0, 0)` in its top left
/// corner. Regions share the image and never change it.
#[derive(Debug)]
pub struct BinaryBitmap<'a, S> {
    source: &'a S,
    left: u32,
    top: u32,
    width: u32,
    height: u32,
}

impl<'a, S> BinaryBitmap<'a, S> {
    #[verifier::type_invariant]
    spec fn within_reach(self) -> bool {
        &&& self.left + self.width <= u32::MAX
        &&& self.top + self.height <= u32::MAX
    }

    /// The image that this is a region of.
    pub closed spec fn spec_source(self) -> &'a S {
        self.source
    }

    /// Column of the image at which the region starts.
    pub closed spec fn spec_left(self) -> u32 {
        self.left
    }

    /// Row of the image at which the region starts.
    pub closed spec fn spec_top(self) -> u32 {
        self.top
    }

    /// Width of the region in pixels.
    pub closed spec fn spec_width(self) -> u32 {
        self.width
    }

    /// Height of the region in pixels.
    pub closed spec fn spec_height(self) -> u32 {
        self.height
    }

    /// The whole of an image that is `width` pixels wide and `height` pixels high.
    pub fn new(source: &'a S, width: u32, height: u32) -> (image: Self)
        ensures
            image.spec_source() == source,
            image.spec_left() == 0,
            image.spec_top() == 0,
            image.spec_width() == width,
            image.spec_height() == height,
    {
        BinaryBitmap { source, left: 0, top: 0, width, height }
    }

    /// The image that this is a region of.
    pub fn get_source(&self) -> (source: &'a S)
        ensures
            source == self.spec_source(),
    {
        self.source
    }

    /// Column of the image at which the region starts.
    pub fn get_left(&self) -> (left: u32)
        ensures
            left == self.spec_left(),
    {
        self.left
    }

    /// Row of the image at which the region starts.
    pub fn get_top(&self) -> (top: u32)
        ensures
            top == self.spec_top(),
    {
        self.top
    }

    /// Width of the region in pixels.
    pub fn get_width(&self) -> (width: u32)
        ensures
            width == self.spec_width(),
    {
        self.width
    }

    /// Height of the region in pixels.
    pub fn get_height(&self) -> (height: u32)
        ensures
            height == self.spec_height(),
    {
        self.height
    }

    /// The part of this region that starts at its column `left` and its row
    /// `top` and is `width` pixels wide and `height` pixels high, as a region
    /// of its own. The part must lie within this region.
    pub fn crop(&self, left: u32, top: u32, width: u32, height: u32) -> (part: Self)
        requires
            left + width <= self.spec_width(),
            top + height <= self.spec_height(),
        ensures
            part.spec_source() == self.spec_source(),
            part.spec_left() == self.spec_left() + left,
            part.spec_top() == self.spec_top() + top,
            part.spec_width() == width,
            part.spec_height() == height,
    {
        proof {
            use_type_invariant(self);
        }
        BinaryBitmap {
            source: self.source,
            left: self.left + left,
            top: self.top + top,
            width,
            height,
        }
    }
}

} // verus!
