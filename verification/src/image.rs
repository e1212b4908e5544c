use vstd::prelude::*;

verus! {

/// The format from which a frame was decoded.
#[derive(Copy, Clone, PartialEq, Eq, Structural, Debug)]
pub enum Type {
    JPEG,
    PNG,
}

/// One decoded frame: its pixels, row by row, the format it came from and its
/// size in pixels.
#[derive(Clone, Debug)]
pub struct Image {
    pub bytes: Vec<u8>,
    pub image_type: Type,
    pub width: i32,
    pub height: i32,
}

impl Image {
    pub fn new(bytes: Vec<u8>, image_type: Type, width: i32, height: i32) -> (image: Image)
        ensures
            image.bytes == bytes,
            image.image_type == image_type,
            image.width == width,
            image.height == height,
    {
        Image { bytes, image_type, width, height }
    }

    /// Whether the frame is exactly `width` by `height`.
    pub open spec fn fits(self, width: i32, height: i32) -> bool {
        self.width == width && self.height == height
    }

    pub fn has_size(&self, width: i32, height: i32) -> (b: bool)
        ensures
            b == self.fits(width, height),
    {
        self.width == width && self.height == height
    }
}

} // verus!
