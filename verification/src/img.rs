//! What is known of a decoded image before its pixels are looked at.

use vstd::prelude::*;
use crate::math::Extent2;

verus! {

/// What the channels of a pixel mean.
#[derive(Debug, Copy, Clone, Hash, PartialEq, Eq, Structural)]
pub enum PixelSemantic {
    Gray,
    GrayAlpha,
    Rgb,
    Rgba,
}

/// The layout of one pixel: its channels and how many bits all of them take.
#[derive(Debug, Copy, Clone, Hash, PartialEq, Eq, Structural)]
pub struct PixelFormat {
    pub semantic: PixelSemantic,
    pub bits: u32,
}

/// Size and pixel layout of a decoded image.
#[derive(Debug, Copy, Clone, Hash, PartialEq, Eq, Structural)]
pub struct Metadata {
    pub size: Extent2,
    pub pixel_format: PixelFormat,
}

impl PixelFormat {
    pub fn new(semantic: PixelSemantic, bits: u32) -> (format: Self)
        ensures
            format == (PixelFormat { semantic, bits }),
    {
        PixelFormat { semantic, bits }
    }

    pub fn semantic(&self) -> (semantic: PixelSemantic)
        ensures
            semantic == self.semantic,
    {
        self.semantic
    }

    pub fn bits(&self) -> (bits: u32)
        ensures
            bits == self.bits,
    {
        self.bits
    }
}

} // verus!
