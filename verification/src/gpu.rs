//! Texture formats and filters, and the commands that the GPU side carries
//! out.

use vstd::prelude::*;
use crate::cubemap::{CubemapArrayID, CubemapArrayInfo, CubemapFace};
use crate::img::{PixelFormat, PixelSemantic};
use crate::math::{Rgb, Rgba};
use crate::texture2d::{Texture2DArrayID, Texture2DArrayInfo};

verus! {

/// The texel layout of a texture array on the GPU: 8 bits for each channel.
#[derive(Clone, Copy, Debug, PartialEq, Eq, Structural, Hash)]
pub enum GpuTextureInternalFormat {
    R8,
    RG8,
    RGB8,
    RGBA8,
}

/// How a texture is sampled between texels.
#[derive(Clone, Copy, Debug, PartialEq, Eq, Structural, Hash)]
pub enum GpuTextureFilter {
    Nearest,
    Linear,
}

/// One call on the GPU texture arrays. The library decides which calls are
/// due and in which order; the caller makes them.
#[derive(Clone, Copy, Debug, PartialEq, Eq, Structural, Hash)]
#[allow(inconsistent_fields)]
pub enum GpuCommand {
    CubemapArrayCreate { id: CubemapArrayID, info: CubemapArrayInfo },
    Texture2DArrayCreate { id: Texture2DArrayID, info: Texture2DArrayInfo },
    CubemapArrayClear { id: CubemapArrayID, level: u32, color: Rgba },
    Texture2DArrayClear { id: Texture2DArrayID, level: u32, color: Rgba },
    CubemapArraySetMinFilter { id: CubemapArrayID, filter: GpuTextureFilter },
    CubemapArraySetMagFilter { id: CubemapArrayID, filter: GpuTextureFilter },
    Texture2DArraySetMinFilter { id: Texture2DArrayID, filter: GpuTextureFilter },
    Texture2DArraySetMagFilter { id: Texture2DArrayID, filter: GpuTextureFilter },
    /// Fill one face of one cubemap with a single colour.
    CubemapArraySubImage2D { id: CubemapArrayID, cubemap: u32, face: CubemapFace, pixel: Rgb },
    /// Fill one slot with a single colour.
    Texture2DArraySubImage2D { id: Texture2DArrayID, slot: u32, pixel: Rgb },
}

impl GpuTextureInternalFormat {
    /// The bytes that one texel takes.
    pub open spec fn texel_bytes(self) -> nat {
        match self {
            GpuTextureInternalFormat::R8 => 1,
            GpuTextureInternalFormat::RG8 => 2,
            GpuTextureInternalFormat::RGB8 => 3,
            GpuTextureInternalFormat::RGBA8 => 4,
        }
    }

    /// The pixel layout that an image must have to be uploaded as it is.
    pub open spec fn pixel_format(self) -> PixelFormat {
        match self {
            GpuTextureInternalFormat::R8 => PixelFormat { semantic: PixelSemantic::Gray, bits: 8 },
            GpuTextureInternalFormat::RG8 => PixelFormat {
                semantic: PixelSemantic::GrayAlpha,
                bits: 16,
            },
            GpuTextureInternalFormat::RGB8 => PixelFormat { semantic: PixelSemantic::Rgb, bits: 24 },
            GpuTextureInternalFormat::RGBA8 => PixelFormat {
                semantic: PixelSemantic::Rgba,
                bits: 32,
            },
        }
    }

    pub fn bytes_per_texel(&self) -> (bytes: u32)
        ensures
            bytes == self.texel_bytes(),
    {
        match self {
            GpuTextureInternalFormat::R8 => 1,
            GpuTextureInternalFormat::RG8 => 2,
            GpuTextureInternalFormat::RGB8 => 3,
            GpuTextureInternalFormat::RGBA8 => 4,
        }
    }

    /// Whether an image of the layout `format` can be uploaded as it is.
    pub fn accepts(&self, format: PixelFormat) -> (b: bool)
        ensures
            b == (format == self.pixel_format()),
    {
        let (semantic, bits): (PixelSemantic, u32) = match self {
            GpuTextureInternalFormat::R8 => (PixelSemantic::Gray, 8),
            GpuTextureInternalFormat::RG8 => (PixelSemantic::GrayAlpha, 16),
            GpuTextureInternalFormat::RGB8 => (PixelSemantic::Rgb, 24),
            GpuTextureInternalFormat::RGBA8 => (PixelSemantic::Rgba, 32),
        };
        format.semantic == semantic && format.bits == bits
    }
}

/// The bytes of `levels` levels of detail, the first of `w` by `h` texels,
/// where `unit` bytes go into each texel of a level. Each level has half
/// the width and half the height of the one before, but no less than one.
pub open spec fn mip_bytes(w: nat, h: nat, unit: nat, levels: nat) -> nat
    decreases levels,
{
    if levels == 0 {
        0
    } else {
        w * h * unit + mip_bytes(half_side(w), half_side(h), unit, (levels - 1) as nat)
    }
}

/// The side of the next level of detail.
pub open spec fn half_side(side: nat) -> nat {
    if side / 2 == 0 {
        1
    } else {
        side / 2
    }
}

/// Computes `mip_bytes`, or `None` where it does not fit in 64 bits.
pub fn mip_memory(w: u32, h: u32, unit: u64, levels: u32) -> (bytes: Option<u64>)
    ensures
        bytes == if mip_bytes(w as nat, h as nat, unit as nat, levels as nat) <= u64::MAX {
            Some(mip_bytes(w as nat, h as nat, unit as nat, levels as nat) as u64)
        } else {
            None
        },
{
    let ghost total = mip_bytes(w as nat, h as nat, unit as nat, levels as nat);
    let mut acc: u64 = 0;
    let mut cw: u32 = w;
    let mut ch: u32 = h;
    let mut left: u32 = levels;
    while left > 0
        invariant
            total == mip_bytes(w as nat, h as nat, unit as nat, levels as nat),
            acc + mip_bytes(cw as nat, ch as nat, unit as nat, left as nat) == total,
        decreases left,
    {
        assert((cw as u64) * (ch as u64) <= u64::MAX) by (nonlinear_arith)
            requires
                cw <= u32::MAX,
                ch <= u32::MAX,
        ;
        let texels: u64 = (cw as u64) * (ch as u64);
        let ghost rest = mip_bytes(
            half_side(cw as nat),
            half_side(ch as nat),
            unit as nat,
            (left - 1) as nat,
        );
        assert(mip_bytes(cw as nat, ch as nat, unit as nat, left as nat) == (cw as nat) * (
        ch as nat) * (unit as nat) + rest);
        assert((cw as nat) * (ch as nat) * (unit as nat) == texels * unit);
        let level = match texels.checked_mul(unit) {
            Some(level) => level,
            None => {
                return None;
            },
        };
        acc = match acc.checked_add(level) {
            Some(sum) => sum,
            None => {
                return None;
            },
        };
        cw = if cw / 2 == 0 {
            1
        } else {
            cw / 2
        };
        ch = if ch / 2 == 0 {
            1
        } else {
            ch / 2
        };
        left -= 1;
    }
    Some(acc)
}

} // verus!
