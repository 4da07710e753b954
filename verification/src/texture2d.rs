//! Arrays of 2D textures: identifiers and what an array was allocated with.

use vstd::prelude::*;
use crate::gpu::{mip_bytes, mip_memory, GpuTextureInternalFormat};
use crate::math::Extent2;

verus! {

/// The logical identifier of an array of 2D textures.
#[derive(Clone, Copy, Debug, PartialEq, Eq, Structural, Hash)]
pub struct Texture2DArrayID(pub u32);

/// What an array of 2D textures is allocated with; fixed for the array's
/// life.
#[derive(Clone, Copy, Debug, PartialEq, Eq, Structural, Hash)]
pub struct Texture2DArrayInfo {
    pub nb_levels: u32,
    pub internal_format: GpuTextureInternalFormat,
    pub size: Extent2,
    pub nb_slots: u32,
}

/// The number of the array of single-texel placeholders.
pub const RGB8_1L_1X1: u32 = 0;

pub const RGB8_1L_1024X1024: u32 = 1;

pub const RGB8_1L_256X256: u32 = 2;

impl Texture2DArrayInfo {
    /// The bytes that the array takes on the GPU: every level of every slot.
    pub open spec fn memory_bytes(self) -> nat {
        mip_bytes(
            self.size.w as nat,
            self.size.h as nat,
            (self.internal_format.texel_bytes() * self.nb_slots) as nat,
            self.nb_levels as nat,
        )
    }

    /// The bytes that the array takes on the GPU, or `None` where the number
    /// does not fit in 64 bits.
    pub fn memory_usage(&self) -> (bytes: Option<u64>)
        ensures
            bytes == if self.memory_bytes() <= u64::MAX {
                Some(self.memory_bytes() as u64)
            } else {
                None
            },
    {
        let texel: u64 = self.internal_format.bytes_per_texel() as u64;
        assert(texel * (self.nb_slots as u64) <= 4 * 0xffff_ffff) by (nonlinear_arith)
            requires
                texel <= 4,
                self.nb_slots <= 0xffff_ffff,
        ;
        let unit: u64 = texel * (self.nb_slots as u64);
        mip_memory(self.size.w, self.size.h, unit, self.nb_levels)
    }
}

} // verus!
