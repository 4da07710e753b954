//! Cubemap arrays: identifiers, faces and what an array was allocated with.

use vstd::prelude::*;
use crate::gpu::{mip_bytes, mip_memory, GpuTextureInternalFormat};
use crate::math::Extent2;

verus! {

/// The logical identifier of a cubemap array.
#[derive(Clone, Copy, Debug, PartialEq, Eq, Structural, Hash)]
pub struct CubemapArrayID(pub u32);

/// Picks one cubemap out of one array.
#[derive(Clone, Copy, Debug, PartialEq, Eq, Structural, Hash)]
pub struct CubemapSelector {
    pub array_id: CubemapArrayID,
    pub cubemap: u32,
}

/// One face of a cubemap.
#[derive(Clone, Copy, Debug, PartialEq, Eq, Structural, Hash)]
pub enum CubemapFace {
    PositiveX,
    NegativeX,
    PositiveY,
    NegativeY,
    PositiveZ,
    NegativeZ,
}

/// What a cubemap array is allocated with; fixed for the array's life.
#[derive(Clone, Copy, Debug, PartialEq, Eq, Structural, Hash)]
pub struct CubemapArrayInfo {
    pub nb_levels: u32,
    pub internal_format: GpuTextureInternalFormat,
    pub size: Extent2,
    pub nb_cubemaps: u32,
}

/// The number of the array of single-texel placeholders.
pub const RGB8_1L_1X1: u32 = 0;

pub const RGB8_1L_1024X1024: u32 = 1;

impl CubemapFace {
    /// The faces in the order in which a cubemap stores them.
    pub open spec fn at(index: int) -> CubemapFace {
        if index == 0 {
            CubemapFace::PositiveX
        } else if index == 1 {
            CubemapFace::NegativeX
        } else if index == 2 {
            CubemapFace::PositiveY
        } else if index == 3 {
            CubemapFace::NegativeY
        } else if index == 4 {
            CubemapFace::PositiveZ
        } else {
            CubemapFace::NegativeZ
        }
    }

    /// The file name suffix that Terragen gives the face: `ft`, `bk`, `up`,
    /// `dn`, `rt` and `lf`, in the order of the faces.
    pub open spec fn suffix_of(self) -> Seq<char> {
        match self {
            CubemapFace::PositiveX => "ft"@,
            CubemapFace::NegativeX => "bk"@,
            CubemapFace::PositiveY => "up"@,
            CubemapFace::NegativeY => "dn"@,
            CubemapFace::PositiveZ => "rt"@,
            CubemapFace::NegativeZ => "lf"@,
        }
    }

    /// The face with the given place in a cubemap, for a place below six.
    pub fn from_index(index: u32) -> (face: Option<CubemapFace>)
        ensures
            face == if index < 6 {
                Some(CubemapFace::at(index as int))
            } else {
                None
            },
    {
        match index {
            0 => Some(CubemapFace::PositiveX),
            1 => Some(CubemapFace::NegativeX),
            2 => Some(CubemapFace::PositiveY),
            3 => Some(CubemapFace::NegativeY),
            4 => Some(CubemapFace::PositiveZ),
            5 => Some(CubemapFace::NegativeZ),
            _ => None,
        }
    }

    /// The place of the face in a cubemap.
    pub fn index(&self) -> (index: u32)
        ensures
            index < 6,
            CubemapFace::at(index as int) == *self,
    {
        match self {
            CubemapFace::PositiveX => 0,
            CubemapFace::NegativeX => 1,
            CubemapFace::PositiveY => 2,
            CubemapFace::NegativeY => 3,
            CubemapFace::PositiveZ => 4,
            CubemapFace::NegativeZ => 5,
        }
    }

    pub fn terragen_suffix(&self) -> (suffix: &'static str)
        ensures
            suffix@ == self.suffix_of(),
    {
        match self {
            CubemapFace::PositiveX => "ft",
            CubemapFace::NegativeX => "bk",
            CubemapFace::PositiveY => "up",
            CubemapFace::NegativeY => "dn",
            CubemapFace::PositiveZ => "rt",
            CubemapFace::NegativeZ => "lf",
        }
    }
}

impl CubemapArrayInfo {
    /// The bytes that the array takes on the GPU: every level of the six
    /// faces of every cubemap.
    pub open spec fn memory_bytes(self) -> nat {
        mip_bytes(
            self.size.w as nat,
            self.size.h as nat,
            (self.internal_format.texel_bytes() * 6 * self.nb_cubemaps) as nat,
            self.nb_levels as nat,
        )
    }

    /// The bytes that the array takes on the GPU, or `None` where the number
    /// does not fit in 64 bits.
    pub fn memory_usage(&self) -> (bytes: Option<u64>)
        ensures
            bytes == if self.memory_bytes() <= u64::MAX {
                Some(self.memory_bytes() as u64)
            } else {
                None
            },
    {
        let faces: u64 = (self.internal_format.bytes_per_texel() as u64) * 6;
        assert(faces * (self.nb_cubemaps as u64) <= 24 * 0xffff_ffff) by (nonlinear_arith)
            requires
                faces <= 24,
                self.nb_cubemaps <= 0xffff_ffff,
        ;
        let unit: u64 = faces * (self.nb_cubemaps as u64);
        mip_memory(self.size.w, self.size.h, unit, self.nb_levels)
    }
}

} // verus!
