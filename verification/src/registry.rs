//! The texture arrays that exist on the GPU, and what each was allocated
//! with. An upload is checked against it before it is made.

use std::collections::HashMap;
use vstd::prelude::*;
use vstd::std_specs::hash::group_hash_axioms;
use crate::cubemap::{CubemapArrayID, CubemapArrayInfo, CubemapFace};
use crate::gpu::GpuTextureInternalFormat;
use crate::img::{Metadata, PixelFormat};
use crate::math::Extent2;
use crate::texture2d::{Texture2DArrayID, Texture2DArrayInfo};

verus! {

/// Why an image cannot be written into a texture array.
#[derive(Clone, Copy, Debug, PartialEq, Eq, Structural, Hash)]
#[allow(inconsistent_fields)]
pub enum UploadRefusal {
    /// No array of that identifier was created.
    UnknownArray,
    /// The array has `capacity` cubemaps or slots, and `index` is not one
    /// of them.
    OutOfCapacity { index: u32, capacity: u32 },
    /// The image does not have the size of the array's textures.
    ExtentMismatch { expected: Extent2, found: Extent2 },
    /// The image's pixels are not laid out as the array's texels.
    FormatMismatch { expected: GpuTextureInternalFormat, found: PixelFormat },
}

/// A write of a decoded image into one face of one cubemap of an array.
#[derive(Clone, Copy, Debug, PartialEq, Eq, Structural, Hash)]
pub struct CubemapFaceUpload {
    pub array_id: CubemapArrayID,
    pub cubemap_index: u32,
    pub face: CubemapFace,
}

/// A write of a decoded image into one slot of an array of 2D textures.
#[derive(Clone, Copy, Debug, PartialEq, Eq, Structural, Hash)]
pub struct Texture2DUpload {
    pub array_id: Texture2DArrayID,
    pub slot: u32,
}

/// Why an image of `metadata` cannot go to the place `index` of an array of
/// `capacity` places, textures of `size` and texels of `format`; `None`
/// where it can.
pub open spec fn refusal_for(
    size: Extent2,
    format: GpuTextureInternalFormat,
    capacity: u32,
    index: u32,
    metadata: Metadata,
) -> Option<UploadRefusal> {
    if index >= capacity {
        Some(UploadRefusal::OutOfCapacity { index, capacity })
    } else if metadata.size != size {
        Some(UploadRefusal::ExtentMismatch { expected: size, found: metadata.size })
    } else if metadata.pixel_format != format.pixel_format() {
        Some(UploadRefusal::FormatMismatch { expected: format, found: metadata.pixel_format })
    } else {
        None
    }
}

fn check_upload(
    size: Extent2,
    format: GpuTextureInternalFormat,
    capacity: u32,
    index: u32,
    metadata: Metadata,
) -> (refusal: Option<UploadRefusal>)
    ensures
        refusal == refusal_for(size, format, capacity, index, metadata),
{
    if index >= capacity {
        Some(UploadRefusal::OutOfCapacity { index, capacity })
    } else if metadata.size.w != size.w || metadata.size.h != size.h {
        Some(UploadRefusal::ExtentMismatch { expected: size, found: metadata.size })
    } else if !format.accepts(metadata.pixel_format) {
        Some(UploadRefusal::FormatMismatch { expected: format, found: metadata.pixel_format })
    } else {
        None
    }
}

/// The arrays that were created, by the number of their identifier.
pub struct TextureArrayRegistry {
    cubemap_arrays: HashMap<u32, CubemapArrayInfo>,
    texture2d_arrays: HashMap<u32, Texture2DArrayInfo>,
}

impl TextureArrayRegistry {
    /// The cubemap arrays that exist, by the number of their identifier.
    pub closed spec fn cubemap_arrays(&self) -> Map<u32, CubemapArrayInfo> {
        self.cubemap_arrays@
    }

    /// The arrays of 2D textures that exist, by the number of their
    /// identifier.
    pub closed spec fn texture2d_arrays(&self) -> Map<u32, Texture2DArrayInfo> {
        self.texture2d_arrays@
    }

    /// Why the image cannot go to that face; `None` where it can.
    pub open spec fn cubemap_refusal(
        &self,
        array_id: CubemapArrayID,
        cubemap_index: u32,
        metadata: Metadata,
    ) -> Option<UploadRefusal> {
        if !self.cubemap_arrays().contains_key(array_id.0) {
            Some(UploadRefusal::UnknownArray)
        } else {
            let info = self.cubemap_arrays()[array_id.0];
            refusal_for(info.size, info.internal_format, info.nb_cubemaps, cubemap_index, metadata)
        }
    }

    /// Why the image cannot go to that slot; `None` where it can.
    pub open spec fn texture2d_refusal(
        &self,
        array_id: Texture2DArrayID,
        slot: u32,
        metadata: Metadata,
    ) -> Option<UploadRefusal> {
        if !self.texture2d_arrays().contains_key(array_id.0) {
            Some(UploadRefusal::UnknownArray)
        } else {
            let info = self.texture2d_arrays()[array_id.0];
            refusal_for(info.size, info.internal_format, info.nb_slots, slot, metadata)
        }
    }

    pub fn new() -> (registry: Self)
        ensures
            registry.cubemap_arrays() == Map::<u32, CubemapArrayInfo>::empty(),
            registry.texture2d_arrays() == Map::<u32, Texture2DArrayInfo>::empty(),
    {
        TextureArrayRegistry { cubemap_arrays: HashMap::new(), texture2d_arrays: HashMap::new() }
    }

    /// Takes note of a new cubemap array. An array is created once: where
    /// the identifier is taken nothing changes and `false` comes back.
    pub fn cubemap_array_create(&mut self, id: CubemapArrayID, info: CubemapArrayInfo) -> (created:
        bool)
        ensures
            created == !old(self).cubemap_arrays().contains_key(id.0),
            final(self).cubemap_arrays() == if created {
                old(self).cubemap_arrays().insert(id.0, info)
            } else {
                old(self).cubemap_arrays()
            },
            final(self).texture2d_arrays() == old(self).texture2d_arrays(),
    {
        broadcast use group_hash_axioms;

        if self.cubemap_arrays.contains_key(&id.0) {
            false
        } else {
            self.cubemap_arrays.insert(id.0, info);
            true
        }
    }

    /// Takes note of a new array of 2D textures. An array is created once:
    /// where the identifier is taken nothing changes and `false` comes
    /// back.
    pub fn texture2d_array_create(
        &mut self,
        id: Texture2DArrayID,
        info: Texture2DArrayInfo,
    ) -> (created: bool)
        ensures
            created == !old(self).texture2d_arrays().contains_key(id.0),
            final(self).texture2d_arrays() == if created {
                old(self).texture2d_arrays().insert(id.0, info)
            } else {
                old(self).texture2d_arrays()
            },
            final(self).cubemap_arrays() == old(self).cubemap_arrays(),
    {
        broadcast use group_hash_axioms;

        if self.texture2d_arrays.contains_key(&id.0) {
            false
        } else {
            self.texture2d_arrays.insert(id.0, info);
            true
        }
    }

    /// What the cubemap array `id` was created with.
    pub fn cubemap_array_info(&self, id: CubemapArrayID) -> (info: Option<CubemapArrayInfo>)
        ensures
            info == if self.cubemap_arrays().contains_key(id.0) {
                Some(self.cubemap_arrays()[id.0])
            } else {
                None
            },
    {
        broadcast use group_hash_axioms;

        match self.cubemap_arrays.get(&id.0) {
            Some(info) => Some(*info),
            None => None,
        }
    }

    /// What the array of 2D textures `id` was created with.
    pub fn texture2d_array_info(&self, id: Texture2DArrayID) -> (info: Option<Texture2DArrayInfo>)
        ensures
            info == if self.texture2d_arrays().contains_key(id.0) {
                Some(self.texture2d_arrays()[id.0])
            } else {
                None
            },
    {
        broadcast use group_hash_axioms;

        match self.texture2d_arrays.get(&id.0) {
            Some(info) => Some(*info),
            None => None,
        }
    }

    /// Checks a write of an image of `metadata` into one face of a cubemap:
    /// the array must exist, have that cubemap, and have textures of the
    /// image's size and layout. Where all holds, the write to make comes
    /// back.
    pub fn cubemap_array_sub_image_2d(
        &self,
        array_id: CubemapArrayID,
        cubemap_index: u32,
        face: CubemapFace,
        metadata: Metadata,
    ) -> (res: Result<CubemapFaceUpload, UploadRefusal>)
        ensures
            res == match self.cubemap_refusal(array_id, cubemap_index, metadata) {
                Some(refusal) => Err::<CubemapFaceUpload, UploadRefusal>(refusal),
                None => Ok(CubemapFaceUpload { array_id, cubemap_index, face }),
            },
    {
        match self.cubemap_array_info(array_id) {
            None => Err(UploadRefusal::UnknownArray),
            Some(info) => match check_upload(
                info.size,
                info.internal_format,
                info.nb_cubemaps,
                cubemap_index,
                metadata,
            ) {
                Some(refusal) => Err(refusal),
                None => Ok(CubemapFaceUpload { array_id, cubemap_index, face }),
            },
        }
    }

    /// Checks a write of an image of `metadata` into one slot: the array
    /// must exist, have that slot, and have textures of the image's size and
    /// layout. Where all holds, the write to make comes back.
    pub fn texture2d_array_sub_image_2d(
        &self,
        array_id: Texture2DArrayID,
        slot: u32,
        metadata: Metadata,
    ) -> (res: Result<Texture2DUpload, UploadRefusal>)
        ensures
            res == match self.texture2d_refusal(array_id, slot, metadata) {
                Some(refusal) => Err::<Texture2DUpload, UploadRefusal>(refusal),
                None => Ok(Texture2DUpload { array_id, slot }),
            },
    {
        match self.texture2d_array_info(array_id) {
            None => Err(UploadRefusal::UnknownArray),
            Some(info) => match check_upload(
                info.size,
                info.internal_format,
                info.nb_slots,
                slot,
                metadata,
            ) {
                Some(refusal) => Err(refusal),
                None => Ok(Texture2DUpload { array_id, slot }),
            },
        }
    }
}

} // verus!
