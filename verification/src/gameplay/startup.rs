//! What is set up before the first frame: the texture arrays, their
//! placeholders, and one request for every file that is to be streamed in.

use vstd::prelude::*;
use vstd::string::StringExecFns;
use crate::cubemap;
use crate::cubemap::{CubemapArrayID, CubemapArrayInfo, CubemapFace, CubemapSelector};
use crate::gpu::{mip_bytes, GpuCommand, GpuTextureFilter, GpuTextureInternalFormat};
use crate::math::{Extent2, Rgb, Rgba};
use crate::registry::TextureArrayRegistry;
use crate::texture2d;
use crate::texture2d::{Texture2DArrayID, Texture2DArrayInfo};
use crate::viewport::{ViewportDB, ViewportInfo};
use crate::viewport::laws::lemma_leaf_record;
use super::{CubemapFaceRequest, Gameplay, Texture2DRequest};

verus! {

/// Use at most 512 MiB in total on the GPU.
pub const MAX_MEM: u64 = 536_870_912;

/// At most 2 MiB of scratch space, for what cannot be planned.
pub const SCRATCH_MEM: u64 = 2_097_152;

/// The chunks of the world that may be resident at once: three along each
/// axis.
pub const MAX_CHUNKS: u64 = 27;

/// The memory of one chunk: 8 MiB.
pub const CHUNK_MEM: u64 = 8_388_608;

/// How many skyboxes are streamed in from files.
pub const NB_SKYBOXES: u32 = 4;

/// How many 2D textures are streamed in from files.
pub const NB_TEXTURES: u32 = 3;

/// What `Gameplay::new` hands back.
pub struct Startup<F> {
    /// The requests, none of them with a task yet: `Gameplay::schedule`
    /// hands each its task.
    pub gameplay: Gameplay<F>,
    /// The arrays that the commands create.
    pub arrays: TextureArrayRegistry,
    /// The calls to make on the GPU, in this order, before the first frame.
    pub commands: Vec<GpuCommand>,
    /// The bytes that the arrays take on the GPU.
    pub tex_mem: u64,
}

pub open spec fn cubemap_1x1_info() -> CubemapArrayInfo {
    CubemapArrayInfo {
        nb_levels: 1,
        internal_format: GpuTextureInternalFormat::RGB8,
        size: Extent2 { w: 1, h: 1 },
        nb_cubemaps: 16,
    }
}

pub open spec fn cubemap_1024_info() -> CubemapArrayInfo {
    CubemapArrayInfo {
        nb_levels: 1,
        internal_format: GpuTextureInternalFormat::RGB8,
        size: Extent2 { w: 1024, h: 1024 },
        nb_cubemaps: 6,
    }
}

pub open spec fn texture2d_1x1_info() -> Texture2DArrayInfo {
    Texture2DArrayInfo {
        nb_levels: 1,
        internal_format: GpuTextureInternalFormat::RGB8,
        size: Extent2 { w: 1, h: 1 },
        nb_slots: 2,
    }
}

pub open spec fn texture2d_256_info() -> Texture2DArrayInfo {
    Texture2DArrayInfo {
        nb_levels: 1,
        internal_format: GpuTextureInternalFormat::RGB8,
        size: Extent2 { w: 256, h: 256 },
        nb_slots: 3,
    }
}

pub open spec fn texture2d_1024_info() -> Texture2DArrayInfo {
    Texture2DArrayInfo {
        nb_levels: 1,
        internal_format: GpuTextureInternalFormat::RGB8,
        size: Extent2 { w: 1024, h: 1024 },
        nb_slots: 2,
    }
}

/// The cubemap arrays that exist after startup.
pub open spec fn startup_cubemap_arrays() -> Map<u32, CubemapArrayInfo> {
    Map::empty().insert(cubemap::RGB8_1L_1X1, cubemap_1x1_info()).insert(
        cubemap::RGB8_1L_1024X1024,
        cubemap_1024_info(),
    )
}

/// The arrays of 2D textures that exist after startup.
pub open spec fn startup_texture2d_arrays() -> Map<u32, Texture2DArrayInfo> {
    Map::empty().insert(texture2d::RGB8_1L_1X1, texture2d_1x1_info()).insert(
        texture2d::RGB8_1L_256X256,
        texture2d_256_info(),
    ).insert(texture2d::RGB8_1L_1024X1024, texture2d_1024_info())
}

/// The bytes that the startup arrays take on the GPU.
pub open spec fn startup_tex_mem() -> nat {
    cubemap_1x1_info().memory_bytes() + cubemap_1024_info().memory_bytes()
        + texture2d_1x1_info().memory_bytes() + texture2d_256_info().memory_bytes()
        + texture2d_1024_info().memory_bytes()
}

/// The colour of one face of one of the six single-texel cubemaps: a black
/// one, a white one, one with a colour for each face, a sky, a sunset, and
/// another white one.
pub open spec fn placeholder_color(cubemap: int, face: int) -> Rgb {
    let black = Rgb { r: 0, g: 0, b: 0 };
    let white = Rgb { r: 255, g: 255, b: 255 };
    let red = Rgb { r: 255, g: 0, b: 0 };
    let green = Rgb { r: 0, g: 255, b: 0 };
    let blue = Rgb { r: 0, g: 0, b: 255 };
    let cyan = Rgb { r: 0, g: 255, b: 255 };
    let magenta = Rgb { r: 255, g: 0, b: 255 };
    let yellow = Rgb { r: 255, g: 255, b: 0 };
    let orange = Rgb { r: 255, g: 175, b: 45 };
    if cubemap == 0 {
        black
    } else if cubemap == 2 {
        if face == 0 {
            red
        } else if face == 1 {
            cyan
        } else if face == 2 {
            green
        } else if face == 3 {
            magenta
        } else if face == 4 {
            blue
        } else {
            yellow
        }
    } else if cubemap == 3 {
        if face == 2 {
            blue
        } else if face == 3 {
            white
        } else {
            cyan
        }
    } else if cubemap == 4 {
        if face == 2 {
            red
        } else if face == 3 {
            yellow
        } else {
            orange
        }
    } else {
        white
    }
}

/// The write of the placeholder for the `k`-th face, counting the faces of
/// the first cubemap, then those of the second, and so on.
pub open spec fn placeholder_upload(k: int) -> GpuCommand {
    GpuCommand::CubemapArraySubImage2D {
        id: CubemapArrayID(cubemap::RGB8_1L_1X1),
        cubemap: (k / 6) as u32,
        face: CubemapFace::at(k % 6),
        pixel: placeholder_color(k / 6, k % 6),
    }
}

/// The commands before the placeholder writes: the five arrays are created,
/// and the array of single-texel cubemaps is cleared and set to be sampled
/// without blending.
pub open spec fn commands_before_placeholders() -> Seq<GpuCommand> {
    let c1 = CubemapArrayID(cubemap::RGB8_1L_1X1);
    seq![
        GpuCommand::CubemapArrayCreate { id: c1, info: cubemap_1x1_info() },
        GpuCommand::CubemapArrayCreate {
            id: CubemapArrayID(cubemap::RGB8_1L_1024X1024),
            info: cubemap_1024_info(),
        },
        GpuCommand::Texture2DArrayCreate {
            id: Texture2DArrayID(texture2d::RGB8_1L_1X1),
            info: texture2d_1x1_info(),
        },
        GpuCommand::Texture2DArrayCreate {
            id: Texture2DArrayID(texture2d::RGB8_1L_256X256),
            info: texture2d_256_info(),
        },
        GpuCommand::Texture2DArrayCreate {
            id: Texture2DArrayID(texture2d::RGB8_1L_1024X1024),
            info: texture2d_1024_info(),
        },
        GpuCommand::CubemapArrayClear {
            id: c1,
            level: 0,
            color: Rgba { r: 255, g: 0, b: 255, a: 255 },
        },
        GpuCommand::CubemapArraySetMinFilter { id: c1, filter: GpuTextureFilter::Nearest },
        GpuCommand::CubemapArraySetMagFilter { id: c1, filter: GpuTextureFilter::Nearest },
    ]
}

/// The commands after the placeholder writes: the large cubemaps and the 2D
/// textures are cleared and get their filters, and the two single-texel
/// textures are written, a black one and a white one.
pub open spec fn commands_after_placeholders() -> Seq<GpuCommand> {
    let c2 = CubemapArrayID(cubemap::RGB8_1L_1024X1024);
    let t1 = Texture2DArrayID(texture2d::RGB8_1L_1X1);
    let t2 = Texture2DArrayID(texture2d::RGB8_1L_256X256);
    let t3 = Texture2DArrayID(texture2d::RGB8_1L_1024X1024);
    let cyan = Rgba { r: 0, g: 255, b: 255, a: 255 };
    seq![
        GpuCommand::CubemapArrayClear {
            id: c2,
            level: 0,
            color: Rgba { r: 255, g: 0, b: 255, a: 255 },
        },
        GpuCommand::CubemapArraySetMinFilter { id: c2, filter: GpuTextureFilter::Linear },
        GpuCommand::CubemapArraySetMagFilter { id: c2, filter: GpuTextureFilter::Linear },
        GpuCommand::Texture2DArrayClear { id: t1, level: 0, color: cyan },
        GpuCommand::Texture2DArrayClear { id: t2, level: 0, color: cyan },
        GpuCommand::Texture2DArrayClear { id: t3, level: 0, color: cyan },
        GpuCommand::Texture2DArraySetMinFilter { id: t1, filter: GpuTextureFilter::Nearest },
        GpuCommand::Texture2DArraySetMagFilter { id: t1, filter: GpuTextureFilter::Nearest },
        GpuCommand::Texture2DArraySetMinFilter { id: t2, filter: GpuTextureFilter::Linear },
        GpuCommand::Texture2DArraySetMinFilter { id: t2, filter: GpuTextureFilter::Linear },
        GpuCommand::Texture2DArraySetMinFilter { id: t3, filter: GpuTextureFilter::Linear },
        GpuCommand::Texture2DArraySetMagFilter { id: t3, filter: GpuTextureFilter::Linear },
        GpuCommand::Texture2DArraySubImage2D { id: t1, slot: 0, pixel: Rgb { r: 0, g: 0, b: 0 } },
        GpuCommand::Texture2DArraySubImage2D {
            id: t1,
            slot: 1,
            pixel: Rgb { r: 255, g: 255, b: 255 },
        },
    ]
}

/// All the commands of startup, in the order in which they are due.
pub open spec fn startup_commands() -> Seq<GpuCommand> {
    commands_before_placeholders() + Seq::new(36, |k: int| placeholder_upload(k))
        + commands_after_placeholders()
}

/// The name of the `i`-th skybox.
pub open spec fn skybox_name(i: int) -> Seq<char> {
    if i == 0 {
        "grouse"@
    } else if i == 1 {
        "aqua4"@
    } else if i == 2 {
        "h2s"@
    } else {
        "flame"@
    }
}

/// The file of one face of one skybox, below the data directory.
pub open spec fn skybox_path(i: int, face: CubemapFace) -> Seq<char> {
    "art/3rdparty/mayhem/"@ + skybox_name(i) + "_"@ + face.suffix_of() + "."@ + "jpg"@
}

/// The file name of the `i`-th 2D texture.
pub open spec fn texture_name(i: int) -> Seq<char> {
    if i == 0 {
        "maze.png"@
    } else if i == 1 {
        "plasma.png"@
    } else {
        "checkerboard.png"@
    }
}

/// The file of the `i`-th 2D texture, below the data directory.
pub open spec fn texture_path(i: int) -> Seq<char> {
    "art/tex2d/"@ + texture_name(i)
}

/// The `k`-th cubemap face request of startup: face `k % 6` of skybox
/// `k / 6`, to go to the same face of the cubemap of the same number.
pub open spec fn is_startup_face_request<F>(request: CubemapFaceRequest<F>, k: int) -> bool {
    &&& request.future is None
    &&& request.path@ == skybox_path(k / 6, CubemapFace::at(k % 6))
    &&& request.array_id == CubemapArrayID(cubemap::RGB8_1L_1024X1024)
    &&& request.cubemap_index == k / 6
    &&& request.face == CubemapFace::at(k % 6)
}

/// The `k`-th 2D texture request of startup: texture `k`, to go to slot `k`.
pub open spec fn is_startup_texture_request<F>(request: Texture2DRequest<F>, k: int) -> bool {
    &&& request.future is None
    &&& request.path@ == texture_path(k)
    &&& request.array_id == Texture2DArrayID(texture2d::RGB8_1L_256X256)
    &&& request.slot == k
}

fn skybox_name_of(i: u32) -> (name: &'static str)
    ensures
        name@ == skybox_name(i as int),
{
    match i {
        0 => "grouse",
        1 => "aqua4",
        2 => "h2s",
        _ => "flame",
    }
}

fn texture_name_of(i: u32) -> (name: &'static str)
    ensures
        name@ == texture_name(i as int),
{
    match i {
        0 => "maze.png",
        1 => "plasma.png",
        _ => "checkerboard.png",
    }
}

fn placeholder_color_of(cubemap: u32, face: u32) -> (color: Rgb)
    ensures
        color == placeholder_color(cubemap as int, face as int),
{
    let orange = Rgb::new(255, 175, 45);
    match cubemap {
        0 => Rgb::new(0, 0, 0),
        2 => match face {
            0 => Rgb::new(255, 0, 0),
            1 => Rgb::new(0, 255, 255),
            2 => Rgb::new(0, 255, 0),
            3 => Rgb::new(255, 0, 255),
            4 => Rgb::new(0, 0, 255),
            _ => Rgb::new(255, 255, 0),
        },
        3 => match face {
            2 => Rgb::new(0, 0, 255),
            3 => Rgb::new(255, 255, 255),
            _ => Rgb::new(0, 255, 255),
        },
        4 => match face {
            2 => Rgb::new(255, 0, 0),
            3 => Rgb::new(255, 255, 0),
            _ => orange,
        },
        _ => Rgb::new(255, 255, 255),
    }
}

fn face_of(index: u32) -> (face: CubemapFace)
    requires
        index < 6,
    ensures
        face == CubemapFace::at(index as int),
{
    match CubemapFace::from_index(index) {
        Some(face) => face,
        None => CubemapFace::NegativeZ,
    }
}

/// The arrays of startup take less than the memory that is left for them.
pub proof fn lemma_startup_memory()
    ensures
        cubemap_1x1_info().memory_bytes() == 288,
        cubemap_1024_info().memory_bytes() == 113246208,
        texture2d_1x1_info().memory_bytes() == 6,
        texture2d_256_info().memory_bytes() == 589824,
        texture2d_1024_info().memory_bytes() == 6291456,
        startup_tex_mem() == 120127782,
        startup_tex_mem() + SCRATCH_MEM + MAX_CHUNKS * CHUNK_MEM <= MAX_MEM,
{
    reveal_with_fuel(mip_bytes, 2);
    assert(GpuTextureInternalFormat::RGB8.texel_bytes() == 3);
    assert(cubemap_1x1_info().memory_bytes() == mip_bytes(1, 1, 288, 1));
    assert(cubemap_1024_info().memory_bytes() == mip_bytes(1024, 1024, 108, 1));
    assert(texture2d_1x1_info().memory_bytes() == mip_bytes(1, 1, 6, 1));
    assert(texture2d_256_info().memory_bytes() == mip_bytes(256, 256, 9, 1));
    assert(texture2d_1024_info().memory_bytes() == mip_bytes(1024, 1024, 6, 1));
    assert(mip_bytes(1, 1, 288, 1) == 1 * 1 * 288);
    assert(mip_bytes(1024, 1024, 108, 1) == 1024 * 1024 * 108);
    assert(mip_bytes(1, 1, 6, 1) == 1 * 1 * 6);
    assert(mip_bytes(256, 256, 9, 1) == 256 * 256 * 9);
    assert(mip_bytes(1024, 1024, 6, 1) == 1024 * 1024 * 6);
    assert(MAX_CHUNKS * CHUNK_MEM == 226492416);
}

impl<F> Gameplay<F> {
    /// Sets up the streaming of the skyboxes and textures.
    ///
    /// The root viewport gets the first streamed skybox to show. Five texture
    /// arrays are created and the commands that fill them with placeholders
    /// are drawn up. One request is made for each of the six faces of the
    /// four skyboxes and for each of the three textures; every request goes
    /// to a cubemap or slot that its array has. The memory of the arrays,
    /// with the scratch space and the chunks, stays within `MAX_MEM`.
    ///
    /// The requests come back without tasks. The caller starts one task for
    /// each, in queue order, and hands them over with `Gameplay::schedule`.
    pub fn new(db: &mut ViewportDB) -> (out: Startup<F>)
        requires
            old(db).wf(),
            old(db)@.tree.has_leaf(old(db)@.root),
        ensures
            final(db).wf(),
            final(db)@ == old(db)@.set_leaf_info(
                old(db)@.root,
                ViewportInfo {
                    skybox_cubemap_selector: Some(
                        CubemapSelector {
                            array_id: CubemapArrayID(cubemap::RGB8_1L_1024X1024),
                            cubemap: 0,
                        },
                    ),
                    ..old(db)@.leaf_info(old(db)@.root)
                },
            ),
            out.arrays.cubemap_arrays() == startup_cubemap_arrays(),
            out.arrays.texture2d_arrays() == startup_texture2d_arrays(),
            out.commands@ == startup_commands(),
            out.tex_mem == startup_tex_mem(),
            out.tex_mem + SCRATCH_MEM + MAX_CHUNKS * CHUNK_MEM <= MAX_MEM,
            out.gameplay.cubemap_face_requests@.len() == 6 * NB_SKYBOXES,
            forall|k: int|
                0 <= k < 6 * NB_SKYBOXES ==> is_startup_face_request(
                    #[trigger] out.gameplay.cubemap_face_requests@[k],
                    k,
                ),
            forall|k: int|
                0 <= k < 6 * NB_SKYBOXES ==> #[trigger] out.gameplay.face_fits(out.arrays, k),
            out.gameplay.texture2d_requests@.len() == NB_TEXTURES,
            forall|k: int|
                0 <= k < NB_TEXTURES ==> is_startup_texture_request(
                    #[trigger] out.gameplay.texture2d_requests@[k],
                    k,
                ),
            forall|k: int|
                0 <= k < NB_TEXTURES ==> #[trigger] out.gameplay.texture_fits(out.arrays, k),
    {
        let root = db.root();
        proof {
            lemma_leaf_record(db@, root);
        }
        let root_node = db.root_node();
        let shown = *root_node.value.unwrap_leaf();
        db.set_leaf_info(
            root,
            ViewportInfo {
                clear_color: shown.clear_color,
                skybox_cubemap_selector: Some(
                    CubemapSelector {
                        array_id: CubemapArrayID(cubemap::RGB8_1L_1024X1024),
                        cubemap: 0,
                    },
                ),
            },
        );

        let c1 = CubemapArrayID(cubemap::RGB8_1L_1X1);
        let c2 = CubemapArrayID(cubemap::RGB8_1L_1024X1024);
        let t1 = Texture2DArrayID(texture2d::RGB8_1L_1X1);
        let t2 = Texture2DArrayID(texture2d::RGB8_1L_256X256);
        let t3 = Texture2DArrayID(texture2d::RGB8_1L_1024X1024);
        let c1_info = CubemapArrayInfo {
            nb_levels: 1,
            internal_format: GpuTextureInternalFormat::RGB8,
            size: Extent2::one(),
            nb_cubemaps: 16,
        };
        let c2_info = CubemapArrayInfo {
            nb_levels: 1,
            internal_format: GpuTextureInternalFormat::RGB8,
            size: Extent2::broadcast(1024),
            nb_cubemaps: 6,
        };
        let t1_info = Texture2DArrayInfo {
            nb_levels: 1,
            internal_format: GpuTextureInternalFormat::RGB8,
            size: Extent2::one(),
            nb_slots: 2,
        };
        let t2_info = Texture2DArrayInfo {
            nb_levels: 1,
            internal_format: GpuTextureInternalFormat::RGB8,
            size: Extent2::broadcast(256),
            nb_slots: 3,
        };
        let t3_info = Texture2DArrayInfo {
            nb_levels: 1,
            internal_format: GpuTextureInternalFormat::RGB8,
            size: Extent2::broadcast(1024),
            nb_slots: 2,
        };

        proof {
            lemma_startup_memory();
        }
        let mut tex_mem: u64 = 0;
        let mut arrays = TextureArrayRegistry::new();
        let mut commands: Vec<GpuCommand> = Vec::new();

        tex_mem += match c1_info.memory_usage() {
            Some(bytes) => bytes,
            None => vstd::pervasive::unreached(),
        };
        arrays.cubemap_array_create(c1, c1_info);
        commands.push(GpuCommand::CubemapArrayCreate { id: c1, info: c1_info });
        tex_mem += match c2_info.memory_usage() {
            Some(bytes) => bytes,
            None => vstd::pervasive::unreached(),
        };
        arrays.cubemap_array_create(c2, c2_info);
        commands.push(GpuCommand::CubemapArrayCreate { id: c2, info: c2_info });
        tex_mem += match t1_info.memory_usage() {
            Some(bytes) => bytes,
            None => vstd::pervasive::unreached(),
        };
        arrays.texture2d_array_create(t1, t1_info);
        commands.push(GpuCommand::Texture2DArrayCreate { id: t1, info: t1_info });
        tex_mem += match t2_info.memory_usage() {
            Some(bytes) => bytes,
            None => vstd::pervasive::unreached(),
        };
        arrays.texture2d_array_create(t2, t2_info);
        commands.push(GpuCommand::Texture2DArrayCreate { id: t2, info: t2_info });
        tex_mem += match t3_info.memory_usage() {
            Some(bytes) => bytes,
            None => vstd::pervasive::unreached(),
        };
        arrays.texture2d_array_create(t3, t3_info);
        commands.push(GpuCommand::Texture2DArrayCreate { id: t3, info: t3_info });

        assert(tex_mem + SCRATCH_MEM + MAX_CHUNKS * CHUNK_MEM <= MAX_MEM);

        commands.push(GpuCommand::CubemapArrayClear { id: c1, level: 0, color: Rgba::magenta() });
        commands.push(
            GpuCommand::CubemapArraySetMinFilter { id: c1, filter: GpuTextureFilter::Nearest },
        );
        commands.push(
            GpuCommand::CubemapArraySetMagFilter { id: c1, filter: GpuTextureFilter::Nearest },
        );
        assert(commands@ =~= commands_before_placeholders());

        let mut k: u32 = 0;
        while k < 36
            invariant
                k <= 36,
                c1 == CubemapArrayID(cubemap::RGB8_1L_1X1),
                commands@ == commands_before_placeholders() + Seq::new(
                    k as nat,
                    |i: int| placeholder_upload(i),
                ),
            decreases 36 - k,
        {
            let ghost before = commands@;
            commands.push(
                GpuCommand::CubemapArraySubImage2D {
                    id: c1,
                    cubemap: k / 6,
                    face: face_of(k % 6),
                    pixel: placeholder_color_of(k / 6, k % 6),
                },
            );
            assert(commands@ =~= commands_before_placeholders() + Seq::new(
                (k + 1) as nat,
                |i: int| placeholder_upload(i),
            ));
            k += 1;
        }
        let ghost front = commands@;

        commands.push(GpuCommand::CubemapArrayClear { id: c2, level: 0, color: Rgba::magenta() });
        commands.push(
            GpuCommand::CubemapArraySetMinFilter { id: c2, filter: GpuTextureFilter::Linear },
        );
        commands.push(
            GpuCommand::CubemapArraySetMagFilter { id: c2, filter: GpuTextureFilter::Linear },
        );

        commands.push(GpuCommand::Texture2DArrayClear { id: t1, level: 0, color: Rgba::cyan() });
        commands.push(GpuCommand::Texture2DArrayClear { id: t2, level: 0, color: Rgba::cyan() });
        commands.push(GpuCommand::Texture2DArrayClear { id: t3, level: 0, color: Rgba::cyan() });

        commands.push(
            GpuCommand::Texture2DArraySetMinFilter { id: t1, filter: GpuTextureFilter::Nearest },
        );
        commands.push(
            GpuCommand::Texture2DArraySetMagFilter { id: t1, filter: GpuTextureFilter::Nearest },
        );
        commands.push(
            GpuCommand::Texture2DArraySetMinFilter { id: t2, filter: GpuTextureFilter::Linear },
        );
        commands.push(
            GpuCommand::Texture2DArraySetMinFilter { id: t2, filter: GpuTextureFilter::Linear },
        );
        commands.push(
            GpuCommand::Texture2DArraySetMinFilter { id: t3, filter: GpuTextureFilter::Linear },
        );
        commands.push(
            GpuCommand::Texture2DArraySetMagFilter { id: t3, filter: GpuTextureFilter::Linear },
        );

        commands.push(
            GpuCommand::Texture2DArraySubImage2D { id: t1, slot: 0, pixel: Rgb::new(0, 0, 0) },
        );
        commands.push(
            GpuCommand::Texture2DArraySubImage2D { id: t1, slot: 1, pixel: Rgb::new(255, 255, 255) },
        );
        assert(commands@ =~= front + commands_after_placeholders());

        let mut cubemap_face_requests: Vec<CubemapFaceRequest<F>> = Vec::new();
        let mut n: u32 = 0;
        while n < 6 * NB_SKYBOXES
            invariant
                n <= 6 * NB_SKYBOXES,
                c2 == CubemapArrayID(cubemap::RGB8_1L_1024X1024),
                cubemap_face_requests@.len() == n,
                forall|k: int|
                    0 <= k < n ==> is_startup_face_request(#[trigger] cubemap_face_requests@[k], k),
            decreases 6 * NB_SKYBOXES - n,
        {
            let face = face_of(n % 6);
            let mut path = String::from_str("art/3rdparty/mayhem/");
            path.append(skybox_name_of(n / 6));
            path.append("_");
            path.append(face.terragen_suffix());
            path.append(".");
            path.append("jpg");
            cubemap_face_requests.push(
                CubemapFaceRequest { path, array_id: c2, cubemap_index: n / 6, face, future: None },
            );
            n += 1;
        }

        let mut texture2d_requests: Vec<Texture2DRequest<F>> = Vec::new();
        let mut m: u32 = 0;
        while m < NB_TEXTURES
            invariant
                m <= NB_TEXTURES,
                t2 == Texture2DArrayID(texture2d::RGB8_1L_256X256),
                texture2d_requests@.len() == m,
                forall|k: int|
                    0 <= k < m ==> is_startup_texture_request(#[trigger] texture2d_requests@[k], k),
            decreases NB_TEXTURES - m,
        {
            let mut path = String::from_str("art/tex2d/");
            path.append(texture_name_of(m));
            texture2d_requests.push(
                Texture2DRequest { path, array_id: t2, slot: m, future: None },
            );
            m += 1;
        }

        Startup {
            gameplay: Gameplay { cubemap_face_requests, texture2d_requests },
            arrays,
            commands,
            tex_mem,
        }
    }
}

} // verus!
