use game::cubemap::{CubemapArrayID, CubemapArrayInfo, CubemapFace, CubemapSelector};
use game::gameplay::pump::{pump, take_complete};
use game::mt::{FileProgress, Progress, TaskStatus};
use game::gameplay::startup::{Startup, CHUNK_MEM, MAX_CHUNKS, MAX_MEM, SCRATCH_MEM};
use game::gameplay::{
    decimal_string, format_mem, AssetLoadCause, CubemapFaceRequest, Gameplay, LoadOutcome,
    Texture2DRequest,
};
use game::gpu::{mip_memory, GpuCommand, GpuTextureFilter, GpuTextureInternalFormat};
use game::img::{Metadata, PixelFormat, PixelSemantic};
use game::math::{Extent2, Rgb, Rgba};
use game::registry::{CubemapFaceUpload, Texture2DUpload, TextureArrayRegistry, UploadRefusal};
use game::texture2d::{Texture2DArrayID, Texture2DArrayInfo};
use game::viewport::{ViewportDB, ViewportNode, ViewportNodeID};

const ARRAY_A: Texture2DArrayID = Texture2DArrayID(7);

fn rgb8(w: u32, h: u32) -> Metadata {
    Metadata { size: Extent2::new(w, h), pixel_format: PixelFormat::new(PixelSemantic::Rgb, 24) }
}

fn registry_with_a() -> TextureArrayRegistry {
    let mut arrays = TextureArrayRegistry::new();
    assert!(arrays.texture2d_array_create(
        ARRAY_A,
        Texture2DArrayInfo {
            nb_levels: 1,
            internal_format: GpuTextureInternalFormat::RGB8,
            size: Extent2::broadcast(256),
            nb_slots: 2,
        },
    ));
    arrays
}

fn statuses(complete: &[bool]) -> Vec<TaskStatus> {
    complete
        .iter()
        .map(|&c| if c { TaskStatus::Complete } else { TaskStatus::Pending(Progress::Converting) })
        .collect()
}

fn texture_request(name: &str, slot: u32, handle: u32) -> Texture2DRequest<u32> {
    Texture2DRequest { future: Some(handle), path: name.to_string(), array_id: ARRAY_A, slot }
}

#[test]
fn two_textures_complete_in_the_same_frame() {
    let arrays = registry_with_a();
    let mut gameplay: Gameplay<u32> = Gameplay {
        cubemap_face_requests: vec![],
        texture2d_requests: vec![texture_request("a.png", 0, 100), texture_request("b.png", 1, 101)],
    };
    let mut uploads: Vec<Texture2DUpload> = vec![];

    // Frames 1 to 4: nothing is complete.
    for frame in 1..5 {
        let reading = |nread| {
            TaskStatus::Pending(Progress::Reading(FileProgress { nread, nsize: 4000 }))
        };
        let (faces, textures) =
            gameplay.draw(&vec![], &vec![reading(1000 * frame), TaskStatus::Pending(Progress::Converting)]);
        assert!(faces.ready.is_empty() && faces.progress.is_empty());
        assert!(textures.ready.is_empty());
        assert_eq!(
            textures.progress,
            vec![
                Some(Progress::Reading(FileProgress { nread: 1000 * frame, nsize: 4000 })),
                Some(Progress::Converting),
            ]
        );
        assert_eq!(gameplay.texture2d_requests.len(), 2);
        assert!(uploads.is_empty());
    }

    // Frame 5: both are complete.
    let pumped = gameplay.pump_texture2ds(&statuses(&[true, true]));
    assert!(pumped.progress.is_empty());
    let ready = pumped.ready;
    assert!(gameplay.texture2d_requests.is_empty());
    assert_eq!(ready.len(), 2);
    assert_eq!(ready[0].future, Some(100));
    assert_eq!(ready[1].future, Some(101));
    for request in ready.iter() {
        let upload =
            Gameplay::integrate_texture2d(&arrays, request, LoadOutcome::Loaded(rgb8(256, 256)))
                .unwrap();
        uploads.push(upload);
    }
    assert_eq!(
        uploads,
        vec![
            Texture2DUpload { array_id: ARRAY_A, slot: 0 },
            Texture2DUpload { array_id: ARRAY_A, slot: 1 },
        ]
    );
}

#[test]
fn pump_keeps_the_order_of_what_it_takes_and_of_what_it_leaves() {
    let mut queue = vec!['a', 'b', 'c', 'd', 'e'];
    let ready = take_complete(&mut queue, &vec![false, true, false, true, true]);
    assert_eq!(ready, vec!['b', 'd', 'e']);
    assert_eq!(queue, vec!['a', 'c']);
    let ready = take_complete(&mut queue, &vec![true, false]);
    assert_eq!(ready, vec!['a']);
    assert_eq!(queue, vec!['c']);
}

#[test]
fn pump_treats_a_missing_answer_as_pending_and_ignores_spare_ones() {
    let mut queue = vec![1, 2, 3];
    assert_eq!(take_complete(&mut queue, &vec![true]), vec![1]);
    assert_eq!(queue, vec![2, 3]);
    assert_eq!(take_complete(&mut queue, &vec![false, true, true, true]), vec![3]);
    assert_eq!(queue, vec![2]);
    assert_eq!(take_complete(&mut queue, &vec![]), Vec::<i32>::new());
    assert_eq!(queue, vec![2]);
    let mut empty: Vec<i32> = vec![];
    assert_eq!(take_complete(&mut empty, &vec![true, true]), Vec::<i32>::new());
}

#[test]
fn pump_reports_the_progress_of_what_stays() {
    let reading = |nread, nsize| Progress::Reading(FileProgress { nread, nsize });
    let mut queue = vec!["a", "b", "c", "d"];
    let out = pump(
        &mut queue,
        &vec![
            TaskStatus::Pending(reading(1, 10)),
            TaskStatus::Complete,
            TaskStatus::Pending(Progress::Converting),
        ],
    );
    assert_eq!(out.ready, vec!["b"]);
    assert_eq!(queue, vec!["a", "c", "d"]);
    assert_eq!(out.progress, vec![Some(reading(1, 10)), Some(Progress::Converting), None]);
    assert!(TaskStatus::Complete.is_complete());
    assert!(!TaskStatus::Pending(Progress::Converting).is_complete());
    assert_eq!(TaskStatus::Complete.progress(), None);
    assert_eq!(TaskStatus::Pending(reading(0, 0)).progress(), Some(reading(0, 0)));
}

#[test]
fn every_request_is_integrated_once_whatever_the_order_of_completion() {
    let arrays = registry_with_a();
    let mut gameplay: Gameplay<u32> = Gameplay {
        cubemap_face_requests: vec![],
        texture2d_requests: vec![
            texture_request("a.png", 0, 0),
            texture_request("b.png", 1, 1),
            texture_request("c.png", 0, 2),
            texture_request("d.png", 1, 3),
        ],
    };
    let frames = [
        vec![false, false, true, false],
        vec![false, false, false],
        vec![true, false, true],
        vec![true],
    ];
    let mut uploads = vec![];
    for flags in frames.iter() {
        for request in gameplay.pump_texture2ds(&statuses(flags)).ready {
            let upload =
                Gameplay::integrate_texture2d(&arrays, &request, LoadOutcome::Loaded(rgb8(256, 256)))
                    .unwrap();
            assert_eq!(upload.slot, request.slot);
            assert_eq!(upload.array_id, request.array_id);
            uploads.push((request.path, upload.slot));
        }
    }
    assert!(gameplay.texture2d_requests.is_empty());
    assert_eq!(
        uploads,
        vec![
            ("c.png".to_string(), 0),
            ("a.png".to_string(), 0),
            ("d.png".to_string(), 1),
            ("b.png".to_string(), 1),
        ]
    );
}

#[test]
fn a_failed_request_is_reported_with_its_path_and_the_others_go_on() {
    let arrays = registry_with_a();
    let mut gameplay: Gameplay<()> = Gameplay {
        cubemap_face_requests: vec![],
        texture2d_requests: vec![
            Texture2DRequest { future: None, path: "bad.png".to_string(), array_id: ARRAY_A, slot: 0 },
            Texture2DRequest { future: None, path: "good.png".to_string(), array_id: ARRAY_A, slot: 1 },
        ],
    };
    let ready = gameplay.pump_texture2ds(&statuses(&[true, true])).ready;
    let bad = Gameplay::integrate_texture2d(
        &arrays,
        &ready[0],
        LoadOutcome::IoError("no such file".to_string()),
    )
    .unwrap_err();
    assert_eq!(bad.path, "bad.png");
    assert!(matches!(bad.cause, AssetLoadCause::Io(ref m) if m == "no such file"));
    let good =
        Gameplay::integrate_texture2d(&arrays, &ready[1], LoadOutcome::Loaded(rgb8(256, 256)));
    assert_eq!(good.unwrap(), Texture2DUpload { array_id: ARRAY_A, slot: 1 });

    let undecodable = Gameplay::integrate_texture2d(
        &arrays,
        &ready[1],
        LoadOutcome::DecodeError("not a png".to_string()),
    )
    .unwrap_err();
    assert_eq!(undecodable.path, "good.png");
    assert!(matches!(undecodable.cause, AssetLoadCause::Decode(ref m) if m == "not a png"));
}

#[test]
fn uploads_are_checked_against_the_array() {
    let arrays = registry_with_a();
    let ok = arrays.texture2d_array_sub_image_2d(ARRAY_A, 1, rgb8(256, 256));
    assert_eq!(ok, Ok(Texture2DUpload { array_id: ARRAY_A, slot: 1 }));
    assert_eq!(
        arrays.texture2d_array_sub_image_2d(Texture2DArrayID(8), 0, rgb8(256, 256)),
        Err(UploadRefusal::UnknownArray)
    );
    assert_eq!(
        arrays.texture2d_array_sub_image_2d(ARRAY_A, 2, rgb8(256, 256)),
        Err(UploadRefusal::OutOfCapacity { index: 2, capacity: 2 })
    );
    assert_eq!(
        arrays.texture2d_array_sub_image_2d(ARRAY_A, 0, rgb8(256, 128)),
        Err(UploadRefusal::ExtentMismatch {
            expected: Extent2::broadcast(256),
            found: Extent2::new(256, 128),
        })
    );
    let rgba = Metadata {
        size: Extent2::broadcast(256),
        pixel_format: PixelFormat::new(PixelSemantic::Rgba, 32),
    };
    assert_eq!(
        arrays.texture2d_array_sub_image_2d(ARRAY_A, 0, rgba),
        Err(UploadRefusal::FormatMismatch {
            expected: GpuTextureInternalFormat::RGB8,
            found: rgba.pixel_format,
        })
    );
    let wide = Metadata {
        size: Extent2::broadcast(256),
        pixel_format: PixelFormat::new(PixelSemantic::Rgb, 48),
    };
    assert!(matches!(
        arrays.texture2d_array_sub_image_2d(ARRAY_A, 0, wide),
        Err(UploadRefusal::FormatMismatch { .. })
    ));
    // Capacity is looked at before the image.
    assert_eq!(
        arrays.texture2d_array_sub_image_2d(ARRAY_A, 9, rgb8(1, 1)),
        Err(UploadRefusal::OutOfCapacity { index: 9, capacity: 2 })
    );
}

#[test]
fn cubemap_uploads_are_checked_against_the_array() {
    let mut arrays = TextureArrayRegistry::new();
    let id = CubemapArrayID(3);
    let info = CubemapArrayInfo {
        nb_levels: 1,
        internal_format: GpuTextureInternalFormat::RGBA8,
        size: Extent2::broadcast(64),
        nb_cubemaps: 2,
    };
    assert!(arrays.cubemap_array_create(id, info));
    assert!(!arrays.cubemap_array_create(id, CubemapArrayInfo { nb_cubemaps: 9, ..info }));
    assert_eq!(arrays.cubemap_array_info(id), Some(info));
    assert_eq!(arrays.cubemap_array_info(CubemapArrayID(4)), None);
    assert_eq!(arrays.texture2d_array_info(Texture2DArrayID(3)), None);
    let rgba = Metadata {
        size: Extent2::broadcast(64),
        pixel_format: PixelFormat::new(PixelSemantic::Rgba, 32),
    };
    assert_eq!(
        arrays.cubemap_array_sub_image_2d(id, 1, CubemapFace::NegativeY, rgba),
        Ok(CubemapFaceUpload { array_id: id, cubemap_index: 1, face: CubemapFace::NegativeY })
    );
    assert_eq!(
        arrays.cubemap_array_sub_image_2d(id, 2, CubemapFace::NegativeY, rgba),
        Err(UploadRefusal::OutOfCapacity { index: 2, capacity: 2 })
    );
    let request: CubemapFaceRequest<()> = CubemapFaceRequest {
        future: None,
        path: "sky_up.jpg".to_string(),
        array_id: id,
        cubemap_index: 0,
        face: CubemapFace::PositiveY,
    };
    let refused =
        Gameplay::integrate_cubemap_face(&arrays, &request, LoadOutcome::Loaded(rgb8(64, 64)))
            .unwrap_err();
    assert_eq!(refused.path, "sky_up.jpg");
    assert!(matches!(
        refused.cause,
        AssetLoadCause::Refused(UploadRefusal::FormatMismatch {
            expected: GpuTextureInternalFormat::RGBA8,
            ..
        })
    ));
    assert_eq!(
        Gameplay::integrate_cubemap_face(&arrays, &request, LoadOutcome::Loaded(rgba)).unwrap(),
        CubemapFaceUpload { array_id: id, cubemap_index: 0, face: CubemapFace::PositiveY }
    );
}

#[test]
fn startup_makes_arrays_placeholders_and_requests() {
    let mut db = ViewportDB::new();
    let Startup { gameplay, arrays, commands, tex_mem }: Startup<()> = Gameplay::new(&mut db);

    match db.node(ViewportNodeID(0)) {
        Some(ViewportNode::Whole { parent: None, info }) => {
            assert_eq!(
                info.skybox_cubemap_selector,
                Some(CubemapSelector { array_id: CubemapArrayID(1), cubemap: 0 })
            );
            assert_eq!(info.clear_color, Rgba::zero());
        }
        other => panic!("unexpected root: {:?}", other),
    }

    assert_eq!(arrays.cubemap_array_info(CubemapArrayID(0)).unwrap().nb_cubemaps, 16);
    assert_eq!(arrays.cubemap_array_info(CubemapArrayID(1)).unwrap().size, Extent2::broadcast(1024));
    assert_eq!(arrays.texture2d_array_info(Texture2DArrayID(0)).unwrap().nb_slots, 2);
    assert_eq!(arrays.texture2d_array_info(Texture2DArrayID(2)).unwrap().size, Extent2::broadcast(256));
    assert_eq!(arrays.texture2d_array_info(Texture2DArrayID(1)).unwrap().nb_slots, 2);

    assert_eq!(tex_mem, 288 + 113_246_208 + 6 + 589_824 + 6_291_456);
    assert!(tex_mem + SCRATCH_MEM + MAX_CHUNKS * CHUNK_MEM <= MAX_MEM);

    assert_eq!(commands.len(), 8 + 36 + 14);
    assert!(matches!(commands[0], GpuCommand::CubemapArrayCreate { id: CubemapArrayID(0), .. }));
    assert!(matches!(commands[4], GpuCommand::Texture2DArrayCreate { id: Texture2DArrayID(1), .. }));
    assert_eq!(
        commands[5],
        GpuCommand::CubemapArrayClear { id: CubemapArrayID(0), level: 0, color: Rgba::magenta() }
    );
    assert_eq!(
        commands[8],
        GpuCommand::CubemapArraySubImage2D {
            id: CubemapArrayID(0),
            cubemap: 0,
            face: CubemapFace::PositiveX,
            pixel: Rgb::new(0, 0, 0),
        }
    );
    assert_eq!(
        commands[8 + 2 * 6 + 3],
        GpuCommand::CubemapArraySubImage2D {
            id: CubemapArrayID(0),
            cubemap: 2,
            face: CubemapFace::NegativeY,
            pixel: Rgb::new(255, 0, 255),
        }
    );
    assert_eq!(
        commands[8 + 4 * 6 + 5],
        GpuCommand::CubemapArraySubImage2D {
            id: CubemapArrayID(0),
            cubemap: 4,
            face: CubemapFace::NegativeZ,
            pixel: Rgb::new(255, 175, 45),
        }
    );
    assert_eq!(
        commands[8 + 3 * 6 + 3],
        GpuCommand::CubemapArraySubImage2D {
            id: CubemapArrayID(0),
            cubemap: 3,
            face: CubemapFace::NegativeY,
            pixel: Rgb::new(255, 255, 255),
        }
    );
    assert_eq!(
        commands[8 + 36 + 9],
        GpuCommand::Texture2DArraySetMinFilter {
            id: Texture2DArrayID(2),
            filter: GpuTextureFilter::Linear,
        }
    );
    assert_eq!(
        commands[57],
        GpuCommand::Texture2DArraySubImage2D {
            id: Texture2DArrayID(0),
            slot: 1,
            pixel: Rgb::new(255, 255, 255),
        }
    );

    assert_eq!(gameplay.cubemap_face_requests.len(), 24);
    let first = &gameplay.cubemap_face_requests[0];
    assert_eq!(first.path, "art/3rdparty/mayhem/grouse_ft.jpg");
    assert_eq!(first.face, CubemapFace::PositiveX);
    assert_eq!(first.cubemap_index, 0);
    assert_eq!(first.array_id, CubemapArrayID(1));
    assert!(first.future.is_none());
    let last = &gameplay.cubemap_face_requests[23];
    assert_eq!(last.path, "art/3rdparty/mayhem/flame_lf.jpg");
    assert_eq!(last.face, CubemapFace::NegativeZ);
    assert_eq!(last.cubemap_index, 3);
    assert_eq!(gameplay.cubemap_face_requests[8].path, "art/3rdparty/mayhem/aqua4_up.jpg");
    assert_eq!(gameplay.cubemap_face_requests[15].path, "art/3rdparty/mayhem/h2s_dn.jpg");
    assert_eq!(gameplay.cubemap_face_requests[16].path, "art/3rdparty/mayhem/h2s_rt.jpg");
    assert_eq!(gameplay.cubemap_face_requests[1].path, "art/3rdparty/mayhem/grouse_bk.jpg");

    let textures: Vec<(&str, u32)> =
        gameplay.texture2d_requests.iter().map(|r| (r.path.as_str(), r.slot)).collect();
    assert_eq!(
        textures,
        vec![("art/tex2d/maze.png", 0), ("art/tex2d/plasma.png", 1), ("art/tex2d/checkerboard.png", 2)]
    );
    for request in gameplay.texture2d_requests.iter() {
        assert_eq!(request.array_id, Texture2DArrayID(2));
        assert!(Gameplay::integrate_texture2d(&arrays, request, LoadOutcome::Loaded(rgb8(256, 256)))
            .is_ok());
    }
    for request in gameplay.cubemap_face_requests.iter() {
        assert!(Gameplay::integrate_cubemap_face(
            &arrays,
            request,
            LoadOutcome::Loaded(rgb8(1024, 1024))
        )
        .is_ok());
    }
}

#[test]
fn every_request_gets_its_task_in_queue_order() {
    let mut db = ViewportDB::new();
    let Startup { mut gameplay, .. }: Startup<String> = Gameplay::new(&mut db);
    assert!(gameplay.cubemap_face_requests.iter().all(|r| r.future.is_none()));

    // One handle too few: nothing is attached.
    let faces: Vec<String> = (0..23).map(|k| format!("face {}", k)).collect();
    let textures: Vec<String> = (0..3).map(|k| format!("texture {}", k)).collect();
    assert!(!gameplay.schedule(faces, textures));
    assert!(gameplay.cubemap_face_requests.iter().all(|r| r.future.is_none()));
    assert!(gameplay.texture2d_requests.iter().all(|r| r.future.is_none()));
    let faces: Vec<String> = (0..24).map(|k| format!("face {}", k)).collect();
    assert!(!gameplay.schedule(faces, vec![]));
    assert!(gameplay.texture2d_requests.iter().all(|r| r.future.is_none()));

    let faces: Vec<String> = (0..24).map(|k| format!("face {}", k)).collect();
    let textures: Vec<String> = (0..3).map(|k| format!("texture {}", k)).collect();
    assert!(gameplay.schedule(faces, textures));
    assert_eq!(gameplay.cubemap_face_requests.len(), 24);
    for (k, request) in gameplay.cubemap_face_requests.iter().enumerate() {
        assert_eq!(request.future, Some(format!("face {}", k)));
        assert_eq!(request.cubemap_index as usize, k / 6);
        assert_eq!(request.face.index() as usize, k % 6);
        assert_eq!(request.array_id, CubemapArrayID(1));
    }
    assert_eq!(gameplay.cubemap_face_requests[7].path, "art/3rdparty/mayhem/aqua4_bk.jpg");
    let textures: Vec<(&str, u32, Option<&str>)> = gameplay
        .texture2d_requests
        .iter()
        .map(|r| (r.path.as_str(), r.slot, r.future.as_deref()))
        .collect();
    assert_eq!(
        textures,
        vec![
            ("art/tex2d/maze.png", 0, Some("texture 0")),
            ("art/tex2d/plasma.png", 1, Some("texture 1")),
            ("art/tex2d/checkerboard.png", 2, Some("texture 2")),
        ]
    );

    // A complete request hands its task back.
    let pumped = gameplay.pump_texture2ds(&statuses(&[false, true, false]));
    assert_eq!(pumped.ready.len(), 1);
    assert_eq!(pumped.ready[0].future.as_deref(), Some("texture 1"));
}

#[test]
fn capacity_is_checked_before_the_first_frame() {
    let arrays = registry_with_a();
    let mut gameplay: Gameplay<()> = Gameplay {
        cubemap_face_requests: vec![],
        texture2d_requests: vec![
            Texture2DRequest { future: None, path: "a.png".to_string(), array_id: ARRAY_A, slot: 1 },
            Texture2DRequest { future: None, path: "b.png".to_string(), array_id: ARRAY_A, slot: 2 },
            Texture2DRequest {
                future: None,
                path: "c.png".to_string(),
                array_id: Texture2DArrayID(99),
                slot: 0,
            },
        ],
    };
    let e = gameplay.check_capacity(&arrays).unwrap_err();
    assert_eq!((e.path.as_str(), e.index, e.capacity), ("b.png", 2, Some(2)));
    gameplay.texture2d_requests.remove(1);
    let e = gameplay.check_capacity(&arrays).unwrap_err();
    assert_eq!((e.path.as_str(), e.index, e.capacity), ("c.png", 0, None));
    gameplay.cubemap_face_requests.push(CubemapFaceRequest {
        future: None,
        path: "sky.jpg".to_string(),
        array_id: CubemapArrayID(0),
        cubemap_index: 0,
        face: CubemapFace::PositiveX,
    });
    let e = gameplay.check_capacity(&arrays).unwrap_err();
    assert_eq!((e.path.as_str(), e.index, e.capacity), ("sky.jpg", 0, None));
    gameplay.cubemap_face_requests.clear();
    gameplay.texture2d_requests.pop();
    assert!(gameplay.check_capacity(&arrays).is_ok());

    let mut db = ViewportDB::new();
    let startup: Startup<()> = Gameplay::new(&mut db);
    assert!(startup.gameplay.check_capacity(&startup.arrays).is_ok());
}

#[test]
fn memory_of_levels_of_detail() {
    assert_eq!(mip_memory(4, 2, 3, 0), Some(0));
    assert_eq!(mip_memory(4, 2, 3, 1), Some(24));
    // 4x2, 2x1, 1x1, 1x1
    assert_eq!(mip_memory(4, 2, 3, 4), Some(24 + 6 + 3 + 3));
    assert_eq!(mip_memory(0, 5, 1, 2), Some(0 + 2));
    assert_eq!(mip_memory(u32::MAX, u32::MAX, 2, 1), None);
    assert_eq!(
        mip_memory(u32::MAX, u32::MAX, 1, 1),
        Some((u32::MAX as u64) * (u32::MAX as u64))
    );
    let info = Texture2DArrayInfo {
        nb_levels: 2,
        internal_format: GpuTextureInternalFormat::RGBA8,
        size: Extent2::new(8, 8),
        nb_slots: 5,
    };
    assert_eq!(info.memory_usage(), Some((64 + 16) * 4 * 5));
    let cube = CubemapArrayInfo {
        nb_levels: 1,
        internal_format: GpuTextureInternalFormat::R8,
        size: Extent2::new(2, 2),
        nb_cubemaps: 3,
    };
    assert_eq!(cube.memory_usage(), Some(4 * 1 * 6 * 3));
    assert_eq!(GpuTextureInternalFormat::RG8.bytes_per_texel(), 2);
    assert!(GpuTextureInternalFormat::R8.accepts(PixelFormat::new(PixelSemantic::Gray, 8)));
    assert!(!GpuTextureInternalFormat::R8.accepts(PixelFormat::new(PixelSemantic::Gray, 16)));
}

#[test]
fn memory_is_written_in_the_largest_unit() {
    assert_eq!(format_mem(0), "0 b");
    assert_eq!(format_mem(1023), "1023 b");
    assert_eq!(format_mem(1024), "1 Kb");
    assert_eq!(format_mem(1024 * 1024 - 1), "1023 Kb");
    assert_eq!(format_mem(1024 * 1024), "1 MiB");
    assert_eq!(format_mem(120_127_782), "114 MiB");
    assert_eq!(format_mem(1024 * 1024 * 1024 - 1), "1023 MiB");
    assert_eq!(format_mem(1024 * 1024 * 1024), "1 GiB");
    assert_eq!(format_mem(5 * 1024 * 1024 * 1024 + 17), "5 GiB");
    assert_eq!(decimal_string(9), "9");
    assert_eq!(decimal_string(10), "10");
    assert_eq!(decimal_string(907_060), "907060");
}

#[test]
fn faces_and_their_terragen_suffixes() {
    let suffixes: Vec<&str> =
        (0..6).map(|i| CubemapFace::from_index(i).unwrap().terragen_suffix()).collect();
    assert_eq!(suffixes, vec!["ft", "bk", "up", "dn", "rt", "lf"]);
    assert_eq!(CubemapFace::from_index(6), None);
    for i in 0..6 {
        assert_eq!(CubemapFace::from_index(i).unwrap().index(), i);
    }
}
