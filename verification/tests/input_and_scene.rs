use game::device::{ButtonState, Key, Keysym, MouseButton};
use game::math::{Extent2, Vec2};
use game::mouse_cursor::{MouseCursor, SystemCursor};
use game::scene::{
    CameraProjectionMode, Scene, SceneCommand, SceneCommandClearerSystem, SceneLogicSystem,
    MESHID_CUBE, MESHID_CUBE_SMOOTH, MESHID_SKYBOX,
};
use game::viewport::{SplitDirection, ViewportDB, ViewportInputHandler, ViewportNode, ViewportNodeID};

fn key(sym: Keysym) -> Key {
    Key { code: 0, sym: Some(sym) }
}

#[test]
fn keys_split_and_merge() {
    let mut db = ViewportDB::new();
    let mut handler = ViewportInputHandler::new();
    handler.on_key(&mut db, key(Keysym::V), ButtonState::Up);
    assert!(matches!(db.node(ViewportNodeID(0)), Some(ViewportNode::Whole { .. })));
    handler.on_key(&mut db, key(Keysym::V), ButtonState::Down);
    match db.node(ViewportNodeID(0)) {
        Some(ViewportNode::Split { split, .. }) => assert_eq!(split.direction, SplitDirection::Vertical),
        other => panic!("{:?}", other),
    }
    handler.on_key(&mut db, key(Keysym::H), ButtonState::Down);
    match db.node(ViewportNodeID(1)) {
        Some(ViewportNode::Split { split, .. }) => {
            assert_eq!(split.direction, SplitDirection::Horizontal)
        }
        other => panic!("{:?}", other),
    }
    assert_eq!(db.focused(), ViewportNodeID(3));
    handler.on_key(&mut db, key(Keysym::Other(42)), ButtonState::Down);
    handler.on_key(&mut db, Key { code: 9, sym: None }, ButtonState::Down);
    assert_eq!(db.focused(), ViewportNodeID(3));
    handler.on_key(&mut db, key(Keysym::M), ButtonState::Down);
    assert_eq!(db.focused(), ViewportNodeID(1));
    assert!(db.node(ViewportNodeID(3)).is_none());
}

#[test]
fn the_pointer_hovers_and_a_left_press_focuses() {
    let mut db = ViewportDB::new();
    let mut handler = ViewportInputHandler::new();
    db.split_v();
    db.split_h();
    let canvas = Extent2::new(200, 100);

    // Rows are counted from the top: row 10 is 90 above the bottom.
    let cursor = handler.on_mouse_motion(&mut db, canvas, Vec2::new(150, 10));
    assert_eq!(cursor, MouseCursor::System(SystemCursor::Hand));
    assert_eq!(db.hovered(), Some(ViewportNodeID(2)));

    handler.on_mouse_motion(&mut db, canvas, Vec2::new(10, 90));
    assert_eq!(db.hovered(), Some(ViewportNodeID(3)));
    handler.on_mouse_motion(&mut db, canvas, Vec2::new(10, 50));
    assert_eq!(db.hovered(), Some(ViewportNodeID(4)));
    handler.on_mouse_motion(&mut db, canvas, Vec2::new(10, 51));
    assert_eq!(db.hovered(), Some(ViewportNodeID(3)));
    handler.on_mouse_motion(&mut db, canvas, Vec2::new(100, 51));
    assert_eq!(db.hovered(), Some(ViewportNodeID(2)));
    // The top row is at the canvas height itself, outside every rectangle.
    handler.on_mouse_motion(&mut db, canvas, Vec2::new(10, 0));
    assert_eq!(db.hovered(), None);
    // Below the canvas the row saturates at the bottom.
    handler.on_mouse_motion(&mut db, canvas, Vec2::new(10, 500));
    assert_eq!(db.hovered(), Some(ViewportNodeID(3)));

    handler.on_mouse_motion(&mut db, canvas, Vec2::new(150, 10));
    assert_eq!(db.focused(), ViewportNodeID(3));
    handler.on_mouse_button(&mut db, MouseButton::Right, ButtonState::Down);
    handler.on_mouse_button(&mut db, MouseButton::Left, ButtonState::Up);
    assert_eq!(db.focused(), ViewportNodeID(3));
    handler.on_mouse_button(&mut db, MouseButton::Left, ButtonState::Down);
    assert_eq!(db.focused(), ViewportNodeID(2));

    handler.on_mouse_leave(&mut db);
    assert_eq!(db.hovered(), None);
    handler.on_mouse_button(&mut db, MouseButton::Left, ButtonState::Down);
    assert_eq!(db.focused(), ViewportNodeID(2));
}

#[test]
fn a_left_press_after_a_merge_or_a_split_finds_a_leaf_or_nothing() {
    let mut db = ViewportDB::new();
    let mut handler = ViewportInputHandler::new();
    let canvas = Extent2::new(100, 100);
    db.split_v();
    handler.on_mouse_motion(&mut db, canvas, Vec2::new(75, 50));
    assert_eq!(db.hovered(), Some(ViewportNodeID(2)));
    db.merge();
    // The hovered leaf is gone with the merge: the press changes nothing.
    assert_eq!(db.hovered(), None);
    handler.on_mouse_button(&mut db, MouseButton::Left, ButtonState::Down);
    assert_eq!(db.focused(), ViewportNodeID(0));

    handler.on_mouse_motion(&mut db, canvas, Vec2::new(75, 50));
    assert_eq!(db.hovered(), Some(ViewportNodeID(0)));
    handler.on_key(&mut db, key(Keysym::H), ButtonState::Down);
    assert_eq!(db.hovered(), None);
    handler.on_mouse_button(&mut db, MouseButton::Left, ButtonState::Down);
    assert_eq!(db.focused(), ViewportNodeID(3));
    // The colour that a key press draws is opaque.
    match db.node(ViewportNodeID(4)) {
        Some(ViewportNode::Whole { info, .. }) => assert_eq!(info.clear_color.a, 255),
        other => panic!("{:?}", other),
    }
    handler.on_mouse_motion(&mut db, canvas, Vec2::new(75, 10));
    assert_eq!(db.hovered(), Some(ViewportNodeID(4)));
    handler.on_mouse_button(&mut db, MouseButton::Left, ButtonState::Down);
    assert_eq!(db.focused(), ViewportNodeID(4));
}

#[test]
fn button_states() {
    assert!(ButtonState::Down.is_down());
    assert!(!ButtonState::Down.is_up());
    assert!(ButtonState::Up.is_up());
    assert!(!ButtonState::Up.is_down());
}

#[test]
fn the_scene_starts_with_its_commands_and_the_clearer_drops_them() {
    let mut scene = Scene::new();
    let commands: Vec<SceneCommand> = scene.draw_commands_queue.iter().copied().collect();
    assert_eq!(
        commands,
        vec![
            SceneCommand::AddMesh(MESHID_SKYBOX),
            SceneCommand::AddMesh(MESHID_CUBE),
            SceneCommand::AddMesh(MESHID_CUBE_SMOOTH),
            SceneCommand::AddMeshInstance(1300),
            SceneCommand::AddMeshInstance(13),
            SceneCommand::AddMeshInstance(42),
            SceneCommand::AddMeshInstance(468),
        ]
    );
    assert_eq!((MESHID_SKYBOX, MESHID_CUBE, MESHID_CUBE_SMOOTH), (10, 11, 12));
    assert_eq!(scene.mesh_instances.len(), 4);
    assert_eq!(scene.mesh_instances[&1300], MESHID_SKYBOX);
    assert_eq!(scene.mesh_instances[&13], MESHID_CUBE);
    assert_eq!(scene.mesh_instances[&42], MESHID_CUBE);
    assert_eq!(scene.mesh_instances[&468], MESHID_CUBE_SMOOTH);

    let mut clearer = SceneCommandClearerSystem::new();
    clearer.draw(&mut scene);
    assert!(scene.draw_commands_queue.is_empty());
    assert_eq!(scene.mesh_instances.len(), 4);
    let _logic = SceneLogicSystem::new();
    assert_ne!(CameraProjectionMode::Perspective, CameraProjectionMode::Ortho);
}
