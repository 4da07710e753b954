//! The book-keeping side of the scene: which mesh each instance shows, and
//! the commands that tell a renderer what was added.

use std::collections::{HashMap, VecDeque};
use vstd::prelude::*;
use vstd::std_specs::hash::group_hash_axioms;

verus! {

pub type MeshID = u32;

pub type MeshInstanceID = u32;

pub type CameraID = u32;

#[derive(Debug, Copy, Clone, Hash, PartialEq, Eq, Structural)]
pub enum CameraProjectionMode {
    Perspective,
    Ortho,
}

/// What a renderer has to take note of before it draws the next frame.
#[derive(Debug, Copy, Clone, Hash, PartialEq, Eq, Structural)]
pub enum SceneCommand {
    AddMesh(MeshID),
    AddMeshInstance(MeshInstanceID),
}

/// The meshes that instances refer to and the commands not yet consumed by
/// the renderers.
pub struct Scene {
    pub mesh_instances: HashMap<MeshInstanceID, MeshID>,
    // Later we may also want a tick_commands_queue
    pub draw_commands_queue: VecDeque<SceneCommand>,
}

pub const MESHID_SKYBOX: MeshID = 10;

pub const MESHID_CUBE: MeshID = 11;

pub const MESHID_CUBE_SMOOTH: MeshID = 12;

impl Scene {
    /// The instances of the scene that every game starts with.
    pub open spec fn initial_instances() -> Map<MeshInstanceID, MeshID> {
        Map::empty().insert(1300u32, MESHID_SKYBOX).insert(13u32, MESHID_CUBE).insert(
            42u32,
            MESHID_CUBE,
        ).insert(468u32, MESHID_CUBE_SMOOTH)
    }

    /// The commands that announce the initial scene: the three meshes, then
    /// the four instances.
    pub open spec fn initial_commands() -> Seq<SceneCommand> {
        seq![
            SceneCommand::AddMesh(MESHID_SKYBOX),
            SceneCommand::AddMesh(MESHID_CUBE),
            SceneCommand::AddMesh(MESHID_CUBE_SMOOTH),
            SceneCommand::AddMeshInstance(1300),
            SceneCommand::AddMeshInstance(13),
            SceneCommand::AddMeshInstance(42),
            SceneCommand::AddMeshInstance(468),
        ]
    }

    pub fn new() -> (scene: Self)
        ensures
            scene.mesh_instances@ == Self::initial_instances(),
            scene.draw_commands_queue@ == Self::initial_commands(),
    {
        broadcast use group_hash_axioms;

        let mut mesh_instances: HashMap<MeshInstanceID, MeshID> = HashMap::new();
        let mut draw_commands_queue: VecDeque<SceneCommand> = VecDeque::new();

        draw_commands_queue.push_back(SceneCommand::AddMesh(MESHID_SKYBOX));
        draw_commands_queue.push_back(SceneCommand::AddMesh(MESHID_CUBE));
        draw_commands_queue.push_back(SceneCommand::AddMesh(MESHID_CUBE_SMOOTH));

        mesh_instances.insert(1300, MESHID_SKYBOX);
        draw_commands_queue.push_back(SceneCommand::AddMeshInstance(1300));

        mesh_instances.insert(13, MESHID_CUBE);
        draw_commands_queue.push_back(SceneCommand::AddMeshInstance(13));
        mesh_instances.insert(42, MESHID_CUBE);
        draw_commands_queue.push_back(SceneCommand::AddMeshInstance(42));
        mesh_instances.insert(468, MESHID_CUBE_SMOOTH);
        draw_commands_queue.push_back(SceneCommand::AddMeshInstance(468));

        assert(draw_commands_queue@ =~= Self::initial_commands());
        Self { mesh_instances, draw_commands_queue }
    }
}

/// Empties the command queue once the renderers have read it. It runs after
/// every renderer.
#[derive(Debug)]
pub struct SceneCommandClearerSystem;

impl SceneCommandClearerSystem {
    pub fn new() -> (system: Self)
        ensures
            system == SceneCommandClearerSystem,
    {
        SceneCommandClearerSystem
    }

    /// Drops every pending command and leaves the instances alone.
    pub fn draw(&mut self, scene: &mut Scene)
        ensures
            final(scene).draw_commands_queue@ == Seq::<SceneCommand>::empty(),
            final(scene).mesh_instances@ == old(scene).mesh_instances@,
    {
        scene.draw_commands_queue.clear();
    }
}

/// Moves the scene along with time. What it does to the instances is
/// arithmetic on their transforms and is done by the caller.
#[derive(Debug)]
pub struct SceneLogicSystem;

impl SceneLogicSystem {
    pub fn new() -> (system: Self)
        ensures
            system == SceneLogicSystem,
    {
        SceneLogicSystem
    }
}

} // verus!
