//! The static scene and its builder.
//!
//! The scene graph is built exactly once, before the first frame: a ground
//! plane, twelve glowing orbs at fixed hand-authored positions, one child
//! point light per orb, and a single orbit camera. Nothing here is mutated
//! during the run except the camera's prepass markers (see `controller`).

use vstd::prelude::*;

use crate::geometry::{ColorRgb, Point3};
use crate::material::{GlowyMaterial, ImageHandle};
use vstd::set_lib::lemma_int_range;
use vstd::set_lib::set_int_range;

verus! {

/// Side length of the square ground plane, in hundredths of a unit.
pub const PLANE_SIZE: i32 = 10000;

/// Radius of each orb sphere, in hundredths of a unit.
pub const ORB_RADIUS: i32 = 100;

/// Number of orbs in the scene.
pub const ORB_COUNT: usize = 12;

/// Intensity of each orb's child point light.
pub const ORB_LIGHT_INTENSITY: u32 = 10000;

/// Radius of each orb's child point light, in hundredths of a unit.
pub const ORB_LIGHT_RADIUS: i32 = 100;

/// Mesh geometry descriptors; lengths are in hundredths of a scene unit.
#[derive(Clone, Copy, Debug, PartialEq, Eq, Structural)]
pub enum MeshShape {
    Plane { size: i32 },
    Sphere { radius: i32 },
}

/// A plain non-metallic surface with a flat base color.
#[derive(Clone, Copy, Debug, PartialEq, Eq, Structural)]
pub struct StandardMaterial {
    pub base_color: ColorRgb,
}

/// A reference into one of the scene's material registries. The index names
/// one registered instance, so two equal references denote the very same
/// material, not two copies: mutating it would affect every user at once.
#[derive(Clone, Copy, Debug, PartialEq, Eq, Structural)]
pub enum MaterialRef {
    Standard(usize),
    Glow(usize),
}

/// A drawable entity: a mesh shape, a world position, a material reference.
#[derive(Clone, Copy, Debug, PartialEq, Eq, Structural)]
pub struct SceneNode {
    pub mesh: MeshShape,
    pub position: Point3,
    pub material: MaterialRef,
}

/// A point light attached as the child of exactly one scene node; `parent`
/// is that node's index, and the light inherits its world position.
#[derive(Clone, Copy, Debug, PartialEq, Eq, Structural)]
pub struct LightNode {
    pub parent: usize,
    pub intensity: u32,
    pub radius: i32,
    pub color: ColorRgb,
}

/// Which auxiliary per-camera passes are attached.
#[derive(Clone, Copy, Debug, PartialEq, Eq, Structural)]
pub struct PrepassFlags {
    pub depth: bool,
    pub motion_vector: bool,
    pub deferred: bool,
    pub normal: bool,
}

/// Navigation settings for the camera: orbit around a focus point when
/// `orbit_mode` is set, free-fly otherwise. The motion math itself is a
/// collaborator's concern; the scene only instantiates the settings.
#[derive(Clone, Copy, Debug, PartialEq, Eq, Structural)]
pub struct CameraController {
    pub orbit_mode: bool,
    pub orbit_focus: Point3,
}

/// The single camera: transform, high-dynamic-range flag, antialiasing
/// flag, the set of attached prepass markers, and navigation settings.
/// The prepass markers are the only state mutated during the run.
#[derive(Clone, Copy, Debug, PartialEq, Eq, Structural)]
pub struct Camera {
    pub position: Point3,
    pub look_at: Point3,
    pub hdr: bool,
    pub fxaa: bool,
    pub prepass: PrepassFlags,
    pub controller: CameraController,
}

/// The whole static scene: the two material registries (indexed by the
/// material references), the drawable nodes, the lights, and the camera.
#[derive(Clone, Debug)]
pub struct Scene {
    pub standard_materials: Vec<StandardMaterial>,
    pub glow_materials: Vec<GlowyMaterial>,
    pub nodes: Vec<SceneNode>,
    pub lights: Vec<LightNode>,
    pub camera: Camera,
}

/// The twelve hand-authored orb positions, in hundredths of a unit.
pub open spec fn orb_positions() -> Seq<Point3> {
    seq![
        Point3 { x: -15i32, y: 100i32, z: -200i32 },
        Point3 { x: 170i32, y: 107i32, z: -61i32 },
        Point3 { x: 21i32, y: 105i32, z: 199i32 },
        Point3 { x: -216i32, y: 100i32, z: 1i32 },
        Point3 { x: -220i32, y: 100i32, z: 213i32 },
        Point3 { x: -106i32, y: 204i32, z: 102i32 },
        Point3 { x: 194i32, y: 102i32, z: 116i32 },
        Point3 { x: 91i32, y: 247i32, z: 83i32 },
        Point3 { x: 46i32, y: 248i32, z: -81i32 },
        Point3 { x: -205i32, y: 93i32, z: -192i32 },
        Point3 { x: -138i32, y: 246i32, z: -91i32 },
        Point3 { x: -22i32, y: 348i32, z: 18i32 },
    ]
}

/// Asset path of the environment reflection texture.
pub open spec fn env_texture_path() -> Seq<char> {
    "textures/stone_alley_02_1k.hdr"@
}

/// The ground plane node: a 100 x 100 unit quad at the origin with a flat
/// dark gray non-metallic material.
pub open spec fn plane_node() -> SceneNode {
    SceneNode {
        mesh: MeshShape::Plane { size: PLANE_SIZE },
        position: Point3 { x: 0, y: 0, z: 0 },
        material: MaterialRef::Standard(0),
    }
}

/// An orb node at position `p`: a unit-radius sphere using the single
/// shared glowy material instance.
pub open spec fn orb_node(p: Point3) -> SceneNode {
    SceneNode {
        mesh: MeshShape::Sphere { radius: ORB_RADIUS },
        position: p,
        material: MaterialRef::Glow(0),
    }
}

/// The child light of the orb node at index `parent`: fixed intensity,
/// unit radius, dark red-orange color.
pub open spec fn orb_light(parent: usize) -> LightNode {
    LightNode {
        parent,
        intensity: ORB_LIGHT_INTENSITY,
        radius: ORB_LIGHT_RADIUS,
        color: ColorRgb { r: 50, g: 10, b: 0 },
    }
}

/// The camera as built at startup: positioned at (8, 5, 8) looking at
/// (0, 0.5, 0), HDR output on, antialiasing on, the depth, motion-vector
/// and deferred prepass markers attached and no normal-prepass marker,
/// orbit navigation focused on (0, 0.5, 0).
pub open spec fn startup_camera() -> Camera {
    Camera {
        position: Point3 { x: 800, y: 500, z: 800 },
        look_at: Point3 { x: 0, y: 50, z: 0 },
        hdr: true,
        fxaa: true,
        prepass: PrepassFlags { depth: true, motion_vector: true, deferred: true, normal: false },
        controller: CameraController {
            orbit_mode: true,
            orbit_focus: Point3 { x: 0, y: 50, z: 0 },
        },
    }
}

/// Exactly the scene that the builder produces: one standard material (flat
/// dark gray), one glowy material bound to the environment texture, the
/// plane node followed by the twelve orb nodes, one child light per orb,
/// and the startup camera.
pub open spec fn is_demo_scene(s: Scene) -> bool {
    &&& s.standard_materials@ =~= seq![
        StandardMaterial { base_color: ColorRgb { r: 10, g: 10, b: 10 } },
    ]
    &&& s.glow_materials@.len() == 1
    &&& s.glow_materials@[0].env_texture matches Some(h) && h.path@ == env_texture_path()
    &&& s.nodes@.len() == ORB_COUNT + 1
    &&& s.nodes@[0] == plane_node()
    &&& forall|i: int|
        0 <= i < ORB_COUNT ==> s.nodes@[i + 1] == orb_node(#[trigger] orb_positions()[i])
    &&& s.lights@.len() == ORB_COUNT
    &&& forall|i: int| 0 <= i < ORB_COUNT ==> s.lights@[i] == #[trigger] orb_light((i + 1) as usize)
    &&& s.camera == startup_camera()
}

/// The orb positions as a vector, in authoring order.
pub fn orb_locations() -> (v: Vec<Point3>)
    ensures
        v@ == orb_positions(),
{
    let mut v: Vec<Point3> = Vec::new();
    v.push(Point3 { x: -15, y: 100, z: -200 });
    v.push(Point3 { x: 170, y: 107, z: -61 });
    v.push(Point3 { x: 21, y: 105, z: 199 });
    v.push(Point3 { x: -216, y: 100, z: 1 });
    v.push(Point3 { x: -220, y: 100, z: 213 });
    v.push(Point3 { x: -106, y: 204, z: 102 });
    v.push(Point3 { x: 194, y: 102, z: 116 });
    v.push(Point3 { x: 91, y: 247, z: 83 });
    v.push(Point3 { x: 46, y: 248, z: -81 });
    v.push(Point3 { x: -205, y: 93, z: -192 });
    v.push(Point3 { x: -138, y: 246, z: -91 });
    v.push(Point3 { x: -22, y: 348, z: 18 });
    proof {
        assert(v@ =~= orb_positions());
    }
    v
}

/// Builds the static scene. Runs exactly once, before the first frame; it
/// has no inputs (every parameter is a literal constant) and cannot fail.
pub fn setup() -> (s: Scene)
    ensures
        is_demo_scene(s),
{
    // Load the environment reflection texture and register the single
    // shared glowy material instance.
    let env_texture = ImageHandle { path: "textures/stone_alley_02_1k.hdr" };
    let mut glow_materials: Vec<GlowyMaterial> = Vec::new();
    glow_materials.push(GlowyMaterial { env_texture: Some(env_texture) });

    // Flat dark gray non-metallic material for the ground plane.
    let mut standard_materials: Vec<StandardMaterial> = Vec::new();
    standard_materials.push(StandardMaterial { base_color: ColorRgb { r: 10, g: 10, b: 10 } });

    // Ground plane.
    let mut nodes: Vec<SceneNode> = Vec::new();
    nodes.push(SceneNode {
        mesh: MeshShape::Plane { size: PLANE_SIZE },
        position: Point3 { x: 0, y: 0, z: 0 },
        material: MaterialRef::Standard(0),
    });

    // Orbs, each with one child point light.
    let locations = orb_locations();
    let mut lights: Vec<LightNode> = Vec::new();
    let mut i: usize = 0;
    while i < locations.len()
        invariant
            locations@ == orb_positions(),
            i <= ORB_COUNT,
            nodes@.len() == i + 1,
            nodes@[0] == plane_node(),
            forall|j: int|
                0 <= j < i ==> nodes@[j + 1] == orb_node(#[trigger] orb_positions()[j]),
            lights@.len() == i,
            forall|j: int| 0 <= j < i ==> lights@[j] == #[trigger] orb_light((j + 1) as usize),
        decreases locations.len() - i,
    {
        let location = locations[i];
        nodes.push(SceneNode {
            mesh: MeshShape::Sphere { radius: ORB_RADIUS },
            position: location,
            material: MaterialRef::Glow(0),
        });
        lights.push(LightNode {
            parent: i + 1,
            intensity: ORB_LIGHT_INTENSITY,
            radius: ORB_LIGHT_RADIUS,
            color: ColorRgb { r: 50, g: 10, b: 0 },
        });
        i = i + 1;
    }

    // Camera: HDR, antialiasing, the three default prepass markers, orbit
    // navigation focused just above the origin.
    let camera = Camera {
        position: Point3 { x: 800, y: 500, z: 800 },
        look_at: Point3 { x: 0, y: 50, z: 0 },
        hdr: true,
        fxaa: true,
        prepass: PrepassFlags { depth: true, motion_vector: true, deferred: true, normal: false },
        controller: CameraController {
            orbit_mode: true,
            orbit_focus: Point3 { x: 0, y: 50, z: 0 },
        },
    };

    Scene { standard_materials, glow_materials, nodes, lights, camera }
}

/// Whether node index `i` holds an orb (a sphere mesh).
pub open spec fn is_orb_index(s: Scene, i: int) -> bool {
    0 <= i < s.nodes@.len() && s.nodes@[i].mesh is Sphere
}

/// The set of node indices that hold orbs.
pub open spec fn orb_indices(s: Scene) -> Set<int> {
    Set::new(|i: int| is_orb_index(s, i))
}

/// The set of light indices whose light is a child of node `node`.
pub open spec fn lights_of(s: Scene, node: int) -> Set<int> {
    Set::new(|j: int| 0 <= j < s.lights@.len() && s.lights@[j].parent as int == node)
}

/// In the built scene, exactly twelve orb nodes exist; every orb references
/// glowy material handle 0 — the same handle into a registry holding a
/// single instance, hence the very same material, not a value copy; each
/// orb has exactly one child light, and every light is the child of an orb.
pub proof fn lemma_demo_scene_orbs(s: Scene)
    requires
        is_demo_scene(s),
    ensures
        orb_indices(s).finite(),
        orb_indices(s).len() == ORB_COUNT,
        forall|i: int|
            #[trigger] is_orb_index(s, i) ==> s.nodes@[i].material == MaterialRef::Glow(0),
        s.glow_materials@.len() == 1,
        forall|i: int| #[trigger] is_orb_index(s, i) ==> lights_of(s, i).len() == 1,
        forall|j: int|
            0 <= j < s.lights@.len() ==> is_orb_index(s, #[trigger] s.lights@[j].parent as int),
{
    let hi: int = 1 + ORB_COUNT as int;
    assert forall|i: int| 1 <= i < hi implies
        is_orb_index(s, i) && s.nodes@[i].material == MaterialRef::Glow(0) by {
        assert(s.nodes@[i] == orb_node(orb_positions()[i - 1]));
    }
    assert(orb_indices(s) =~= set_int_range(1, hi));
    lemma_int_range(1, hi);
    assert forall|i: int| #[trigger] is_orb_index(s, i) implies lights_of(s, i).len() == 1 by {
        assert forall|j: int| 0 <= j < s.lights@.len() implies
            (#[trigger] s.lights@[j].parent as int == i <==> j == i - 1) by {
            assert(s.lights@[j] == orb_light((j + 1) as usize));
        }
        assert(lights_of(s, i) =~= set_int_range(i - 1, i));
        lemma_int_range(i - 1, i);
    }
    assert forall|j: int| 0 <= j < s.lights@.len() implies
        is_orb_index(s, #[trigger] s.lights@[j].parent as int) by {
        assert(s.lights@[j] == orb_light((j + 1) as usize));
        assert(s.nodes@[j + 1] == orb_node(orb_positions()[j]));
    }
}

} // verus!
