use glowy::geometry::Point3;
use glowy::material::GlowyMaterial;
use glowy::scene::{setup, MaterialRef, MeshShape, ORB_COUNT};

#[test]
fn builds_plane_orbs_lights_camera() {
    let s = setup();
    assert_eq!(s.nodes.len(), ORB_COUNT + 1);
    assert_eq!(s.lights.len(), ORB_COUNT);
    assert_eq!(s.standard_materials.len(), 1);
    assert_eq!(s.glow_materials.len(), 1);
    assert!(matches!(s.nodes[0].mesh, MeshShape::Plane { size: 10000 }));
    assert_eq!(s.nodes[0].material, MaterialRef::Standard(0));
}

#[test]
fn twelve_orbs_at_the_authored_positions() {
    let s = setup();
    let expected = [
        Point3 { x: -15, y: 100, z: -200 },
        Point3 { x: 170, y: 107, z: -61 },
        Point3 { x: 21, y: 105, z: 199 },
        Point3 { x: -216, y: 100, z: 1 },
        Point3 { x: -220, y: 100, z: 213 },
        Point3 { x: -106, y: 204, z: 102 },
        Point3 { x: 194, y: 102, z: 116 },
        Point3 { x: 91, y: 247, z: 83 },
        Point3 { x: 46, y: 248, z: -81 },
        Point3 { x: -205, y: 93, z: -192 },
        Point3 { x: -138, y: 246, z: -91 },
        Point3 { x: -22, y: 348, z: 18 },
    ];
    for (i, want) in expected.iter().enumerate() {
        let node = &s.nodes[i + 1];
        assert!(matches!(node.mesh, MeshShape::Sphere { radius: 100 }));
        assert_eq!(node.position, *want);
    }
}

#[test]
fn all_orbs_share_one_glow_material_instance() {
    let s = setup();
    assert_eq!(s.glow_materials.len(), 1);
    let first = s.nodes[1].material;
    for i in 1..=ORB_COUNT {
        // Same handle into a one-element registry: the same instance,
        // not merely an equal value.
        assert_eq!(s.nodes[i].material, first);
        assert_eq!(s.nodes[i].material, MaterialRef::Glow(0));
    }
}

#[test]
fn each_orb_has_exactly_one_child_light() {
    let s = setup();
    for orb in 1..=ORB_COUNT {
        let n = s.lights.iter().filter(|l| l.parent == orb).count();
        assert_eq!(n, 1);
    }
    for light in &s.lights {
        assert!(matches!(s.nodes[light.parent].mesh, MeshShape::Sphere { .. }));
        assert_eq!(light.intensity, 10000);
        assert_eq!(light.radius, 100);
        assert_eq!(light.color.r, 50);
        assert_eq!(light.color.g, 10);
        assert_eq!(light.color.b, 0);
    }
}

#[test]
fn glow_material_binds_the_environment_texture() {
    let s = setup();
    let m: &GlowyMaterial = &s.glow_materials[0];
    let handle = m.env_texture.expect("the glowy material binds a texture");
    assert_eq!(handle.path, "textures/stone_alley_02_1k.hdr");
}

#[test]
fn camera_is_configured_for_the_demo() {
    let s = setup();
    let c = s.camera;
    assert_eq!(c.position, Point3 { x: 800, y: 500, z: 800 });
    assert_eq!(c.look_at, Point3 { x: 0, y: 50, z: 0 });
    assert!(c.hdr);
    assert!(c.fxaa);
    assert!(c.controller.orbit_mode);
    assert_eq!(c.controller.orbit_focus, Point3 { x: 0, y: 50, z: 0 });
}
