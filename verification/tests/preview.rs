//! Preview meshes, environments and map slots.

use lumagen::preview::{cube_mesh, mesh_index, plane_mesh, slot_step, sphere_indices, EnvPreset, Mesh, SlotStep};
use lumagen::state::PreviewMesh;

type Vec3 = [f32; 3];

struct Shape {
    pos: Vec<Vec3>,
    normal: Vec<Vec3>,
    handedness: Vec<f32>,
    indices: Vec<u32>,
}

fn vsub(a: Vec3, b: Vec3) -> Vec3 {
    [a[0] - b[0], a[1] - b[1], a[2] - b[2]]
}

fn vcross(a: Vec3, b: Vec3) -> Vec3 {
    [a[1] * b[2] - a[2] * b[1], a[2] * b[0] - a[0] * b[2], a[0] * b[1] - a[1] * b[0]]
}

fn vdot(a: Vec3, b: Vec3) -> f32 {
    a[0] * b[0] + a[1] * b[1] + a[2] * b[2]
}

fn shape_of(mesh: &Mesh) -> Shape {
    Shape {
        pos: mesh.vertices.iter().map(|c| [c.x as f32, c.y as f32, c.z as f32]).collect(),
        normal: mesh.vertices.iter().map(|c| [c.nx as f32, c.ny as f32, c.nz as f32]).collect(),
        handedness: mesh.vertices.iter().map(|c| c.handedness as f32).collect(),
        indices: mesh.indices.clone(),
    }
}

fn sphere(segments: u32, rings: u32) -> Shape {
    let mut pos = Vec::new();
    for r in 0..=rings {
        let phi = r as f32 / rings as f32 * std::f32::consts::PI;
        for s in 0..=segments {
            let theta = s as f32 / segments as f32 * std::f32::consts::TAU;
            let (sp, cp) = phi.sin_cos();
            let (st, ct) = theta.sin_cos();
            pos.push([sp * ct, cp, sp * st]);
        }
    }
    Shape { normal: pos.clone(), handedness: Vec::new(), pos, indices: sphere_indices(segments, rings) }
}

fn assert_outward(mesh: &Shape, name: &str) {
    let mut checked = 0;
    for tri in mesh.indices.chunks_exact(3) {
        let [a, b, c] = [mesh.pos[tri[0] as usize], mesh.pos[tri[1] as usize], mesh.pos[tri[2] as usize]];
        let n = vcross(vsub(b, a), vsub(c, a));
        if vdot(n, n) < 1e-10 {
            continue; // degenerate (sphere pole rows)
        }
        let out = mesh.normal[tri[0] as usize];
        assert!(vdot(n, out) > 0.0, "{name}: triangle {tri:?} wound against its shading normal");
        checked += 1;
    }
    assert!(checked > 0, "{name}: no non-degenerate triangles checked");
}

#[test]
fn meshes_wind_outward() {
    assert_outward(&sphere(24, 16), "sphere");
    assert_outward(&shape_of(&cube_mesh()), "cube");
    assert_outward(&shape_of(&plane_mesh()), "plane");
}

#[test]
fn tangent_handedness_is_negative() {
    for mesh in [shape_of(&plane_mesh()), shape_of(&cube_mesh())] {
        for h in &mesh.handedness {
            assert!((h + 1.0).abs() < f32::EPSILON);
        }
    }
}

#[test]
fn sphere_patches_share_their_corners() {
    assert_eq!(sphere_indices(2, 1), vec![0, 1, 3, 1, 4, 3, 1, 2, 4, 2, 5, 4]);
    assert_eq!(sphere_indices(24, 16).len(), 24 * 16 * 6);
    assert!(sphere_indices(24, 16).iter().all(|&i| i < 25 * 17));
    assert!(sphere_indices(5, 0).is_empty());
}

#[test]
fn flat_meshes_have_four_corners_a_face() {
    assert_eq!(cube_mesh().vertices.len(), 24);
    assert_eq!(cube_mesh().indices.len(), 36);
    assert_eq!(plane_mesh().vertices.len(), 8);
    assert_eq!(plane_mesh().indices.len(), 12);
}

#[test]
fn meshes_have_their_own_buffers() {
    assert_eq!(mesh_index(PreviewMesh::Sphere), 0);
    assert_eq!(mesh_index(PreviewMesh::Plane), 1);
    assert_eq!(mesh_index(PreviewMesh::Cube), 2);
}

#[test]
fn environments_by_name() {
    let night = EnvPreset::from_hdri("Night City");
    let soft = EnvPreset::from_hdri("Studio Soft");
    let other = EnvPreset::from_hdri("no such place");
    assert!(night != soft);
    assert!(other == soft, "an unknown name stands for the studio");
    assert!(EnvPreset::from_hdri("Warehouse") != EnvPreset::from_hdri("Outdoor Noon"));
}

#[test]
fn a_slot_uploads_only_what_it_lacks() {
    let full = 400 * 400 * 4;
    assert_eq!(slot_step(None, 400, false), SlotStep::White);
    assert_eq!(slot_step(Some(7), 400, false), SlotStep::White, "a buffer of another size is not uploaded");
    assert_eq!(slot_step(Some(full), 400, false), SlotStep::Upload);
    assert_eq!(slot_step(Some(full), 400, true), SlotStep::Keep);
}

#[test]
fn warehouse_light_in_thousandths() {
    let env = EnvPreset::from_hdri("Warehouse");
    assert_eq!(env.key_intensity, 2600);
    assert_eq!((env.key_color.r, env.key_color.g, env.key_color.b), (1000, 950, 850));
    assert_eq!(env.exposure, 1000);
}
