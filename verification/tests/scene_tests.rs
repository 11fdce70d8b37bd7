use pthesis::scene::Mesh;
use pthesis::scene::collect_models;
use pthesis::scene::drain_into;
use pthesis::scene::make_model;
use pthesis::vertices::PosUVNormTang;
use pthesis::vertices::Vec2Bits;
use pthesis::vertices::Vec3Bits;

fn vertex() -> PosUVNormTang {
    let zero3 = Vec3Bits { x: 0, y: 0, z: 0 };
    PosUVNormTang {
        position: zero3,
        uv: Vec2Bits { x: 0, y: 0 },
        normal: Vec3Bits { x: 0, y: 0, z: 1.0f32.to_bits() },
        tangent: Vec3Bits { x: 1.0f32.to_bits(), y: 0, z: 0 },
    }
}

fn mesh(name: &str, group: &str, n_faces: usize, n_vertices: usize) -> Mesh {
    Mesh {
        faces: vec![(0, 1, 2); n_faces],
        vertices: vec![vertex(); n_vertices],
        name: name.to_string(),
        group: group.to_string(),
    }
}

/// Zero producers: closing the channel without sending yields an empty
/// collection.
#[test]
fn collecting_nothing_yields_nothing() {
    let arrived: Vec<Mesh> = Vec::new();
    let models = collect_models(&arrived);
    assert!(models.is_empty());
}

/// N meshes across several workers: exactly N models come out, whatever the
/// interleaving was - here one of the possible arrival orders.
#[test]
fn collecting_n_meshes_yields_n_models() {
    let arrived = vec![
        mesh("Sphere", "Sphere", 10, 12),
        mesh("Barrel", "Gun", 4, 6),
        mesh("Grid", "Grid", 200, 121),
        mesh("Trigger", "Gun", 2, 4),
        mesh("Rect", "Rect", 2, 4),
    ];
    let models = collect_models(&arrived);
    assert_eq!(models.len(), 5);
    assert_eq!(models[0].name, "Sphere");
    assert_eq!(models[3].group, "Gun");
    assert_eq!(models[2].n_indices, 600);
    assert_eq!(models[2].n_vertices, 121);
    assert!(models.iter().all(|m| !m.active));

    // The same meshes in another arrival order: still one model per mesh.
    let arrived2 = vec![
        mesh("Trigger", "Gun", 2, 4),
        mesh("Rect", "Rect", 2, 4),
        mesh("Sphere", "Sphere", 10, 12),
        mesh("Grid", "Grid", 200, 121),
        mesh("Barrel", "Gun", 4, 6),
    ];
    assert_eq!(collect_models(&arrived2).len(), 5);
}

/// The frame loop's non-blocking drain appends without disturbing what is
/// already there.
#[test]
fn draining_appends_in_arrival_order() {
    let mut models = collect_models(&vec![mesh("Sphere", "Sphere", 1, 3)]);
    drain_into(&mut models, &vec![mesh("Rect", "Rect", 2, 4), mesh("Grid", "Grid", 3, 5)]);
    assert_eq!(models.len(), 3);
    assert_eq!(models[0].name, "Sphere");
    assert_eq!(models[1].name, "Rect");
    assert_eq!(models[2].name, "Grid");
    drain_into(&mut models, &Vec::new());
    assert_eq!(models.len(), 3);
}

#[test]
fn make_model_counts_three_indices_per_face() {
    let m = make_model(&mesh("Cylinder", "Cylinder", 7, 9));
    assert_eq!(m.n_indices, 21);
    assert_eq!(m.n_vertices, 9);
    assert_eq!(m.name, "Cylinder");
    assert_eq!(m.group, "Cylinder");
    assert!(!m.active);
}

#[test]
fn an_empty_mesh_still_becomes_a_model() {
    let m = make_model(&Mesh {
        faces: Vec::new(),
        vertices: Vec::new(),
        name: "Empty".to_string(),
        group: "Empty".to_string(),
    });
    assert_eq!(m.n_indices, 0);
    assert_eq!(m.n_vertices, 0);
}
