use raytrace_core::assembly::{assemble_scene, AssemblyError, ElementKind, MeshSource, Scene, SceneSources, TextureSlot};
use raytrace_core::bvh::{validate, BvhNode};
use raytrace_core::geometry::{Material, Sphere, Triangle, TriangleUniform};
use raytrace_core::model::{mesh_source_from_models, ModelData};

fn tri(material_id: i32, texture_ids: [i32; 3], x: f32) -> Triangle {
    let p = |a: f32, b: f32, c: f32| [a.to_bits(), b.to_bits(), c.to_bits()];
    Triangle::new(
        [p(x, 0.0, 0.0), p(x + 1.0, 0.0, 0.0), p(x, 1.0, 0.0)],
        p(0.0, 0.0, 1.0),
        material_id,
        texture_ids,
        [[0, 0], [0, 0], [0, 0]],
    )
}

fn sphere(material_id: i32) -> Sphere {
    Sphere::new([0, 0, 0], 1.0f32.to_bits(), material_id, [-1, -1, -1], 0.5f32.to_bits())
}

fn no_model() -> MeshSource {
    MeshSource { triangles: vec![], materials: vec![], texture_count: 0 }
}

fn empty_sources() -> SceneSources {
    SceneSources {
        materials: vec![],
        config_texture_count: 0,
        mesh_triangles: vec![],
        model: no_model(),
        spheres: vec![],
    }
}

fn max_material_id(scene: &Scene) -> i32 {
    let t = scene.triangles.iter().map(|t| t.material_id);
    let s = scene.spheres.iter().map(|s| s.material_texture_id[0]);
    t.chain(s).max().unwrap()
}

#[test]
fn empty_scene_gets_one_placeholder_of_each() {
    let scene = assemble_scene(empty_sources()).unwrap();
    assert_eq!(scene.triangles.len(), 1);
    assert_eq!(scene.triangle_uniforms.len(), 1);
    assert_eq!(scene.textures, vec![TextureSlot::Blank]);
    assert_eq!(scene.spheres.len(), 1);
    assert_eq!(scene.materials.len(), 1);
    let flagged = TriangleUniform::empty();
    assert_eq!(scene.triangle_uniforms[0].vertex1, flagged.vertex1);
    assert_eq!(scene.triangle_uniforms[0].vertex2, flagged.vertex2);
    assert_eq!(scene.triangle_uniforms[0].vertex3, flagged.vertex3);
    assert_eq!(scene.triangle_uniforms[0].vertex1, [1.0f32.to_bits(); 4]);
    let leaf = BvhNode { count: 1, left_first: 0, ..BvhNode::new() };
    assert!(validate(&vec![leaf], &vec![0], scene.triangles.len()));
}

#[test]
fn two_materials_one_sphere_no_meshes() {
    let mut src = empty_sources();
    src.materials = vec![Material::default(), Material::default()];
    src.spheres = vec![sphere(0)];
    let scene = assemble_scene(src).unwrap();
    assert_eq!(scene.materials.len(), 2);
    assert_eq!(scene.spheres.len(), 1);
    assert_eq!(scene.triangles.len(), 1);
    assert_eq!(scene.triangle_uniforms[0].vertex3, [3.0f32.to_bits(); 4]);
    let leaf = BvhNode { count: 1, left_first: 0, ..BvhNode::new() };
    assert!(validate(&vec![leaf], &vec![0], 1));
}

#[test]
fn sphere_texture_ids_are_carried_as_given() {
    let mut src = empty_sources();
    src.materials = vec![Material::default(), Material::default()];
    src.spheres = vec![Sphere::new([0, 0, 0], 1.0f32.to_bits(), 0, [0, 1, 2], 0)];
    let scene = assemble_scene(src).unwrap();
    assert_eq!(scene.spheres[0].material_texture_id, [0, 0, 1, 2]);
    assert_eq!(scene.triangles.len(), 1);
    assert_eq!(scene.textures, vec![TextureSlot::Blank]);
}

#[test]
fn mesh_without_faces_gets_the_flagged_placeholder() {
    let mut src = empty_sources();
    src.materials = vec![Material::default()];
    src.model = MeshSource { triangles: vec![], materials: vec![Material::default()], texture_count: 0 };
    let scene = assemble_scene(src).unwrap();
    assert_eq!(scene.triangles.len(), 1);
    assert_eq!(scene.triangle_uniforms[0].vertex2, [2.0f32.to_bits(); 4]);
}

#[test]
fn asset_ids_continue_after_configuration() {
    let mut src = empty_sources();
    src.materials = vec![Material::default(); 3];
    src.config_texture_count = 2;
    src.mesh_triangles = vec![tri(2, [-1, -1, -1], 0.0)];
    src.model = MeshSource {
        triangles: vec![tri(0, [0, -1, 1], 1.0), tri(1, [-1, 2, -1], 2.0)],
        materials: vec![Material::default(); 2],
        texture_count: 3,
    };
    let scene = assemble_scene(src).unwrap();
    assert_eq!(scene.materials.len(), 5);
    assert_eq!(
        scene.textures,
        vec![
            TextureSlot::Config(0),
            TextureSlot::Config(1),
            TextureSlot::Model(0),
            TextureSlot::Model(1),
            TextureSlot::Model(2)
        ]
    );
    let ids: Vec<(i32, [i32; 3])> = scene.triangles.iter().map(|t| (t.material_id, t.texture_ids)).collect();
    assert_eq!(ids, vec![(2, [-1, -1, -1]), (3, [2, -1, 3]), (4, [-1, 4, -1])]);
    assert_eq!(scene.triangle_uniforms[1].material_texture_id, [3, 2, -1, 3]);
    assert_eq!(scene.spheres.len(), 1);
    assert!(max_material_id(&scene) < scene.materials.len() as i32);
}

#[test]
fn unresolved_material_is_fatal() {
    let mut src = empty_sources();
    src.materials = vec![Material::default()];
    src.mesh_triangles = vec![tri(0, [-1, -1, -1], 0.0), tri(1, [-1, -1, -1], 1.0)];
    let e = assemble_scene(src).err().unwrap();
    assert_eq!(e, AssemblyError::UnresolvedId { element: ElementKind::MeshTriangle, index: 1 });
}

#[test]
fn mesh_material_without_any_material_is_fatal() {
    let mut src = empty_sources();
    src.mesh_triangles = vec![tri(0, [-1, -1, -1], 0.0)];
    let e = assemble_scene(src).err().unwrap();
    assert_eq!(e, AssemblyError::UnresolvedId { element: ElementKind::MeshTriangle, index: 0 });
}

#[test]
fn unresolved_asset_texture_is_fatal() {
    let mut src = empty_sources();
    src.model = MeshSource {
        triangles: vec![tri(0, [0, -1, -1], 0.0), tri(0, [1, -1, -1], 0.0)],
        materials: vec![Material::default()],
        texture_count: 1,
    };
    let e = assemble_scene(src).err().unwrap();
    assert_eq!(e, AssemblyError::UnresolvedId { element: ElementKind::ModelTriangle, index: 1 });
}

#[test]
fn unresolved_sphere_is_fatal() {
    let mut src = empty_sources();
    src.materials = vec![Material::default(); 2];
    src.spheres = vec![sphere(1), sphere(2)];
    let e = assemble_scene(src).err().unwrap();
    assert_eq!(e, AssemblyError::UnresolvedId { element: ElementKind::Sphere, index: 1 });
}

fn mixed_sources() -> SceneSources {
    SceneSources {
        materials: vec![Material::default(); 2],
        config_texture_count: 1,
        mesh_triangles: vec![tri(1, [-1, -1, -1], 0.0)],
        model: MeshSource {
            triangles: vec![tri(0, [0, -1, -1], 3.0)],
            materials: vec![Material::default()],
            texture_count: 1,
        },
        spheres: vec![sphere(0), sphere(1)],
    }
}

#[test]
fn assembly_is_repeatable() {
    let a = assemble_scene(mixed_sources()).unwrap();
    let b = assemble_scene(mixed_sources()).unwrap();
    assert_eq!(a.triangles.len(), b.triangles.len());
    assert_eq!(a.materials.len(), b.materials.len());
    assert_eq!(a.spheres.len(), b.spheres.len());
    assert_eq!(a.textures, b.textures);
    for (x, y) in a.triangles.iter().zip(b.triangles.iter()) {
        assert_eq!((x.points, x.normal, x.material_id, x.texture_ids, x.tex_coords), (y.points, y.normal, y.material_id, y.texture_ids, y.tex_coords));
    }
    for (x, y) in a.spheres.iter().zip(b.spheres.iter()) {
        assert_eq!((x.center, x.radius, x.material_texture_id), (y.center, y.radius, y.material_texture_id));
    }
    assert!(max_material_id(&a) < a.materials.len() as i32);
}

fn model(has: [bool; 4], triangles: usize) -> ModelData {
    ModelData {
        material: Material::default(),
        has_base_color: has[0],
        has_roughness: has[1],
        has_normal: has[2],
        has_emissive: has[3],
        triangles: vec![tri(99, [9, 9, 9], 0.0); triangles],
    }
}

#[test]
fn model_textures_take_consecutive_ids() {
    let models = vec![
        model([true, true, true, true], 1),
        model([true, false, true, false], 1),
        model([false, true, false, true], 2),
        model([false, false, false, false], 1),
    ];
    let src = mesh_source_from_models(&models);
    assert_eq!(src.materials.len(), 4);
    assert_eq!(src.texture_count, 8);
    let ids: Vec<(i32, [i32; 3])> = src.triangles.iter().map(|t| (t.material_id, t.texture_ids)).collect();
    assert_eq!(ids, vec![(0, [0, 1, 2]), (1, [4, -1, 5]), (2, [-1, 6, -1]), (2, [-1, 6, -1]), (3, [-1, -1, -1])]);
}

#[test]
fn model_source_assembles_after_configuration() {
    let models = vec![model([true, false, false, false], 2)];
    let mut src = empty_sources();
    src.materials = vec![Material::default()];
    src.config_texture_count = 3;
    src.model = mesh_source_from_models(&models);
    let scene = assemble_scene(src).unwrap();
    assert_eq!(scene.triangles.len(), 2);
    assert_eq!(scene.triangles[0].material_id, 1);
    assert_eq!(scene.triangles[0].texture_ids, [3, -1, -1]);
    assert_eq!(scene.textures.len(), 4);
}
