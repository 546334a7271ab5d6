use raytrace_core::bvh::{BvhNode, BvhUniform};
use raytrace_core::camera::CameraUniform;
use raytrace_core::geometry::{Background, Material, Sphere, Triangle, TriangleUniform};

fn b(x: f32) -> u32 {
    x.to_bits()
}

fn b3(v: [f32; 3]) -> [u32; 3] {
    v.map(f32::to_bits)
}

fn b4(v: [f32; 4]) -> [u32; 4] {
    v.map(f32::to_bits)
}

fn sample_triangle() -> Triangle {
    Triangle::new(
        [b3([0.0, 0.0, 0.0]), b3([1.0, 0.0, 0.0]), b3([0.0, 1.0, 0.0])],
        b3([0.0, 0.0, 1.0]),
        1,
        [1, 1, 1],
        [[b(0.0), b(0.0)], [b(1.0), b(0.0)], [b(0.0), b(1.0)]],
    )
}

#[test]
fn test_camera_uniform() {
    let camera = CameraUniform::new();
    assert_eq!(camera.frame, 0);
    assert_eq!(camera.pose.fov_degrees, b(0.0));
    assert_eq!(camera.pose.view_position, b4([0.0; 4]));
}

#[test]
fn update_frame() {
    let mut camera = CameraUniform::new();
    camera.update_frame();
    assert_eq!(camera.frame, 1);
    assert_eq!(camera.pose.fov_degrees, b(0.0));
}

#[test]
fn camera_uniform_starts_with_identity_rotation() {
    let camera = CameraUniform::new();
    assert_eq!(camera.pose.view_proj[0], b4([1.0, 0.0, 0.0, 0.0]));
    assert_eq!(camera.pose.view_proj[3], b4([0.0, 0.0, 0.0, 1.0]));
}

#[test]
fn frame_counter_stops_at_its_largest_value() {
    let mut camera = CameraUniform::new();
    camera.frame = u32::MAX;
    camera.update_frame();
    assert_eq!(camera.frame, u32::MAX);
}

#[test]
fn test_material() {
    let material = Material::new(b3([1.0, 1.0, 1.0]), b3([1.0, 1.0, 1.0]), b(0.5), b(0.0), b(0.0));
    assert_eq!(material.albedo, b4([1.0, 1.0, 1.0, 0.0]));
    assert_eq!(material.attenuation, b4([1.0, 1.0, 1.0, 0.0]));
    assert_eq!(material.roughness, b(0.5));
    assert_eq!(material.emission, b(0.0));
    assert_eq!(material.ior, b(0.0));
}

#[test]
fn material_default_is_white_and_half_rough() {
    let material = Material::default();
    assert_eq!(material.albedo, b4([1.0, 1.0, 1.0, 1.0]));
    assert_eq!(material.attenuation, b4([1.0, 1.0, 1.0, 1.0]));
    assert_eq!(material.roughness, b(0.5));
    assert_eq!(material.emission, b(0.0));
}

#[test]
fn test_background() {
    let background = Background::new(1, 1, b(1.0));
    assert_eq!((background.material_id, background.texture_id), (1, 1));
    assert_eq!(background.intensity, b(1.0));
}

#[test]
fn background_default_has_no_material_or_texture() {
    let background = Background::default();
    assert_eq!((background.material_id, background.texture_id), (-1, -1));
    assert_eq!(background.intensity, b(1.0));
}

#[test]
fn test_sphere() {
    let sphere = Sphere::new(b3([0.0, 0.0, 0.0]), b(1.0), 1, [1, 1, 1], b(0.25));
    assert_eq!(sphere.center[0..3], b3([0.0, 0.0, 0.0]));
    assert_eq!(sphere.center[3], b(0.25));
    assert_eq!(sphere.radius, b4([1.0, 0.0, 0.0, 0.0]));
    assert_eq!(sphere.material_texture_id, [1, 1, 1, 1]);
}

#[test]
fn test_triangle() {
    let triangle = sample_triangle();
    assert_eq!(triangle.points, [b3([0.0, 0.0, 0.0]), b3([1.0, 0.0, 0.0]), b3([0.0, 1.0, 0.0])]);
    assert_eq!(triangle.normal, b3([0.0, 0.0, 1.0]));
    assert_eq!(triangle.material_id, 1);
    assert_eq!(triangle.texture_ids, [1, 1, 1]);
    assert_eq!(triangle.tex_coords, [[b(0.0), b(0.0)], [b(1.0), b(0.0)], [b(0.0), b(1.0)]]);
}

#[test]
fn test_triangle_uniform() {
    let triangle_uniform = TriangleUniform::new(sample_triangle());
    assert_eq!(triangle_uniform.vertex1, b4([0.0, 0.0, 0.0, 0.0]));
    assert_eq!(triangle_uniform.vertex2, b4([1.0, 0.0, 0.0, 0.0]));
    assert_eq!(triangle_uniform.vertex3, b4([0.0, 1.0, 0.0, 0.0]));
    assert_eq!(triangle_uniform.normal, b4([0.0, 0.0, 1.0, 0.0]));
    assert_eq!(triangle_uniform.material_texture_id, [1, 1, 1, 1]);
    assert_eq!(triangle_uniform.texcoords1, b4([0.0, 0.0, 1.0, 0.0]));
    assert_eq!(triangle_uniform.texcoords2, b4([0.0, 1.0, 0.0, 0.0]));
}

#[test]
fn packing_round_trip_is_bit_exact() {
    let t = Triangle::new(
        [b3([-0.0, 1.5e-30, f32::MAX]), b3([3.25, -7.0, 0.1]), b3([f32::MIN_POSITIVE, 2.0, -1.0])],
        b3([0.577, -0.577, 0.577]),
        7,
        [3, -1, 4],
        [[b(0.125), b(0.875)], [b(1.0), b(0.3)], [b(0.0), b(-2.5)]],
    );
    let back = TriangleUniform::new(t).to_triangle();
    assert_eq!(back.points, t.points);
    assert_eq!(back.normal, t.normal);
    assert_eq!(back.tex_coords, t.tex_coords);
    assert_eq!(back.material_id, 7);
    assert_eq!(back.texture_ids, [3, -1, 4]);
}

#[test]
fn empty_triangle_record_is_flagged() {
    let u = TriangleUniform::empty();
    assert_eq!(u.vertex1, b4([1.0; 4]));
    assert_eq!(u.vertex2, b4([2.0; 4]));
    assert_eq!(u.vertex3, b4([3.0; 4]));
    assert_eq!(u.material_texture_id, [0; 4]);
}

#[test]
fn test_bvh_uniform() {
    let bvh = BvhNode::new();
    let bvh_uniform = BvhUniform::new(&bvh);
    assert_eq!(bvh_uniform.bounds_min, b4([1e34, 1e34, 1e34, 0.0]));
    assert_eq!(bvh_uniform.bounds_max, b4([-1e34, -1e34, -1e34, 0.0]));
    assert_eq!(bvh_uniform.bounds_extra1, [0, 0, 0, 0]);
    assert_eq!(bvh_uniform.bounds_extra2, [0, 0, 0, 0]);
}
