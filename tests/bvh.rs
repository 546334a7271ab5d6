use raytrace_core::bvh::{leaf_sizes_within, pack_bvh, validate, BvhError, BvhNode};
use raytrace_core::geometry::Triangle;
use rtbvh::{Aabb, Builder, Primitive};

#[derive(Debug, Clone, Copy)]
struct Tri([[f32; 3]; 3]);

impl Primitive for Tri {
    fn center(&self) -> glam::Vec3 {
        (glam::Vec3::from(self.0[0]) + glam::Vec3::from(self.0[1]) + glam::Vec3::from(self.0[2])) / 3.0
    }

    fn aabb(&self) -> Aabb {
        let mut aabb = Aabb::new();
        for p in self.0 {
            aabb.grow(p.into());
        }
        aabb
    }
}

fn leaf(first: i32, count: i32) -> BvhNode {
    BvhNode { count, left_first: first, ..BvhNode::new() }
}

fn inner(left: i32) -> BvhNode {
    BvhNode { count: -1, left_first: left, ..BvhNode::new() }
}

fn build(tris: &[Tri]) -> (Vec<BvhNode>, Vec<u32>) {
    let aabbs: Vec<Aabb> = tris.iter().map(|t| t.aabb()).collect();
    let builder = Builder {
        aabbs: Some(aabbs.as_slice()),
        primitives: tris,
        primitives_per_leaf: std::num::NonZeroUsize::new(1),
    };
    let (nodes, prims) = builder.construct_binned_sah().unwrap().into_raw();
    let nodes = nodes
        .iter()
        .map(|n| BvhNode {
            bounds_min: n.bounds.min.to_array().map(f32::to_bits),
            bounds_max: n.bounds.max.to_array().map(f32::to_bits),
            count: n.bounds.extra1,
            left_first: n.bounds.extra2,
        })
        .collect();
    (nodes, prims)
}

fn cube() -> Vec<Tri> {
    let v = |i: usize| [(i & 1) as f32, ((i >> 1) & 1) as f32, ((i >> 2) & 1) as f32];
    let faces = [
        [0, 1, 3], [0, 3, 2], [4, 6, 7], [4, 7, 5], [0, 4, 5], [0, 5, 1],
        [2, 3, 7], [2, 7, 6], [0, 2, 6], [0, 6, 4], [1, 5, 7], [1, 7, 3],
    ];
    faces.iter().map(|f| Tri([v(f[0]), v(f[1]), v(f[2])])).collect()
}

#[test]
fn cube_hierarchy_covers_every_triangle_once() {
    let tris = cube();
    assert_eq!(tris.len(), 12);
    let (nodes, prims) = build(&tris);
    assert!(validate(&nodes, &prims, 12));
    assert!(leaf_sizes_within(&nodes, 1));
    let mut covered: Vec<u32> = Vec::new();
    for n in nodes.iter().filter(|n| n.count >= 0) {
        assert!(n.count <= 1);
        covered.extend_from_slice(&prims[n.left_first as usize..(n.left_first + n.count) as usize]);
    }
    covered.sort();
    assert_eq!(covered, (0..12).collect::<Vec<u32>>());
}

#[test]
fn built_hierarchies_validate() {
    for n in [1usize, 2, 3, 7, 40] {
        let tris: Vec<Tri> = (0..n)
            .map(|i| {
                let x = (i * 37 % 11) as f32;
                let y = (i * 13 % 7) as f32;
                Tri([[x, y, 0.0], [x + 1.0, y, 0.5], [x, y + 1.0, 1.0]])
            })
            .collect();
        let (nodes, prims) = build(&tris);
        assert!(validate(&nodes, &prims, n));
        assert!(!validate(&nodes, &prims, n + 1));
    }
}

#[test]
fn single_placeholder_triangle_builds_one_leaf() {
    let t = Triangle::empty();
    let tris = vec![Tri(t.points.map(|p| p.map(f32::from_bits)))];
    let (nodes, prims) = build(&tris);
    assert_eq!(prims, vec![0]);
    assert!(validate(&nodes, &prims, 1));
}

#[test]
fn one_leaf_tree_validates() {
    assert!(validate(&vec![leaf(0, 1)], &vec![0], 1));
}

#[test]
fn duplicate_primitive_is_rejected() {
    let nodes = vec![inner(1), leaf(0, 2), leaf(1, 1)];
    assert!(!validate(&nodes, &vec![1, 0], 2));
}

#[test]
fn missing_primitive_is_rejected() {
    let nodes = vec![inner(1), leaf(0, 1), leaf(1, 0)];
    assert!(!validate(&nodes, &vec![0, 1], 2));
}

#[test]
fn out_of_range_index_is_rejected() {
    assert!(!validate(&vec![leaf(0, 2)], &vec![0, 2], 2));
}

#[test]
fn range_past_the_index_array_is_rejected() {
    assert!(!validate(&vec![leaf(1, 2)], &vec![0, 1], 2));
}

#[test]
fn child_past_the_node_array_is_rejected() {
    assert!(!validate(&vec![inner(1), leaf(0, 1)], &vec![0], 1));
}

#[test]
fn empty_node_array_is_rejected() {
    assert!(!validate(&vec![], &vec![], 0));
}

#[test]
fn two_leaves_split_the_primitives() {
    let nodes = vec![inner(1), leaf(0, 1), leaf(1, 1)];
    assert!(validate(&nodes, &vec![1, 0], 2));
    let records = pack_bvh(&nodes, &vec![1, 0], 2).unwrap();
    assert_eq!(records.len(), 3);
    assert_eq!(records[0].bounds_extra1, [-1, 0, 0, 0]);
    assert_eq!(records[0].bounds_extra2, [1, 0, 0, 0]);
    assert_eq!(records[2].bounds_extra2, [1, 0, 0, 0]);
}

#[test]
fn invalid_hierarchy_is_not_packed() {
    assert_eq!(pack_bvh(&vec![leaf(0, 1)], &vec![0], 2).err(), Some(BvhError::Invalid));
}

#[test]
fn node_that_is_its_own_child_is_rejected() {
    assert!(!validate(&vec![inner(0), leaf(0, 1)], &vec![0], 1));
}

#[test]
fn child_before_its_parent_is_rejected() {
    let nodes = vec![inner(1), leaf(0, 1), inner(0), leaf(1, 1)];
    assert!(!validate(&nodes, &vec![0, 1], 2));
}

#[test]
fn shared_child_is_rejected() {
    let nodes = vec![inner(1), inner(2), leaf(0, 1), leaf(1, 0)];
    assert!(!validate(&nodes, &vec![0], 1));
}

#[test]
fn unreached_leaf_must_be_empty() {
    let nodes = vec![inner(2), leaf(0, 1), leaf(0, 1), leaf(1, 1)];
    assert!(!validate(&nodes, &vec![0, 1], 2));
    let nodes = vec![inner(2), leaf(0, 0), leaf(0, 1), leaf(1, 1)];
    assert!(validate(&nodes, &vec![0, 1], 2));
}

#[test]
fn leaf_sizes_are_checked() {
    let nodes = vec![inner(1), leaf(0, 2), leaf(2, 1)];
    assert!(validate(&nodes, &vec![2, 0, 1], 3));
    assert!(!leaf_sizes_within(&nodes, 1));
    assert!(leaf_sizes_within(&nodes, 2));
}
