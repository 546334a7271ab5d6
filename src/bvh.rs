use vstd::prelude::*;

verus! {

/// Bit pattern of `1e34f32`, the lower bound of an empty box.
pub const EMPTY_MIN_BITS: u32 = 0x77f6_84df;

/// Bit pattern of `-1e34f32`, the upper bound of an empty box.
pub const EMPTY_MAX_BITS: u32 = 0xf7f6_84df;

/// A node of the flattened hierarchy. A node with `count >= 0` is a leaf
/// that owns the `count` entries of the primitive-index array from
/// `left_first` on; a node with `count < 0` is internal and its children are
/// the nodes `left_first` and `left_first + 1`. Bounds are `f32` bit
/// patterns.
#[derive(Clone, Copy, Debug)]
pub struct BvhNode {
    pub bounds_min: [u32; 3],
    pub bounds_max: [u32; 3],
    pub count: i32,
    pub left_first: i32,
}

impl BvhNode {
    /// An empty leaf with an inverted (empty) box.
    pub fn new() -> (r: BvhNode)
        ensures
            r == (BvhNode {
                bounds_min: [EMPTY_MIN_BITS, EMPTY_MIN_BITS, EMPTY_MIN_BITS],
                bounds_max: [EMPTY_MAX_BITS, EMPTY_MAX_BITS, EMPTY_MAX_BITS],
                count: 0,
                left_first: 0,
            }),
    {
        BvhNode {
            bounds_min: [EMPTY_MIN_BITS, EMPTY_MIN_BITS, EMPTY_MIN_BITS],
            bounds_max: [EMPTY_MAX_BITS, EMPTY_MAX_BITS, EMPTY_MAX_BITS],
            count: 0,
            left_first: 0,
        }
    }

    pub open spec fn is_leaf(&self) -> bool {
        self.count >= 0
    }

    /// The node's own fields point inside arrays of `nodes` nodes and `prims`
    /// primitive indices.
    pub open spec fn well_linked(&self, nodes: int, prims: int) -> bool {
        if self.is_leaf() {
            0 <= self.left_first && self.left_first + self.count <= prims
        } else {
            0 <= self.left_first && self.left_first + 1 < nodes
        }
    }
}

/// GPU layout of a node: four four-word rows; the last two hold the leaf
/// count and the first-index / child-offset field.
#[derive(Clone, Copy, Debug)]
pub struct BvhUniform {
    pub bounds_min: [u32; 4],
    pub bounds_max: [u32; 4],
    pub bounds_extra1: [i32; 4],
    pub bounds_extra2: [i32; 4],
}

/// The record that `BvhUniform::new` packs `n` into.
pub open spec fn packed_node(n: BvhNode) -> BvhUniform {
    BvhUniform {
        bounds_min: [n.bounds_min[0], n.bounds_min[1], n.bounds_min[2], 0u32],
        bounds_max: [n.bounds_max[0], n.bounds_max[1], n.bounds_max[2], 0u32],
        bounds_extra1: [n.count, 0i32, 0i32, 0i32],
        bounds_extra2: [n.left_first, 0i32, 0i32, 0i32],
    }
}

impl BvhUniform {
    pub fn new(node: &BvhNode) -> (r: BvhUniform)
        ensures
            r == packed_node(*node),
    {
        BvhUniform {
            bounds_min: [node.bounds_min[0], node.bounds_min[1], node.bounds_min[2], 0],
            bounds_max: [node.bounds_max[0], node.bounds_max[1], node.bounds_max[2], 0],
            bounds_extra1: [node.count, 0, 0, 0],
            bounds_extra2: [node.left_first, 0, 0, 0],
        }
    }
}

/// The node's children lie after it and inside an array of `len` nodes.
pub open spec fn children_ok(n: BvhNode, k: int, len: int) -> bool {
    k < n.left_first && n.left_first + 1 < len
}

/// Which nodes the walk from the root has reached after following the
/// children of nodes `0..m`, in index order. Children always lie after
/// their parent, so a node's flag is final once the walk passes it.
pub open spec fn reach_upto(nodes: Seq<BvhNode>, m: int) -> Seq<bool>
    decreases m,
{
    if m <= 0 {
        Seq::new(nodes.len(), |j: int| j == 0)
    } else {
        let r = reach_upto(nodes, m - 1);
        let k = m - 1;
        let n = nodes[k];
        if r[k] && !n.is_leaf() && children_ok(n, k, nodes.len() as int) {
            r.update(n.left_first as int, true).update(n.left_first + 1, true)
        } else {
            r
        }
    }
}

/// The nodes that the walk from the root reaches.
pub open spec fn reached(nodes: Seq<BvhNode>) -> Seq<bool> {
    reach_upto(nodes, nodes.len() as int)
}

/// The primitive indices that node `n` owns: its range when it is a reached
/// leaf whose range lies inside `prims`, else none.
pub open spec fn node_refs(n: BvhNode, is_reached: bool, prims: Seq<u32>) -> Seq<u32> {
    if is_reached && n.is_leaf() && n.well_linked(0, prims.len() as int) {
        prims.subrange(n.left_first as int, n.left_first + n.count)
    } else {
        seq![]
    }
}

/// The ranges of the reached leaves among nodes `0..m`, one after the other.
pub open spec fn leaf_refs(nodes: Seq<BvhNode>, prims: Seq<u32>, m: int) -> Seq<u32>
    decreases m,
{
    if m <= 0 {
        seq![]
    } else {
        leaf_refs(nodes, prims, m - 1) + node_refs(nodes[m - 1], reached(nodes)[m - 1], prims)
    }
}

/// How often `v` occurs in `s`.
pub open spec fn occurrences(s: Seq<u32>, v: int) -> nat
    decreases s.len(),
{
    if s.len() == 0 {
        0
    } else {
        occurrences(s.drop_last(), v) + (if s.last() == v { 1nat } else { 0nat })
    }
}

/// The hierarchy is usable for `n` primitives. It has a root, and the
/// primitive-index array has `n` entries. The walk from the root is a tree:
/// each internal node it reaches has both children after it and inside the
/// array, and reaches no node twice. Each leaf it reaches has its range
/// inside the primitive-index array, and every leaf it does not reach is
/// empty. The ranges of the reached leaves together hold each index of
/// `[0, n)` exactly once and nothing else.
pub open spec fn bvh_valid(nodes: Seq<BvhNode>, prims: Seq<u32>, n: int) -> bool {
    let len = nodes.len() as int;
    let r = reached(nodes);
    let refs = leaf_refs(nodes, prims, len);
    &&& len > 0
    &&& prims.len() == n
    &&& forall|k: int|
        0 <= k < len && r[k] && !(#[trigger] nodes[k]).is_leaf() ==> children_ok(nodes[k], k, len) && !reach_upto(
            nodes,
            k,
        )[nodes[k].left_first as int] && !reach_upto(nodes, k)[nodes[k].left_first + 1]
    &&& forall|k: int| 0 <= k < len && r[k] && (#[trigger] nodes[k]).is_leaf() ==> nodes[k].well_linked(len, n)
    &&& forall|k: int| 0 <= k < len && !r[k] && (#[trigger] nodes[k]).is_leaf() ==> nodes[k].count == 0
    &&& forall|p: int| 0 <= p < refs.len() ==> refs[p] < n
    &&& forall|v: int| 0 <= v < n ==> occurrences(refs, v) == 1
}

proof fn lemma_reach_len(nodes: Seq<BvhNode>, m: int)
    ensures
        reach_upto(nodes, m).len() == nodes.len(),
    decreases m,
{
    if m > 0 {
        lemma_reach_len(nodes, m - 1);
    }
}

/// Steps after `k` only set flags of nodes after `k`.
proof fn lemma_reach_stable(nodes: Seq<BvhNode>, m: int, m2: int, k: int)
    requires
        0 <= k < m <= m2 <= nodes.len(),
    ensures
        reach_upto(nodes, m2)[k] == reach_upto(nodes, m)[k],
    decreases m2,
{
    if m2 > m {
        lemma_reach_stable(nodes, m, m2 - 1, k);
        lemma_reach_len(nodes, m2 - 1);
    }
}

proof fn lemma_occurrences_push(s: Seq<u32>, x: u32, v: int)
    ensures
        occurrences(s.push(x), v) == occurrences(s, v) + (if x == v { 1nat } else { 0nat }),
{
    assert(s.push(x).drop_last() =~= s);
}

proof fn lemma_occurrences_prefix(s: Seq<u32>, m: int, v: int)
    requires
        0 <= m <= s.len(),
    ensures
        occurrences(s.take(m), v) <= occurrences(s, v),
    decreases s.len(),
{
    if m < s.len() {
        assert(s.drop_last().take(m) =~= s.take(m));
        lemma_occurrences_prefix(s.drop_last(), m, v);
    } else {
        assert(s.take(m) =~= s);
    }
}

proof fn lemma_leaf_refs_prefix(nodes: Seq<BvhNode>, prims: Seq<u32>, m: int, m2: int)
    requires
        0 <= m <= m2,
    ensures
        leaf_refs(nodes, prims, m).len() <= leaf_refs(nodes, prims, m2).len(),
        leaf_refs(nodes, prims, m) == leaf_refs(nodes, prims, m2).take(leaf_refs(nodes, prims, m).len() as int),
    decreases m2,
{
    let a = leaf_refs(nodes, prims, m);
    if m2 > m {
        lemma_leaf_refs_prefix(nodes, prims, m, m2 - 1);
        let c = leaf_refs(nodes, prims, m2);
        assert(a =~= c.take(a.len() as int));
    } else {
        assert(a.take(a.len() as int) =~= a);
    }
}

/// Checks that the hierarchy `nodes` with primitive-index array `prims` is
/// usable for `n` primitives: walking it from the root meets each primitive
/// in exactly one leaf range.
pub fn validate(nodes: &Vec<BvhNode>, prims: &Vec<u32>, n: usize) -> (r: bool)
    ensures
        r == bvh_valid(nodes@, prims@, n as int),
{
    if nodes.len() == 0 || prims.len() != n {
        return false;
    }
    let len = nodes.len();
    let ghost fin = reached(nodes@);
    proof {
        lemma_reach_len(nodes@, len as int);
    }
    let ghost full = leaf_refs(nodes@, prims@, len as int);
    let mut seen: Vec<u8> = Vec::new();
    let mut i: usize = 0;
    while i < n
        invariant
            i <= n,
            seen@.len() == i,
            forall|v: int| 0 <= v < i ==> seen@[v] == 0,
        decreases n - i,
    {
        seen.push(0);
        i = i + 1;
    }
    let mut reach: Vec<bool> = Vec::new();
    let mut j: usize = 0;
    while j < len
        invariant
            j <= len,
            reach@ == Seq::new(j as nat, |q: int| q == 0),
        decreases len - j,
    {
        reach.push(j == 0);
        j = j + 1;
        assert(reach@ =~= Seq::new(j as nat, |q: int| q == 0));
    }
    let mut k: usize = 0;
    while k < len
        invariant
            len == nodes@.len(),
            0 < len,
            prims@.len() == n,
            fin == reached(nodes@),
            fin.len() == len,
            full == leaf_refs(nodes@, prims@, len as int),
            k <= len,
            seen@.len() == n,
            reach@ == reach_upto(nodes@, k as int),
            forall|q: int|
                0 <= q < k && fin[q] && !(#[trigger] nodes@[q]).is_leaf() ==> children_ok(nodes@[q], q, len as int)
                    && !reach_upto(nodes@, q)[nodes@[q].left_first as int] && !reach_upto(nodes@, q)[nodes@[q].left_first
                    + 1],
            forall|q: int| 0 <= q < k && fin[q] && (#[trigger] nodes@[q]).is_leaf() ==> nodes@[q].well_linked(len as int, n as int),
            forall|q: int| 0 <= q < k && !fin[q] && (#[trigger] nodes@[q]).is_leaf() ==> nodes@[q].count == 0,
            forall|p: int| 0 <= p < leaf_refs(nodes@, prims@, k as int).len() ==> leaf_refs(nodes@, prims@, k as int)[p] < n,
            forall|v: int| 0 <= v < n ==> seen@[v] == occurrences(leaf_refs(nodes@, prims@, k as int), v),
            forall|v: int| 0 <= v < n ==> seen@[v] <= 1,
        decreases len - k,
    {
        let node = nodes[k];
        proof {
            lemma_reach_len(nodes@, k as int);
            lemma_reach_len(nodes@, k as int + 1);
            lemma_reach_stable(nodes@, k as int + 1, len as int, k as int);
            lemma_leaf_refs_prefix(nodes@, prims@, k as int + 1, len as int);
        }
        let ghost before = leaf_refs(nodes@, prims@, k as int);
        let ghost after = leaf_refs(nodes@, prims@, k as int + 1);
        assert(reach@[k as int] == fin[k as int]);
        if !reach[k] {
            if node.count > 0 {
                return false;
            }
            assert(after =~= before);
        } else if node.count >= 0 {
            if node.left_first < 0 || node.left_first as usize + node.count as usize > prims.len() {
                assert(!nodes@[k as int].well_linked(len as int, n as int));
                return false;
            }
            let first = node.left_first as usize;
            let end = first + node.count as usize;
            assert(after == before + prims@.subrange(first as int, end as int));
            let mut p: usize = first;
            while p < end
                invariant
                    len == nodes@.len(),
                    prims@.len() == n,
                    full == leaf_refs(nodes@, prims@, len as int),
                    after == before + prims@.subrange(first as int, end as int),
                    after == full.take(after.len() as int),
                    after.len() <= full.len(),
                    first <= p <= end <= prims@.len(),
                    seen@.len() == n,
                    forall|q: int| 0 <= q < before.len() + (p - first) ==> (before + prims@.subrange(first as int, p as int))[q] < n,
                    forall|v: int| 0 <= v < n ==> seen@[v] == occurrences(before + prims@.subrange(first as int, p as int), v),
                    forall|v: int| 0 <= v < n ==> seen@[v] <= 1,
                decreases end - p,
            {
                let v = prims[p];
                let ghost cur = before + prims@.subrange(first as int, p as int);
                let ghost next = before + prims@.subrange(first as int, p as int + 1);
                assert(next =~= cur.push(v));
                assert(next =~= after.take(next.len() as int));
                assert(next =~= full.take(next.len() as int)) by {
                    assert forall|q: int| 0 <= q < next.len() implies next[q] == full[q] by {
                        assert(next[q] == after[q]);
                    }
                }
                if v as usize >= n {
                    assert(next.len() <= after.len());
                    assert(next[next.len() - 1] == v);
                    assert(full[next.len() - 1] == v);
                    return false;
                }
                if seen[v as usize] != 0 {
                    proof {
                        lemma_occurrences_push(cur, v, v as int);
                        lemma_occurrences_prefix(full, next.len() as int, v as int);
                    }
                    return false;
                }
                proof {
                    assert forall|w: int| 0 <= w < n implies seen@.update(v as int, 1)[w] == occurrences(next, w) by {
                        lemma_occurrences_push(cur, v, w);
                    }
                }
                seen.set(v as usize, 1);
                p = p + 1;
            }
            assert(before + prims@.subrange(first as int, p as int) == after);
        } else {
            assert(after =~= before);
            if node.left_first < 0 || node.left_first as usize <= k || node.left_first as usize >= len - 1 {
                assert(!children_ok(nodes@[k as int], k as int, len as int));
                return false;
            }
            let c = node.left_first as usize;
            if reach[c] || reach[c + 1] {
                return false;
            }
            reach.set(c, true);
            reach.set(c + 1, true);
        }
        k = k + 1;
    }
    let mut v: usize = 0;
    while v < n
        invariant
            v <= n,
            seen@.len() == n,
            len == nodes@.len(),
            0 < len,
            prims@.len() == n,
            fin == reached(nodes@),
            fin.len() == len,
            full == leaf_refs(nodes@, prims@, len as int),
            forall|q: int|
                0 <= q < len && fin[q] && !(#[trigger] nodes@[q]).is_leaf() ==> children_ok(nodes@[q], q, len as int)
                    && !reach_upto(nodes@, q)[nodes@[q].left_first as int] && !reach_upto(nodes@, q)[nodes@[q].left_first
                    + 1],
            forall|q: int| 0 <= q < len && fin[q] && (#[trigger] nodes@[q]).is_leaf() ==> nodes@[q].well_linked(len as int, n as int),
            forall|q: int| 0 <= q < len && !fin[q] && (#[trigger] nodes@[q]).is_leaf() ==> nodes@[q].count == 0,
            forall|p: int| 0 <= p < full.len() ==> full[p] < n,
            forall|w: int| 0 <= w < n ==> seen@[w] == occurrences(full, w),
            forall|w: int| 0 <= w < v ==> occurrences(full, w) == 1,
        decreases n - v,
    {
        if seen[v] != 1 {
            assert(occurrences(full, v as int) != 1);
            return false;
        }
        v = v + 1;
    }
    true
}

/// Every leaf holds at most `max` primitives.
pub open spec fn leaves_within(nodes: Seq<BvhNode>, max: int) -> bool {
    forall|k: int| 0 <= k < nodes.len() && (#[trigger] nodes[k]).is_leaf() ==> nodes[k].count <= max
}

/// Checks the leaf size against the configured most primitives per leaf.
pub fn leaf_sizes_within(nodes: &Vec<BvhNode>, max: u32) -> (r: bool)
    ensures
        r == leaves_within(nodes@, max as int),
{
    let mut k: usize = 0;
    while k < nodes.len()
        invariant
            k <= nodes@.len(),
            forall|q: int| 0 <= q < k && (#[trigger] nodes@[q]).is_leaf() ==> nodes@[q].count <= max,
        decreases nodes@.len() - k,
    {
        if nodes[k].count >= 0 && nodes[k].count as u32 > max {
            return false;
        }
        k = k + 1;
    }
    true
}

#[derive(Clone, Copy, Debug, PartialEq, Eq, Structural)]
pub enum BvhError {
    /// Some primitive is in no leaf range or in more than one, or a node
    /// points outside the arrays.
    Invalid,
}

/// Accepts a hierarchy built over `n` primitives only when it validates, and
/// packs its nodes into GPU records, in order.
pub fn pack_bvh(nodes: &Vec<BvhNode>, prims: &Vec<u32>, n: usize) -> (r: Result<Vec<BvhUniform>, BvhError>)
    ensures
        match r {
            Ok(records) => bvh_valid(nodes@, prims@, n as int) && records@ == nodes@.map_values(
                |x: BvhNode| packed_node(x),
            ),
            Err(e) => !bvh_valid(nodes@, prims@, n as int) && e == BvhError::Invalid,
        },
{
    if !validate(nodes, prims, n) {
        return Err(BvhError::Invalid);
    }
    let mut out: Vec<BvhUniform> = Vec::new();
    let mut i: usize = 0;
    while i < nodes.len()
        invariant
            i <= nodes@.len(),
            out@ == nodes@.take(i as int).map_values(|x: BvhNode| packed_node(x)),
        decreases nodes@.len() - i,
    {
        out.push(BvhUniform::new(&nodes[i]));
        i = i + 1;
        assert(out@ =~= nodes@.take(i as int).map_values(|x: BvhNode| packed_node(x)));
    }
    assert(nodes@.take(i as int) =~= nodes@);
    Ok(out)
}

} // verus!
