//! Bounding-volume-hierarchy nodes: a binary tree over the scene whose
//! boxes prune intersection work down to the children a ray can meet.
//!
//! Construction recursively partitions the object list: sort by bounding-box
//! centroid along the widest axis of the combined box, split at the middle,
//! recurse. The tree holds exactly the objects it was built from
//! (`tree_set`), so no hit can be lost to the bookkeeping.

use vstd::prelude::*;
use std::sync::Arc;
use crate::aabb::Aabb;
use crate::aabb::box_merge_s;
use crate::aabb::mid_s;
use crate::fx::Fx;
use crate::hittable::Hittable;
use crate::hittable::bbox_s;
use crate::hittable_list::HittableList;
use crate::shared::share;

verus! {

/// An inner node: two children and the box that holds both.
pub struct BvhNode {
    pub left: Arc<Hittable>,
    pub right: Arc<Hittable>,
    pub bbox: Aabb,
}

/// The set of objects a subtree holds: nodes branch, everything else is its
/// own leaf.
pub open spec fn tree_set(h: Hittable) -> Set<Hittable>
    decreases h,
{
    match h {
        Hittable::Bvh(b) => tree_set(*b.left).union(tree_set(*b.right)),
        _ => Set::empty().insert(h),
    }
}

/// Every inner node's box absorbs both children's boxes: merging a child's
/// box into the node's changes nothing. Traversal prunes on these boxes, so
/// this is the invariant that makes pruning sound; it holds trivially of
/// anything that is not an inner node.
pub open spec fn tree_boxes_cover(h: Hittable) -> bool
    decreases h,
{
    match h {
        Hittable::Bvh(b) => {
            &&& tree_boxes_cover(*b.left)
            &&& tree_boxes_cover(*b.right)
            &&& box_merge_s(b.bbox@, bbox_s(*b.left)) == b.bbox@
            &&& box_merge_s(b.bbox@, bbox_s(*b.right)) == b.bbox@
        },
        _ => true,
    }
}

/// The set of objects a sequence holds: the union of its elements' own
/// object sets, so a tree built over other trees flattens them all.
pub open spec fn seq_set(objs: Seq<Arc<Hittable>>) -> Set<Hittable> {
    Set::new(|h: Hittable| exists|i: int| 0 <= i < objs.len() && tree_set(*objs[i]).contains(h))
}

/// The centroid key objects are ordered by during construction.
pub open spec fn centroid_key_s(o: Hittable, axis: u32) -> int {
    mid_s(
        if axis == 0 {
            bbox_s(o).x
        } else if axis == 1 {
            bbox_s(o).y
        } else {
            bbox_s(o).z
        },
    )
}

/// The centroid key of an object along an axis.
fn centroid_key(o: &Hittable, axis: u32) -> (r: Fx)
    ensures
        r@ == centroid_key_s(*o, axis),
{
    o.bounding_box().centroid(axis)
}

/// Selection sort by centroid along an axis: the same objects, reordered.
fn sort_by_centroid(objs: Vec<Arc<Hittable>>, axis: u32) -> (r: Vec<Arc<Hittable>>)
    ensures
        r@.to_multiset() == objs@.to_multiset(),
        r@.len() == objs@.len(),
{
    broadcast use vstd::seq_lib::group_to_multiset_ensures;

    let mut work = objs;
    let mut out: Vec<Arc<Hittable>> = Vec::new();
    proof {
        assert(out@.to_multiset().add(work@.to_multiset()) =~= objs@.to_multiset());
    }
    while work.len() > 0
        invariant
            out@.to_multiset().add(work@.to_multiset()) == objs@.to_multiset(),
            out@.len() + work@.len() == objs@.len(),
        decreases work@.len(),
    {
        let mut m: usize = 0;
        let mut j: usize = 1;
        while j < work.len()
            invariant
                j <= work@.len(),
                m < work@.len(),
                work@.len() > 0,
            decreases work@.len() - j,
        {
            if centroid_key(&work[j], axis).lt(centroid_key(&work[m], axis)) {
                m = j;
            }
            j = j + 1;
        }
        let ghost w0 = work@;
        let ghost out0 = out@;
        let v = work.remove(m);
        out.push(v);
        proof {
            w0.to_multiset_ensures();
            out0.to_multiset_ensures();
            assert(work@ == w0.remove(m as int));
            assert(w0.remove(m as int).to_multiset() =~= w0.to_multiset().remove(w0[m as int]));
            assert(out@ == out0.push(v));
            assert(out0.push(v).to_multiset() =~= out0.to_multiset().insert(v));
            assert(w0.contains(v));
            assert(w0.to_multiset().count(v) > 0);
            assert(out@.to_multiset().add(work@.to_multiset()) =~= objs@.to_multiset());
        }
    }
    proof {
        assert(work@.to_multiset().len() == 0);
        assert(out@.to_multiset().add(work@.to_multiset()) =~= out@.to_multiset());
    }
    out
}

/// Two sequences with equal contents hold equal object sets.
proof fn lemma_multiset_seq_set(a: Seq<Arc<Hittable>>, b: Seq<Arc<Hittable>>)
    requires
        a.to_multiset() == b.to_multiset(),
    ensures
        seq_set(a) == seq_set(b),
{
    broadcast use vstd::seq_lib::group_to_multiset_ensures;

    assert forall|h: Hittable| seq_set(a).contains(h) implies seq_set(b).contains(h) by {
        let i = choose|i: int| 0 <= i < a.len() && tree_set(*a[i]).contains(h);
        assert(a.contains(a[i]));
        assert(a.to_multiset().count(a[i]) > 0);
        assert(b.to_multiset().count(a[i]) > 0);
        assert(b.contains(a[i]));
        let j = choose|j: int| 0 <= j < b.len() && b[j] == a[i];
        assert(tree_set(*b[j]).contains(h));
    }
    assert forall|h: Hittable| seq_set(b).contains(h) implies seq_set(a).contains(h) by {
        let i = choose|i: int| 0 <= i < b.len() && tree_set(*b[i]).contains(h);
        assert(b.contains(b[i]));
        assert(b.to_multiset().count(b[i]) > 0);
        assert(a.to_multiset().count(b[i]) > 0);
        assert(a.contains(b[i]));
        let j = choose|j: int| 0 <= j < a.len() && a[j] == b[i];
        assert(tree_set(*a[j]).contains(h));
    }
    assert(seq_set(a) =~= seq_set(b));
}

/// A split sequence's object set is the union of its halves'.
proof fn lemma_seq_set_split(s: Seq<Arc<Hittable>>, mid: int)
    requires
        0 <= mid <= s.len(),
    ensures
        seq_set(s) == seq_set(s.subrange(0, mid)).union(seq_set(s.subrange(mid, s.len() as int))),
{
    let left = s.subrange(0, mid);
    let right = s.subrange(mid, s.len() as int);
    assert forall|h: Hittable| seq_set(s).contains(h) implies seq_set(left).union(
        seq_set(right),
    ).contains(h) by {
        let i = choose|i: int| 0 <= i < s.len() && tree_set(*s[i]).contains(h);
        if i < mid {
            assert(tree_set(*left[i]).contains(h));
        } else {
            assert(tree_set(*right[i - mid]).contains(h));
        }
    }
    assert forall|h: Hittable|
        seq_set(left).union(seq_set(right)).contains(h) implies seq_set(s).contains(h) by {
        if seq_set(left).contains(h) {
            let i = choose|i: int| 0 <= i < left.len() && tree_set(*left[i]).contains(h);
            assert(tree_set(*s[i]).contains(h));
        } else {
            let i = choose|i: int| 0 <= i < right.len() && tree_set(*right[i]).contains(h);
            assert(tree_set(*s[i + mid]).contains(h));
        }
    }
    assert(seq_set(s) =~= seq_set(left).union(seq_set(right)));
}

/// The member-level reading of the box invariant: a sound node's box
/// absorbs the box of every object in its subtree, so pruning on the node's
/// box can never discard a member a ray could hit inside it.
pub proof fn lemma_tree_cover_members(h: &Hittable)
    requires
        tree_boxes_cover(*h),
    ensures
        forall|m: Hittable|
            #[trigger] tree_set(*h).contains(m) ==> box_merge_s(bbox_s(*h), bbox_s(m)) == bbox_s(
                *h,
            ),
    decreases *h,
{
    match h {
        Hittable::Bvh(b) => {
            lemma_tree_cover_members(&*b.left);
            lemma_tree_cover_members(&*b.right);
            assert forall|m: Hittable| #[trigger] tree_set(*h).contains(m) implies box_merge_s(
                bbox_s(*h),
                bbox_s(m),
            ) == bbox_s(*h) by {
                if tree_set(*b.left).contains(m) {
                    assert(box_merge_s(bbox_s(*b.left), bbox_s(m)) == bbox_s(*b.left));
                    assert(box_merge_s(bbox_s(*h), bbox_s(m)) =~= bbox_s(*h));
                } else {
                    assert(tree_set(*b.right).contains(m));
                    assert(box_merge_s(bbox_s(*b.right), bbox_s(m)) == bbox_s(*b.right));
                    assert(box_merge_s(bbox_s(*h), bbox_s(m)) =~= bbox_s(*h));
                }
            }
        },
        _ => {
            assert forall|m: Hittable| #[trigger] tree_set(*h).contains(m) implies box_merge_s(
                bbox_s(*h),
                bbox_s(m),
            ) == bbox_s(*h) by {
                assert(tree_set(*h) =~= Set::empty().insert(*h));
                crate::aabb::lemma_box_merge_self(bbox_s(*h));
            }
        },
    }
}

/// Sequences with equal contents carry the box invariant together.
proof fn lemma_multiset_cover(a: Seq<Arc<Hittable>>, b: Seq<Arc<Hittable>>)
    requires
        a.to_multiset() == b.to_multiset(),
        forall|i: int| 0 <= i < b.len() ==> tree_boxes_cover(#[trigger] *b[i]),
    ensures
        forall|i: int| 0 <= i < a.len() ==> tree_boxes_cover(#[trigger] *a[i]),
{
    broadcast use vstd::seq_lib::group_to_multiset_ensures;

    assert forall|i: int| 0 <= i < a.len() implies tree_boxes_cover(*a[i]) by {
        assert(a.contains(a[i]));
        assert(a.to_multiset().count(a[i]) > 0);
        assert(b.to_multiset().count(a[i]) > 0);
        assert(b.contains(a[i]));
        let j = choose|j: int| 0 <= j < b.len() && b[j] == a[i];
        assert(tree_boxes_cover(*b[j]));
    }
}

impl BvhNode {
    /// Build a tree over every object of a list, which must not be empty:
    /// an empty scene is a construction bug, rejected here rather than
    /// rendered as silence.
    pub fn from_list(list: &HittableList) -> (r: BvhNode)
        requires
            list.objects@.len() >= 1,
            forall|i: int|
                0 <= i < list.objects@.len() ==> tree_boxes_cover(#[trigger] *list.objects@[i]),
        ensures
            tree_set(Hittable::Bvh(r)) == seq_set(list.objects@),
            tree_boxes_cover(Hittable::Bvh(r)),
    {
        let mut objs: Vec<Arc<Hittable>> = Vec::new();
        let mut i: usize = 0;
        while i < list.objects.len()
            invariant
                i <= list.objects@.len(),
                objs@ == list.objects@.subrange(0, i as int),
            decreases list.objects@.len() - i,
        {
            objs.push(share(&list.objects[i]));
            proof {
                assert(objs@ =~= list.objects@.subrange(0, i + 1 as int));
            }
            i = i + 1;
        }
        proof {
            assert(objs@ =~= list.objects@);
        }
        Self::from_vec(objs)
    }

    /// The recursive partition behind `from_list`.
    fn from_vec(objs: Vec<Arc<Hittable>>) -> (r: BvhNode)
        requires
            objs@.len() >= 1,
            forall|i: int| 0 <= i < objs@.len() ==> tree_boxes_cover(#[trigger] *objs@[i]),
        ensures
            tree_set(Hittable::Bvh(r)) == seq_set(objs@),
            tree_boxes_cover(Hittable::Bvh(r)),
        decreases objs@.len(),
    {
        if objs.len() == 1 {
            let a = share(&objs[0]);
            let b = share(&objs[0]);
            let bbox = a.bounding_box();
            let r = BvhNode { left: a, right: b, bbox };
            proof {
                assert(tree_set(Hittable::Bvh(r)) =~= seq_set(objs@));
                crate::aabb::lemma_box_merge_self(bbox@);
                assert(tree_boxes_cover(*objs@[0]));
            }
            r
        } else if objs.len() == 2 {
            let a = share(&objs[0]);
            let b = share(&objs[1]);
            let bbox = Aabb::merge(a.bounding_box(), b.bounding_box());
            let r = BvhNode { left: a, right: b, bbox };
            proof {
                assert(tree_set(Hittable::Bvh(r)) =~= seq_set(objs@));
                assert(tree_boxes_cover(*objs@[0]));
                assert(tree_boxes_cover(*objs@[1]));
                assert(box_merge_s(bbox@, bbox_s(*r.left)) =~= bbox@);
                assert(box_merge_s(bbox@, bbox_s(*r.right)) =~= bbox@);
            }
            r
        } else {
            let mut span = Aabb::empty();
            let mut i: usize = 0;
            while i < objs.len()
                invariant
                    i <= objs@.len(),
                decreases objs@.len() - i,
            {
                span = Aabb::merge(span, objs[i].bounding_box());
                i = i + 1;
            }
            let axis = span.longest_axis();
            let sorted = sort_by_centroid(objs, axis);
            proof {
                lemma_multiset_seq_set(sorted@, objs@);
                lemma_multiset_cover(sorted@, objs@);
            }
            let mid = sorted.len() / 2;
            let mut left_vec = sorted;
            let ghost sorted0 = left_vec@;
            let right_vec = left_vec.split_off(mid);
            proof {
                lemma_seq_set_split(sorted0, mid as int);
                assert forall|i: int| 0 <= i < left_vec@.len() implies tree_boxes_cover(
                    #[trigger] *left_vec@[i],
                ) by {
                    assert(left_vec@[i] == sorted0[i]);
                }
                assert forall|i: int| 0 <= i < right_vec@.len() implies tree_boxes_cover(
                    #[trigger] *right_vec@[i],
                ) by {
                    assert(right_vec@[i] == sorted0[i + mid]);
                }
            }
            let left = Self::from_vec(left_vec);
            let right = Self::from_vec(right_vec);
            let bbox = Aabb::merge(left.bbox, right.bbox);
            let r = BvhNode {
                left: Arc::new(Hittable::Bvh(left)),
                right: Arc::new(Hittable::Bvh(right)),
                bbox,
            };
            proof {
                assert(tree_set(Hittable::Bvh(r)) =~= seq_set(objs@));
                assert(box_merge_s(bbox@, bbox_s(*r.left)) =~= bbox@);
                assert(box_merge_s(bbox@, bbox_s(*r.right)) =~= bbox@);
            }
            r
        }
    }

}

} // verus!
