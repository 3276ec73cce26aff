//! The unordered aggregate of scene objects.

use vstd::prelude::*;
use std::sync::Arc;
use crate::aabb::Aabb;
use crate::aabb::box_merge_s;
use crate::hittable::Hittable;
use crate::hittable::bbox_s;

verus! {

/// An unordered collection of objects, hit by scanning every child and
/// keeping the closest intersection.
pub struct HittableList {
    pub objects: Vec<Arc<Hittable>>,
    pub bbox: Aabb,
}

impl HittableList {
    /// The empty list, with the empty box.
    pub fn new() -> (r: HittableList)
        ensures
            r.objects@.len() == 0,
            r.bbox@.x.min == i64::MAX && r.bbox@.x.max == i64::MIN,
            r.bbox@.y.min == i64::MAX && r.bbox@.y.max == i64::MIN,
            r.bbox@.z.min == i64::MAX && r.bbox@.z.max == i64::MIN,
    {
        HittableList { objects: Vec::new(), bbox: Aabb::empty() }
    }

    /// Append an object, growing the box around it.
    pub fn add(&mut self, obj: Arc<Hittable>)
        ensures
            final(self).objects@ == old(self).objects@.push(obj),
            final(self).bbox@ == box_merge_s(old(self).bbox@, bbox_s(*obj)),
    {
        let b = obj.bounding_box();
        self.bbox = Aabb::merge(self.bbox, b);
        self.objects.push(obj);
    }
}

} // verus!
