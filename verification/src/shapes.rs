//! Where a ray hits.
//!
//! A ray meets a sphere where a quadratic in the ray's parameter vanishes.
//! The caller solves it; which of its roots counts as the hit, which of the
//! hits on many surfaces is the one that is seen, and which way the normal of
//! the surface is reported, is decided here.

use crate::material::Material;
use crate::math::scalar::Scalar;
use crate::math::vec3::{Point3, Vec3};
use vstd::prelude::*;

verus! {

/// What is known of the point where a ray hits a surface.
#[derive(Clone, Copy, Debug)]
pub struct HitRecord {
    /// The point.
    pub p: Point3,
    /// The normal of the surface there, on the side the ray came from.
    pub normal: Vec3,
    /// The material of the surface.
    pub material: Material,
    /// The ray's parameter at the point.
    pub t: Scalar,
    /// Whether the ray came from outside the surface.
    pub front_face: bool,
}

/// The dot product of a ray's direction with the normal that is reported,
/// where `facing` is its dot product with the outward normal: turning the
/// normal round turns the sign of the product.
pub open spec fn reported_facing(facing: Scalar) -> Scalar {
    if facing.lt_spec(Scalar { bits: 0 }) {
        facing
    } else {
        facing.neg_spec()
    }
}

impl HitRecord {
    /// Reports the normal on the side the ray came from.
    ///
    /// `facing` is the dot product of the ray's direction with
    /// `outward_normal`.  Where it is negative the ray came from outside and
    /// the outward normal is kept; else the normal is turned round.
    pub fn set_face_normal(&mut self, facing: Scalar, outward_normal: &Vec3)
        ensures
            final(self).front_face == facing.lt_spec(Scalar { bits: 0 }),
            final(self).normal == if facing.lt_spec(Scalar { bits: 0 }) {
                *outward_normal
            } else {
                outward_normal.neg_spec()
            },
            final(self).p == old(self).p,
            final(self).material == old(self).material,
            final(self).t == old(self).t,
    {
        self.front_face = facing.lt(Scalar::zero());
        self.normal = if self.front_face {
            *outward_normal
        } else {
            outward_normal.neg()
        };
    }
}

/// The normal that is reported never points along the ray: the dot product of
/// the ray's direction with it is not positive.
pub proof fn reported_normal_opposes_ray(facing: Scalar)
    ensures
        !reported_facing(facing).gt_spec(Scalar { bits: 0 }),
{
}

/// Whether `root` lies outside the distances from `t_min` to `t_max`, both
/// ends counted as inside.
pub open spec fn outside(root: Scalar, t_min: Scalar, t_max: Scalar) -> bool {
    root.lt_spec(t_min) || t_max.lt_spec(root)
}

/// The solved quadratic of one ray and one surface: with `a` the squared
/// length of the ray's direction, `half_b` the dot product of the direction
/// with the way from the centre to the ray's origin, and `c` the squared
/// length of that way less the squared radius,
/// `discriminant = half_b * half_b - a * c`, and the roots are
/// `(-half_b - sqrt(discriminant)) / a` and `(-half_b + sqrt(discriminant)) / a`.
#[derive(Clone, Copy, Debug)]
pub struct Crossing {
    pub discriminant: Scalar,
    /// The smaller root: where the ray's line enters.
    pub near: Scalar,
    /// The larger root: where the ray's line leaves.
    pub far: Scalar,
}

impl Crossing {
    /// The discriminant is a number and, unless it is negative, so are the
    /// roots, the smaller one first.
    pub open spec fn wf(self) -> bool {
        &&& self.discriminant@ is Some
        &&& self.discriminant.lt_spec(Scalar { bits: 0 }) || self.near.le_spec(self.far)
    }

    /// The parameter of the hit within the distances from `t_min` to
    /// `t_max`: the smaller root where it lies within them, else the larger
    /// where that does; none where neither does or the discriminant is
    /// negative.
    pub open spec fn hit_spec(self, t_min: Scalar, t_max: Scalar) -> Option<Scalar> {
        if self.discriminant.lt_spec(Scalar { bits: 0 }) {
            None
        } else if !outside(self.near, t_min, t_max) {
            Some(self.near)
        } else if !outside(self.far, t_min, t_max) {
            Some(self.far)
        } else {
            None
        }
    }

    /// The parameter at which the ray hits the surface within the distances
    /// from `t_min` to `t_max`, if it does.
    ///
    /// A line that passes the surface by, which shows in a negative
    /// discriminant, gives no hit for any distances.
    pub fn hit(&self, t_min: Scalar, t_max: Scalar) -> (r: Option<Scalar>)
        ensures
            r == self.hit_spec(t_min, t_max),
            self.discriminant.lt_spec(Scalar { bits: 0 }) ==> r is None,
            r matches Some(t) ==> (t == self.near || t == self.far) && !outside(t, t_min, t_max),
    {
        if self.discriminant.lt(Scalar::zero()) {
            return None;
        }
        let mut root = self.near;
        if root.lt(t_min) || t_max.lt(root) {
            root = self.far;
            if root.lt(t_min) || t_max.lt(root) {
                return None;
            }
        }
        Some(root)
    }
}

/// The surface that is seen among `objects` and the parameter of the hit on
/// it: the surfaces are taken in turn, and one replaces the best before it
/// where its hit lies within the distances that are left and is nearer.
pub open spec fn nearest(objects: Seq<Crossing>, t_min: Scalar, t_max: Scalar) -> Option<
    (int, Scalar),
>
    decreases objects.len(),
{
    if objects.len() == 0 {
        None
    } else {
        let before = nearest(objects.drop_last(), t_min, t_max);
        match before {
            None => match objects.last().hit_spec(t_min, t_max) {
                Some(t) => Some((objects.len() - 1, t)),
                None => None,
            },
            Some((_, closest)) => match objects.last().hit_spec(t_min, closest) {
                Some(t) => if t.lt_spec(closest) {
                    Some((objects.len() - 1, t))
                } else {
                    before
                },
                None => before,
            },
        }
    }
}

/// Whether `r` names the first of the nearest hits on `objects` within the
/// distances from `t_min` to `t_max`: a surface that the ray hits there, no
/// farther than any other hit and nearer than every hit on a surface before
/// it; or nothing, where the ray hits no surface there.
pub open spec fn first_nearest(
    objects: Seq<Crossing>,
    t_min: Scalar,
    t_max: Scalar,
    r: Option<(int, Scalar)>,
) -> bool {
    match r {
        None => forall|j: int|
            0 <= j < objects.len() ==> (#[trigger] objects[j]).hit_spec(t_min, t_max) is None,
        Some((i, t)) => {
            &&& 0 <= i < objects.len()
            &&& objects[i].hit_spec(t_min, t_max) == Some(t)
            &&& forall|j: int|
                0 <= j < objects.len() ==> match (#[trigger] objects[j]).hit_spec(t_min, t_max) {
                    Some(u) => t.le_spec(u) && (j < i ==> t.lt_spec(u)),
                    None => true,
                }
        },
    }
}

/// Every surface's crossing is well formed.
pub open spec fn all_wf(objects: Seq<Crossing>) -> bool {
    forall|j: int| 0 <= j < objects.len() ==> (#[trigger] objects[j]).wf()
}

/// With less distance left a surface shows the same hit, or none where that
/// hit lies beyond what is left.
proof fn hit_within_less(c: Crossing, t_min: Scalar, closest: Scalar, t_max: Scalar)
    requires
        c.wf(),
        t_min@ is Some,
        closest.le_spec(t_max),
    ensures
        c.hit_spec(t_min, closest) == match c.hit_spec(t_min, t_max) {
            Some(t) => if t.le_spec(closest) {
                Some(t)
            } else {
                None
            },
            None => None,
        },
{
}

/// Taking the surfaces in turn, with the distance to the best so far as what
/// is left, finds the first of the nearest hits.
pub proof fn nearest_is_first_nearest(objects: Seq<Crossing>, t_min: Scalar, t_max: Scalar)
    requires
        all_wf(objects),
        t_min@ is Some,
        t_max@ is Some,
    ensures
        first_nearest(objects, t_min, t_max, nearest(objects, t_min, t_max)),
    decreases objects.len(),
{
    if objects.len() > 0 {
        let rest = objects.drop_last();
        let last = objects.last();
        let n = objects.len() - 1;
        nearest_is_first_nearest(rest, t_min, t_max);
        let before = nearest(rest, t_min, t_max);
        assert(forall|j: int| 0 <= j < n ==> objects[j] == rest[j]);
        assert(last.wf());
        match before {
            None => {},
            Some((k, closest)) => {
                assert(rest[k].hit_spec(t_min, t_max) == Some(closest));
                hit_within_less(last, t_min, closest, t_max);
            },
        }
    }
}

/// The surfaces of a scene as one ray meets them, in the order of the scene.
pub struct HittableList {
    pub objects: Vec<Crossing>,
}

impl HittableList {
    pub fn add(&mut self, object: Crossing)
        ensures
            final(self).objects@ == old(self).objects@.push(object),
    {
        self.objects.push(object);
    }

    pub fn clear(&mut self)
        ensures
            final(self).objects@ == Seq::<Crossing>::empty(),
    {
        self.objects.clear();
    }

    /// The index of the surface that the ray hits first within the distances
    /// from `t_min` to `t_max`, and the parameter of that hit; nothing where
    /// it hits none.  Of two surfaces at the same distance the earlier one is
    /// seen.
    pub fn hit(&self, t_min: Scalar, t_max: Scalar) -> (r: Option<(usize, Scalar)>)
        ensures
            match r {
                Some((i, t)) => nearest(self.objects@, t_min, t_max) == Some((i as int, t)),
                None => nearest(self.objects@, t_min, t_max) is None,
            },
            all_wf(self.objects@) && t_min@ is Some && t_max@ is Some ==> first_nearest(
                self.objects@,
                t_min,
                t_max,
                match r {
                    Some((i, t)) => Some((i as int, t)),
                    None => None,
                },
            ),
    {
        let mut best: Option<(usize, Scalar)> = None;
        let mut closest_so_far = t_max;
        let mut i: usize = 0;
        while i < self.objects.len()
            invariant
                i <= self.objects.len(),
                match best {
                    Some((k, t)) => nearest(self.objects@.take(i as int), t_min, t_max) == Some(
                        (k as int, t),
                    ) && closest_so_far == t,
                    None => nearest(self.objects@.take(i as int), t_min, t_max) is None
                        && closest_so_far == t_max,
                },
            decreases self.objects.len() - i,
        {
            proof {
                assert(self.objects@.take(i + 1).drop_last() == self.objects@.take(i as int));
                assert(self.objects@.take(i + 1).last() == self.objects@[i as int]);
            }
            match self.objects[i].hit(t_min, closest_so_far) {
                Some(t) => {
                    if best.is_none() || t.lt(closest_so_far) {
                        best = Some((i, t));
                        closest_so_far = t;
                    }
                },
                None => {},
            }
            i += 1;
        }
        proof {
            assert(self.objects@.take(i as int) == self.objects@);
            if all_wf(self.objects@) && t_min@ is Some && t_max@ is Some {
                nearest_is_first_nearest(self.objects@, t_min, t_max);
            }
        }
        best
    }
}

} // verus!

