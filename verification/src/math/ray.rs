//! Rays, and the bookkeeping of a path of bounces.
//!
//! The colour of a ray is found by following it: where it leaves the scene it
//! takes the colour of the sky, where a surface absorbs it it is black, and
//! where a surface scatters it its colour is the surface's attenuation times
//! the colour of the scattered ray, followed with one bounce less to spend.
//! A ray with nothing left to spend is black.  The caller sends the rays and
//! multiplies the colours; what each step amounts to is decided here.

use crate::math::scalar::Scalar;
use crate::math::vec3::{Point3, Vec3};
use vstd::prelude::*;

verus! {

/// Bits of 0.001, the least distance at which a ray may hit.  Nearer hits
/// are the surface the ray has just left.
pub const NEAREST_HIT_BITS: u64 = 0x3F50_624D_D2F1_A9FC;

/// The half-line of the points `origin + t * direction`.  The direction
/// need not have length one.
#[derive(Clone, Copy, Debug)]
pub struct Ray {
    pub point: Point3,
    pub direction: Vec3,
}

impl Ray {
    pub fn origin(self) -> (r: Point3)
        ensures
            r == self.point,
    {
        self.point
    }

    pub fn direction(self) -> (r: Vec3)
        ensures
            r == self.direction,
    {
        self.direction
    }
}

pub fn new_ray(point: &Point3, direction: &Vec3) -> (r: Ray)
    ensures
        r == (Ray { point: *point, direction: *direction }),
{
    Ray { point: *point, direction: *direction }
}

/// What became of a ray that was sent into the scene.
#[derive(Clone, Copy, Debug, PartialEq, Eq, Structural)]
pub enum Trace {
    /// It met no surface.
    Miss,
    /// It met a surface, whose material let nothing go on.
    Absorbed,
    /// It met a surface, whose material sent a new ray on.
    Scattered,
}

/// The colour of a ray, as far as one step decides it.
#[derive(Clone, Copy, Debug, PartialEq, Eq, Structural)]
pub enum Shade {
    /// No light.
    Black,
    /// The colour of the sky in the ray's direction.
    Sky,
    /// The attenuation times the colour of the scattered ray, which has
    /// `depth` bounces to spend.
    Bounce { depth: i32 },
}

/// What a ray with `depth` bounces to spend contributes, given what became of
/// it.
pub open spec fn shade_spec(depth: i32, trace: Trace) -> Shade {
    if depth <= 0 {
        Shade::Black
    } else {
        match trace {
            Trace::Miss => Shade::Sky,
            Trace::Absorbed => Shade::Black,
            Trace::Scattered => Shade::Bounce { depth: (depth - 1) as i32 },
        }
    }
}

/// The number of bounces of a path that starts with `depth` to spend and
/// whose rays meet `traces` in turn.
pub open spec fn bounces(depth: i32, traces: Seq<Trace>) -> nat
    decreases traces.len(),
{
    if traces.len() == 0 {
        0
    } else {
        match shade_spec(depth, traces[0]) {
            Shade::Bounce { depth: rest } => 1 + bounces(rest, traces.drop_first()),
            _ => 0,
        }
    }
}

/// The distances at which a ray that is followed may hit: from 0.001 on,
/// without an upper end.
pub fn reach() -> (r: (Scalar, Scalar))
    ensures
        r.0.bits == NEAREST_HIT_BITS,
        r.1.bits == crate::math::scalar::INFINITY_BITS,
{
    (Scalar::from_bits(NEAREST_HIT_BITS), Scalar::infinity())
}

/// Whether a ray with `depth` bounces to spend is black without being sent.
pub fn spent(depth: i32) -> (r: bool)
    ensures
        r == (depth <= 0),
        r ==> forall|trace: Trace| #[trigger] shade_spec(depth, trace) == Shade::Black,
{
    depth <= 0
}

/// One step of following a ray.
///
/// With nothing left to spend the ray is black, whatever became of it.  A
/// scattered ray is followed with one bounce less, and never with fewer than
/// none.
pub fn ray_color(depth: i32, trace: Trace) -> (shade: Shade)
    ensures
        shade == shade_spec(depth, trace),
        depth <= 0 ==> shade == Shade::Black,
        shade matches Shade::Bounce { depth: rest } ==> rest == depth - 1 && rest >= 0,
{
    if depth <= 0 {
        return Shade::Black;
    }
    match trace {
        Trace::Miss => Shade::Sky,
        Trace::Absorbed => Shade::Black,
        Trace::Scattered => Shade::Bounce { depth: depth - 1 },
    }
}

/// A path ends: whatever its rays meet, it bounces at most as often as it had
/// bounces to spend.
pub proof fn path_ends_within_depth(depth: i32, traces: Seq<Trace>)
    ensures
        bounces(depth, traces) <= if depth <= 0 { 0int } else { depth as int },
    decreases traces.len(),
{
    if traces.len() > 0 {
        match shade_spec(depth, traces[0]) {
            Shade::Bounce { depth: rest } => {
                path_ends_within_depth(rest, traces.drop_first());
            },
            _ => {},
        }
    }
}

} // verus!
