//! Components that belong to no system in particular.
use vstd::prelude::*;
use crate::math::Vec3;

verus! {

/// Sphere of tear: a region where the player gains fear. Its value is
/// compared with the squared distance from its centre, in square
/// micrometres.
#[derive(Clone, Copy, Debug, PartialEq, Eq, Structural)]
pub struct SphereOfTear(pub i128);

/// Squared distance between two points.
pub open spec fn distance_squared(a: Vec3, b: Vec3) -> int {
    (a.x - b.x) * (a.x - b.x) + (a.y - b.y) * (a.y - b.y) + (a.z - b.z) * (a.z - b.z)
}

/// Square of a coordinate difference within the world.
fn square_of_difference(a: i64, b: i64) -> (r: i128)
    requires
        -crate::math::WORLD_LIMIT <= a <= crate::math::WORLD_LIMIT,
        -crate::math::WORLD_LIMIT <= b <= crate::math::WORLD_LIMIT,
    ensures
        r == (a - b) * (a - b),
        0 <= r <= 4 * crate::math::WORLD_LIMIT * crate::math::WORLD_LIMIT,
{
    let d: i128 = a as i128 - b as i128;
    assert(0 <= d * d <= 4 * crate::math::WORLD_LIMIT * crate::math::WORLD_LIMIT)
        by (nonlinear_arith)
        requires
            -2 * crate::math::WORLD_LIMIT <= d <= 2 * crate::math::WORLD_LIMIT,
    ;
    d * d
}

impl SphereOfTear {
    /// Whether `point` counts as inside the sphere centred at
    /// `sphere_position`.
    pub open spec fn holds(self, sphere_position: Vec3, point: Vec3) -> bool {
        distance_squared(sphere_position, point) <= self.0
    }

    /// Returns true if the squared distance from the sphere's centre to
    /// `point` is at most the sphere's value.
    pub fn point_in_sphere(&self, sphere_position: &Vec3, point: &Vec3) -> (r: bool)
        requires
            sphere_position.in_world(),
            point.in_world(),
        ensures
            r == self.holds(*sphere_position, *point),
    {
        let value: i128 = square_of_difference(sphere_position.x, point.x) + square_of_difference(
            sphere_position.y,
            point.y,
        ) + square_of_difference(sphere_position.z, point.z);
        value <= self.0
    }
}

} // verus!
