//! Crouch guard: upward probes from the body's footprint decide whether
//! standing up is blocked by something overhead.
use vstd::prelude::*;
use crate::math::Vec3;
use crate::structures::{PlayerControllerData, PlayersInput, PLAYER_RADIUS};

verus! {

/// How far above its origin a crouch probe reaches: 1.2 standing heights.
pub const CROUCH_PROBE_REACH: i64 = 1_800_000;

/// A ray to cast into the world, ignoring the player's own collider.
#[derive(Clone, Copy, Debug, PartialEq, Eq, Structural)]
pub struct RayProbe {
    pub origin: Vec3,
    /// direction of travel; every probe here points straight up
    pub direction: Vec3,
    /// reach of the ray along its direction
    pub max_distance: i64,
}

/// The upward probe whose origin is `translation` moved by `x` and `z`.
pub open spec fn crouch_probe(translation: Vec3, x: int, z: int) -> RayProbe {
    RayProbe {
        origin: Vec3 {
            x: (translation.x + x) as i64,
            y: translation.y,
            z: (translation.z + z) as i64,
        },
        direction: Vec3 { x: 0, y: 1, z: 0 },
        max_distance: CROUCH_PROBE_REACH,
    }
}

/// Horizontal offsets of the probes: the centre, then one radius along
/// each horizontal axis in both directions.
pub open spec fn probe_offsets() -> Seq<(int, int)> {
    seq![
        (0, 0),
        (PLAYER_RADIUS as int, 0),
        (-PLAYER_RADIUS as int, 0),
        (0, PLAYER_RADIUS as int),
        (0, -PLAYER_RADIUS as int),
    ]
}

/// The probe that looks for something above the point `x`, `z` away from
/// the body's axis.
pub fn crouch_ray_cast(translation: &Vec3, x: i64, z: i64) -> (r: RayProbe)
    requires
        translation.in_world(),
        -PLAYER_RADIUS <= x <= PLAYER_RADIUS,
        -PLAYER_RADIUS <= z <= PLAYER_RADIUS,
    ensures
        r == crouch_probe(*translation, x as int, z as int),
{
    RayProbe {
        origin: Vec3::new(translation.x + x, translation.y, translation.z + z),
        direction: Vec3::new(0, 1, 0),
        max_distance: CROUCH_PROBE_REACH,
    }
}

/// The five probes of the crouch guard for a body at `position`.
pub fn crouch_probes(position: &Vec3) -> (r: Vec<RayProbe>)
    requires
        position.in_world(),
    ensures
        r@.len() == 5,
        forall|i: int|
            0 <= i < 5 ==> r@[i] == #[trigger] crouch_probe(
                *position,
                probe_offsets()[i].0,
                probe_offsets()[i].1,
            ),
{
    let mut probes: Vec<RayProbe> = Vec::new();
    probes.push(crouch_ray_cast(position, 0, 0));
    probes.push(crouch_ray_cast(position, PLAYER_RADIUS, 0));
    probes.push(crouch_ray_cast(position, -PLAYER_RADIUS, 0));
    probes.push(crouch_ray_cast(position, 0, PLAYER_RADIUS));
    probes.push(crouch_ray_cast(position, 0, -PLAYER_RADIUS));
    assert(probe_offsets()[1] == (PLAYER_RADIUS as int, 0int));
    probes
}

/// Standing is blocked when any probe hit something.
pub fn blocked_above(hits: &Vec<bool>) -> (r: bool)
    ensures
        r == exists|i: int| 0 <= i < hits@.len() && #[trigger] hits@[i],
{
    let mut i: usize = 0;
    while i < hits.len()
        invariant
            i <= hits@.len(),
            forall|j: int| 0 <= j < i ==> !#[trigger] hits@[j],
        decreases hits@.len() - i,
    {
        if hits[i] {
            return true;
        }
        i += 1;
    }
    false
}

/// The stance for this tick: crouched if asked for, and also while the
/// player was crouched or asks to be and the guard finds standing blocked.
pub open spec fn resolved_crouch(crouched: bool, wants: bool, blocked: bool) -> bool {
    if crouched || wants {
        wants || blocked
    } else {
        false
    }
}

impl PlayerControllerData {
    /// The guard needs to be consulted only while crouched or asking to be.
    pub fn needs_crouch_guard(&self, input: &PlayersInput) -> (r: bool)
        ensures
            r == (self.crouched || input.crouch),
    {
        self.crouched || input.crouch
    }

    /// Decides this tick's stance from the input and the guard's verdict;
    /// `blocked` is ignored when the guard was not needed.
    pub fn resolve_crouch(&self, input: &PlayersInput, blocked: bool) -> (r: bool)
        ensures
            r == resolved_crouch(self.crouched, input.crouch, blocked),
            self.crouched && blocked ==> r,
            input.crouch ==> r,
    {
        if self.crouched || input.crouch {
            input.crouch || blocked
        } else {
            false
        }
    }
}

/// The stance after a run of ticks with crouch released, from `crouched`,
/// where `blocked[i]` is the guard's verdict in tick `i`.
pub open spec fn crouch_after_release(crouched: bool, blocked: Seq<bool>) -> bool
    decreases blocked.len(),
{
    if blocked.len() == 0 {
        crouched
    } else {
        resolved_crouch(
            crouch_after_release(crouched, blocked.drop_last()),
            false,
            blocked.last(),
        )
    }
}

/// With crouch released, a crouched player stays crouched for as long as the
/// guard finds standing blocked, and stands in the first tick it does not.
pub proof fn lemma_crouch_held_while_blocked(blocked: Seq<bool>)
    ensures
        (forall|i: int| 0 <= i < blocked.len() ==> #[trigger] blocked[i]) ==> crouch_after_release(
            true,
            blocked,
        ),
        blocked.len() > 0 && !blocked.last() ==> !crouch_after_release(true, blocked),
    decreases blocked.len(),
{
    if blocked.len() > 0 {
        lemma_crouch_held_while_blocked(blocked.drop_last());
        if forall|i: int| 0 <= i < blocked.len() ==> #[trigger] blocked[i] {
            assert forall|i: int| 0 <= i < blocked.drop_last().len() implies #[trigger] blocked.drop_last()[i] by {
                assert(blocked[i]);
            }
            assert(blocked[blocked.len() - 1]);
        }
    }
}

} // verus!
