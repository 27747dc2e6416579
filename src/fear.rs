//! The fear meter: fear grows in spheres of tear and fades outside them.
use vstd::prelude::*;
use crate::components::SphereOfTear;
use crate::math::Vec3;
use crate::structures::{PlayerComponent, FEAR_FLOOR, FEAR_INCREASE_RATE, FEAR_RECOVERY_SPEED};

verus! {

/// How many of the spheres hold `point`.
pub open spec fn spheres_holding(spheres: Seq<(Vec3, SphereOfTear)>, point: Vec3) -> nat
    decreases spheres.len(),
{
    if spheres.len() == 0 {
        0
    } else {
        spheres_holding(spheres.drop_last(), point) + if spheres.last().1.holds(
            spheres.last().0,
            point,
        ) {
            1nat
        } else {
            0nat
        }
    }
}

/// Fear after a tick in `count` spheres: one increase per sphere, or, in
/// none, one step of recovery while above the floor.
pub open spec fn fear_after(fear: int, count: int) -> int {
    if count > 0 {
        fear + FEAR_INCREASE_RATE * count
    } else if fear > FEAR_FLOOR {
        fear - FEAR_RECOVERY_SPEED
    } else {
        fear
    }
}

proof fn lemma_holding_bounded(spheres: Seq<(Vec3, SphereOfTear)>, point: Vec3)
    ensures
        spheres_holding(spheres, point) <= spheres.len(),
    decreases spheres.len(),
{
    if spheres.len() > 0 {
        lemma_holding_bounded(spheres.drop_last(), point);
    }
}

/// Updates the player's fear for a tick spent at `position` among the
/// spheres of tear, each given with its centre.
pub fn update_fear(
    player: &mut PlayerComponent,
    position: &Vec3,
    spheres: &Vec<(Vec3, SphereOfTear)>,
)
    requires
        position.in_world(),
        forall|i: int| 0 <= i < spheres@.len() ==> (#[trigger] spheres@[i]).0.in_world(),
        old(player).fear + FEAR_INCREASE_RATE * spheres@.len() <= u64::MAX,
    ensures
        *final(player) == (PlayerComponent {
            fear: fear_after(old(player).fear as int, spheres_holding(spheres@, *position) as int)
                as u64,
            ..*old(player)
        }),
{
    let ghost start = player.fear;
    let mut in_sphere: bool = false;
    let mut i: usize = 0;
    while i < spheres.len()
        invariant
            i <= spheres@.len(),
            position.in_world(),
            forall|k: int| 0 <= k < spheres@.len() ==> (#[trigger] spheres@[k]).0.in_world(),
            start + FEAR_INCREASE_RATE * spheres@.len() <= u64::MAX,
            player.fear == start + FEAR_INCREASE_RATE * spheres_holding(spheres@.take(i as int), *position),
            in_sphere == (spheres_holding(spheres@.take(i as int), *position) > 0),
            player.stamina == old(player).stamina,
            player.stop_run == old(player).stop_run,
        decreases spheres@.len() - i,
    {
        proof {
            assert(spheres@.take(i as int + 1).drop_last() =~= spheres@.take(i as int));
            lemma_holding_bounded(spheres@.take(i as int), *position);
        }
        let (centre, sphere) = spheres[i];
        if sphere.point_in_sphere(&centre, position) {
            in_sphere = true;
            player.fear = player.fear + FEAR_INCREASE_RATE;
        }
        i += 1;
    }
    proof {
        assert(spheres@.take(spheres@.len() as int) =~= spheres@);
    }
    // outside every sphere, fear fades down to its floor
    if !in_sphere && player.fear > FEAR_FLOOR {
        player.fear = player.fear - FEAR_RECOVERY_SPEED;
    }
}

} // verus!
