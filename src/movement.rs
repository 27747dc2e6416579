//! The movement core: turns a tick's input into velocity, integrates gravity
//! and jumps, asks the collision resolver to move the body, and settles the
//! grounded and crouched state afterwards.
//!
//! A tick runs these steps in order; the driver performs the queries to the
//! physics world between them:
//!  1. [`PlayerControllerData::needs_crouch_guard`], and if so the probes of
//!     [`crate::crouch::crouch_probes`], folded by [`crate::crouch::blocked_above`];
//!  2. [`PlayerControllerData::resolve_crouch`];
//!  3. [`PlayerControllerData::apply_look`];
//!  4. [`PlayerControllerData::move_character`], with the heading of the new yaw;
//!     the returned request goes to the collision resolver;
//!  5. [`apply_move`] with the resolver's effective translation;
//!  6. a ground probe at [`ground_probe_center`];
//!  7. [`PlayerControllerData::settle`].
use vstd::prelude::*;
use crate::crouch::resolved_crouch;
use crate::look::looked;
use crate::math::{
    abs, clamp, div_toward_zero, integer_sqrt, lemma_root_floor, root_floor, scale_by_time,
    trunc_div, Vec3, MAX_TICK_MICROS, MICROS, WORLD_LIMIT,
};
use crate::structures::{
    Heading, PlayerCameraPivot, PlayerControllerData, PlayersInput, PointerDelta,
    CAMERA_CROUCH_HEIGHT, CAMERA_WALK_HEIGHT, CROUCH_SPEED, HEADING_UNIT, PLAYER_HEIGHT,
    PLAYER_RADIUS, RUN_SPEED, WALK_SPEED, FULL_TURN,
};

verus! {

/// Half height of the capsule that probes for ground below the body.
pub const GROUND_PROBE_HALF_HEIGHT: i64 = 350_000;
/// Radius of the capsule that probes for ground below the body.
pub const GROUND_PROBE_RADIUS: i64 = 900_000;
/// Highest ledge that auto-stepping climbs.
pub const AUTOSTEP_MAX_HEIGHT: i64 = 1_650_000;
/// Narrowest ledge that auto-stepping lands on.
pub const AUTOSTEP_MIN_WIDTH: i64 = 500_000;
/// Slopes steeper than this make the body slide, in nanoradians (30°).
pub const MIN_SLOPE_SLIDE_ANGLE: i64 = 523_598_776;
/// Slopes steeper than this cannot be climbed, in nanoradians (45°).
pub const MAX_SLOPE_CLIMB_ANGLE: i64 = 785_398_163;

/// What the collision resolver is asked to do with the body this tick.
#[derive(Clone, Copy, Debug, PartialEq, Eq, Structural)]
pub struct MoveRequest {
    /// desired displacement
    pub translation: Vec3,
    /// the collider is tipped over, to stand for a crouched body
    pub tilted: bool,
    /// auto-stepping over low ledges is enabled
    pub autostep: bool,
}

/// Ground speed for the stance: crouching is slowest, running fastest.
pub open spec fn speed_of(crouch: bool, run: bool) -> int {
    if crouch {
        CROUCH_SPEED as int
    } else if run {
        RUN_SPEED as int
    } else {
        WALK_SPEED as int
    }
}

/// Backward minus forward: the body-relative axis of travel.
pub open spec fn forward_axis(input: PlayersInput) -> int {
    (if input.backward { 1int } else { 0int }) - (if input.forward { 1int } else { 0int })
}

/// Right minus left: the body-relative sideways axis.
pub open spec fn sideways_axis(input: PlayersInput) -> int {
    (if input.right { 1int } else { 0int }) - (if input.left { 1int } else { 0int })
}

/// The body-relative direction turned into world space by the heading
/// (scaled by [`HEADING_UNIT`]), as its x and z parts.
pub open spec fn planar_direction(input: PlayersInput, h: Heading) -> (int, int) {
    let f = forward_axis(input);
    let s = sideways_axis(input);
    (h.sin * f + h.cos * s, h.cos * f - h.sin * s)
}

/// The horizontal velocity: the world-space direction scaled to the
/// stance's speed, or zero when no direction is held.
pub open spec fn planar_velocity_of(input: PlayersInput, crouch: bool, h: Heading) -> Vec3 {
    let (x, z) = planar_direction(input, h);
    let len = root_floor(x * x + z * z);
    let speed = speed_of(crouch, input.run);
    if len == 0 {
        Vec3 { x: 0, y: 0, z: 0 }
    } else {
        Vec3 {
            x: trunc_div(x * speed, len) as i64,
            y: 0,
            z: trunc_div(z * speed, len) as i64,
        }
    }
}

/// A fall is over once a grounded body still carries downward motion.
pub open spec fn landed(c: PlayerControllerData) -> bool {
    c.grounded && (c.acceleration.y < 0 || c.velocity.y < 0)
}

/// The controller after the vertical integration of one tick of `micros`:
/// a landing clears the fall, a grounded jump adds the jump force, a body
/// in the air that is not yet falling takes on gravity, and the velocity
/// takes on the acceleration and is held to the terminal velocity.
pub open spec fn integrated(c: PlayerControllerData, jump: bool, micros: int) -> PlayerControllerData {
    let a0 = if landed(c) { 0 } else { c.acceleration.y as int };
    let v0 = if landed(c) { 0 } else { c.velocity.y as int };
    let v1 = if c.grounded && jump { v0 + c.jump_force } else { v0 };
    let a1 = if !c.grounded && v1 >= 0 { -c.gravity } else { a0 };
    let v2 = v1 + trunc_div(a1 * micros, MICROS as int);
    let v3 = clamp(v2, -c.terminal_velocity, c.terminal_velocity as int);
    PlayerControllerData {
        acceleration: Vec3 { y: a1 as i64, ..c.acceleration },
        velocity: Vec3 { y: v3 as i64, ..c.velocity },
        ..c
    }
}

/// The displacement of `micros` at the sum of the two velocities.
pub open spec fn displacement_of(planar: Vec3, velocity: Vec3, micros: int) -> Vec3 {
    Vec3 {
        x: trunc_div((planar.x + velocity.x) * micros, MICROS as int) as i64,
        y: trunc_div((planar.y + velocity.y) * micros, MICROS as int) as i64,
        z: trunc_div((planar.z + velocity.z) * micros, MICROS as int) as i64,
    }
}

/// The request handed to the collision resolver by a controller already
/// integrated for the tick, which started grounded or not as `grounded`.
pub open spec fn request_of(
    c: PlayerControllerData,
    grounded: bool,
    input: PlayersInput,
    crouch: bool,
    h: Heading,
    micros: int,
) -> MoveRequest {
    MoveRequest {
        translation: displacement_of(planar_velocity_of(input, crouch, h), c.velocity, micros),
        tilted: crouch,
        autostep: grounded,
    }
}

/// Grounded when the probe touched something and the body is not rising;
/// the stance of the tick is kept for the next.
pub open spec fn settled(c: PlayerControllerData, crouch: bool, ground_hit: bool) -> PlayerControllerData {
    PlayerControllerData { grounded: ground_hit && c.velocity.y <= 0, crouched: crouch, ..c }
}

/// Lift given to a body that stands up, so that it does not sink into the
/// floor when its collider grows back.
pub open spec fn stand_up_lift(was_crouched: bool, crouch: bool) -> int {
    if was_crouched && !crouch {
        PLAYER_HEIGHT - PLAYER_RADIUS
    } else {
        0
    }
}

/// Offset of the camera pivot for the stance.
pub open spec fn camera_offset_of(crouch: bool) -> Vec3 {
    if crouch {
        Vec3 { x: 0, y: CAMERA_CROUCH_HEIGHT, z: 0 }
    } else {
        Vec3 { x: 0, y: CAMERA_WALK_HEIGHT, z: 0 }
    }
}

/// Ground speed for the stance.
pub fn player_speed(crouch: bool, run: bool) -> (r: i64)
    ensures
        r == speed_of(crouch, run),
{
    if crouch {
        CROUCH_SPEED
    } else if run {
        RUN_SPEED
    } else {
        WALK_SPEED
    }
}

/// Offset of the camera pivot for the stance.
pub fn camera_offset(crouch: bool) -> (r: Vec3)
    ensures
        r == camera_offset_of(crouch),
{
    if crouch {
        Vec3::new(0, CAMERA_CROUCH_HEIGHT, 0)
    } else {
        Vec3::new(0, CAMERA_WALK_HEIGHT, 0)
    }
}

proof fn lemma_part_below_root(k: int, n: int)
    requires
        0 <= k,
        k * k <= n,
    ensures
        k <= root_floor(n),
{
    lemma_root_floor(n);
    let r = root_floor(n);
    if k > r {
        assert((r + 1) * (r + 1) <= k * k) by (nonlinear_arith)
            requires
                k >= r + 1,
                r >= 0,
        ;
    }
}

proof fn lemma_scaled_part_bounded(a: int, speed: int, len: int)
    requires
        abs(a) <= len,
        len > 0,
        speed >= 0,
    ensures
        abs(trunc_div(a * speed, len)) <= speed,
{
    let m = abs(a) * speed;
    assert(m <= len * speed) by (nonlinear_arith)
        requires
            abs(a) <= len,
            speed >= 0,
            m == abs(a) * speed,
    ;
    assert(abs(a * speed) == m) by (nonlinear_arith)
        requires
            speed >= 0,
            m == abs(a) * speed,
    ;
    vstd::arithmetic::div_mod::lemma_div_is_ordered(m, len * speed, len);
    vstd::arithmetic::div_mod::lemma_div_by_multiple(speed, len);
    assert(len * speed == speed * len) by (nonlinear_arith);
    vstd::arithmetic::div_mod::lemma_div_pos_is_pos(m, len);
}

/// `value * factor` for a factor of -1, 0 or 1.
fn times_unit(value: i64, factor: i64) -> (r: i64)
    requires
        -1 <= factor <= 1,
        value > i64::MIN,
    ensures
        r == value * factor,
        abs(r as int) <= abs(value as int),
{
    if factor == 1 {
        value
    } else if factor == -1 {
        -value
    } else {
        0
    }
}

/// The body-relative direction `forward`, `sideways` turned into world space.
fn turn_into_world(forward: i64, sideways: i64, heading: &Heading) -> (r: (i64, i64))
    requires
        heading.wf(),
        -1 <= forward <= 1,
        -1 <= sideways <= 1,
    ensures
        r.0 == heading.sin * forward + heading.cos * sideways,
        r.1 == heading.cos * forward - heading.sin * sideways,
        abs(r.0 as int) <= 2 * HEADING_UNIT,
        abs(r.1 as int) <= 2 * HEADING_UNIT,
{
    let x_fac: i64 = heading.cos;
    let z_fac: i64 = heading.sin;
    let x: i64 = times_unit(z_fac, forward) + times_unit(x_fac, sideways);
    let z: i64 = times_unit(x_fac, forward) - times_unit(z_fac, sideways);
    (x, z)
}

/// The vector `x`, `z` scaled to length `speed`, or zero if it is zero.
fn scale_to_speed(x: i64, z: i64, speed: i64) -> (r: Vec3)
    requires
        abs(x as int) <= 2 * HEADING_UNIT,
        abs(z as int) <= 2 * HEADING_UNIT,
        0 <= speed <= RUN_SPEED,
    ensures
        r == (if root_floor(x * x + z * z) == 0 {
            Vec3 { x: 0, y: 0, z: 0 }
        } else {
            Vec3 {
                x: trunc_div(x * speed, root_floor(x * x + z * z)) as i64,
                y: 0,
                z: trunc_div(z * speed, root_floor(x * x + z * z)) as i64,
            }
        }),
        abs(r.x as int) <= speed,
        abs(r.z as int) <= speed,
{
    assert(0 <= x * x <= 4 * HEADING_UNIT * HEADING_UNIT) by (nonlinear_arith)
        requires
            abs(x as int) <= 2 * HEADING_UNIT,
    ;
    assert(0 <= z * z <= 4 * HEADING_UNIT * HEADING_UNIT) by (nonlinear_arith)
        requires
            abs(z as int) <= 2 * HEADING_UNIT,
    ;
    let square: i64 = x * x + z * z;
    let len: u64 = integer_sqrt(square as u64);
    if len == 0 {
        return Vec3::zero();
    }
    proof {
        assert(abs(x as int) * abs(x as int) == x * x) by (nonlinear_arith);
        assert(abs(z as int) * abs(z as int) == z * z) by (nonlinear_arith);
        lemma_part_below_root(abs(x as int), square as int);
        lemma_part_below_root(abs(z as int), square as int);
        lemma_root_floor(square as int);
        assert(len <= 3 * HEADING_UNIT) by (nonlinear_arith)
            requires
                len * len <= square,
                square <= 8 * HEADING_UNIT * HEADING_UNIT,
                len >= 0,
        ;
        assert(abs(x * speed) <= 2 * HEADING_UNIT * RUN_SPEED) by (nonlinear_arith)
            requires
                abs(x as int) <= 2 * HEADING_UNIT,
                0 <= speed <= RUN_SPEED,
        ;
        assert(abs(z * speed) <= 2 * HEADING_UNIT * RUN_SPEED) by (nonlinear_arith)
            requires
                abs(z as int) <= 2 * HEADING_UNIT,
                0 <= speed <= RUN_SPEED,
        ;
        lemma_scaled_part_bounded(x as int, speed as int, len as int);
        lemma_scaled_part_bounded(z as int, speed as int, len as int);
    }
    let vx: i64 = div_toward_zero(x * speed, len as i64);
    let vz: i64 = div_toward_zero(z * speed, len as i64);
    Vec3::new(vx, 0, vz)
}

/// The horizontal velocity for this tick: the held directions turned into
/// world space by the heading, normalised, and scaled to the stance's speed.
pub fn planar_velocity(input: &PlayersInput, crouch: bool, heading: &Heading) -> (r: Vec3)
    requires
        heading.wf(),
    ensures
        r == planar_velocity_of(*input, crouch, *heading),
        abs(r.x as int) <= speed_of(crouch, input.run),
        abs(r.z as int) <= speed_of(crouch, input.run),
        r.y == 0,
{
    let mut forward: i64 = 0;
    let mut sideways: i64 = 0;
    if input.backward {
        forward += 1;
    }
    if input.forward {
        forward -= 1;
    }
    if input.right {
        sideways += 1;
    }
    if input.left {
        sideways -= 1;
    }
    let speed: i64 = player_speed(crouch, input.run);
    let (x, z) = turn_into_world(forward, sideways, heading);
    scale_to_speed(x, z, speed)
}

/// Where the ground probe stands: one body height below `position`.
pub fn ground_probe_center(position: &Vec3) -> (r: Vec3)
    requires
        position.in_world(),
    ensures
        r == (Vec3 { y: (position.y - PLAYER_HEIGHT) as i64, ..*position }),
{
    Vec3::new(position.x, position.y - PLAYER_HEIGHT, position.z)
}

/// Moves the body by the resolver's effective translation.
pub fn apply_move(position: &mut Vec3, translation: &Vec3)
    requires
        abs(old(position).x + translation.x) <= WORLD_LIMIT,
        abs(old(position).y + translation.y) <= WORLD_LIMIT,
        abs(old(position).z + translation.z) <= WORLD_LIMIT,
    ensures
        final(position).in_world(),
        final(position).x == old(position).x + translation.x,
        final(position).y == old(position).y + translation.y,
        final(position).z == old(position).z + translation.z,
{
    position.x = position.x + translation.x;
    position.y = position.y + translation.y;
    position.z = position.z + translation.z;
}

impl PlayerControllerData {
    /// Integrates this tick's vertical motion and returns what to ask of the
    /// collision resolver: the displacement of the tick at the horizontal
    /// velocity of `input` plus the controller's velocity, the tipped-over
    /// collider while crouched, and auto-stepping only when grounded.
    pub fn move_character(
        &mut self,
        input: &PlayersInput,
        crouch: bool,
        heading: &Heading,
        micros: u64,
    ) -> (r: MoveRequest)
        requires
            old(self).wf(),
            heading.wf(),
            micros <= MAX_TICK_MICROS,
        ensures
            final(self).wf(),
            *final(self) == integrated(*old(self), input.jump, micros as int),
            r == request_of(*final(self), old(self).grounded, *input, crouch, *heading, micros as int),
    {
        let planar: Vec3 = planar_velocity(input, crouch, heading);
        let was_grounded: bool = self.grounded;
        // vertical motion: landing, jumping and gravity
        if self.grounded {
            if self.acceleration.y < 0 || self.velocity.y < 0 {
                self.acceleration.y = 0;
                self.velocity.y = 0;
            }
            if input.jump {
                self.velocity.y = self.velocity.y + self.jump_force;
            }
        } else {
            if self.velocity.y >= 0 {
                self.acceleration.y = -self.gravity;
            }
        }
        let change: i64 = scale_by_time(self.acceleration.y, micros);
        let v: i64 = self.velocity.y + change;
        // hold the vertical speed to the terminal velocity
        self.velocity.y = if v < -self.terminal_velocity {
            -self.terminal_velocity
        } else if v > self.terminal_velocity {
            self.terminal_velocity
        } else {
            v
        };
        let translation = Vec3::new(
            scale_by_time(planar.x + self.velocity.x, micros),
            scale_by_time(planar.y + self.velocity.y, micros),
            scale_by_time(planar.z + self.velocity.z, micros),
        );
        MoveRequest { translation, tilted: crouch, autostep: was_grounded }
    }

    /// Ends the tick: the ground probe's outcome decides whether the body is
    /// grounded, a body that stands up is lifted clear of the floor, the
    /// camera pivot moves to the stance's height, and the stance is kept for
    /// the next tick.
    pub fn settle(
        &mut self,
        pivot: &mut PlayerCameraPivot,
        position: &mut Vec3,
        crouch: bool,
        ground_hit: bool,
    )
        requires
            old(self).wf(),
            old(position).in_world(),
        ensures
            final(self).wf(),
            *final(self) == settled(*old(self), crouch, ground_hit),
            final(self).grounded ==> final(self).velocity.y <= 0,
            !ground_hit ==> !final(self).grounded,
            *final(position) == (Vec3 {
                y: (old(position).y + stand_up_lift(old(self).crouched, crouch)) as i64,
                ..*old(position)
            }),
            final(pivot).translation == camera_offset_of(crouch),
            final(pivot).pitch == old(pivot).pitch,
    {
        self.grounded = ground_hit && self.velocity.y <= 0;
        if self.crouched && !crouch {
            position.y = position.y + (PLAYER_HEIGHT - PLAYER_RADIUS);
        }
        pivot.translation = camera_offset(crouch);
        self.crouched = crouch;
    }
}

/// The controller and position after a whole tick, given what the outside
/// world answered: the crouch guard's verdict, the heading of the new yaw,
/// the resolver's effective translation and the ground probe's outcome.
pub open spec fn tick(
    c: PlayerControllerData,
    position: Vec3,
    input: PlayersInput,
    pointer: PointerDelta,
    enabled: bool,
    blocked: bool,
    heading: Heading,
    micros: int,
    effective: Vec3,
    ground_hit: bool,
) -> (PlayerControllerData, Vec3) {
    let crouch = resolved_crouch(c.crouched, input.crouch, blocked);
    let looking = PlayerControllerData { rotation: looked(c.rotation, pointer, enabled), ..c };
    let moving = integrated(looking, input.jump, micros);
    let moved = Vec3 {
        x: (position.x + effective.x) as i64,
        y: (position.y + effective.y + stand_up_lift(c.crouched, crouch)) as i64,
        z: (position.z + effective.z) as i64,
    };
    (settled(moving, crouch, ground_hit), moved)
}

/// What a tick with no input and no pointer motion asks of the resolver.
pub open spec fn idle_request(c: PlayerControllerData, heading: Heading, micros: int) -> Vec3 {
    let looking = PlayerControllerData {
        rotation: looked(c.rotation, PointerDelta { x: 0, y: 0 }, true),
        ..c
    };
    request_of(
        integrated(looking, false, micros),
        c.grounded,
        PlayersInput::none(),
        false,
        heading,
        micros,
    ).translation
}

/// `n` ticks with no input and no pointer motion, in which the resolver
/// grants the requested displacement and the ground probe touches ground.
pub open spec fn idle_ticks(
    c: PlayerControllerData,
    position: Vec3,
    heading: Heading,
    micros: int,
    n: nat,
) -> (PlayerControllerData, Vec3)
    decreases n,
{
    if n == 0 {
        (c, position)
    } else {
        let (c1, p1) = idle_ticks(c, position, heading, micros, (n - 1) as nat);
        tick(
            c1,
            p1,
            PlayersInput::none(),
            PointerDelta { x: 0, y: 0 },
            true,
            false,
            heading,
            micros,
            idle_request(c1, heading, micros),
            true,
        )
    }
}

/// A grounded, standing player at rest, with no input and no pointer
/// motion, asks for no displacement and, on ground, stays exactly as it is:
/// position, rotation, stance and velocity, tick after tick.
pub proof fn lemma_rest_is_stable(
    c: PlayerControllerData,
    position: Vec3,
    heading: Heading,
    micros: int,
    n: nat,
)
    requires
        c.wf(),
        c.grounded,
        !c.crouched,
        c.velocity == (Vec3 { x: 0, y: 0, z: 0 }),
        c.acceleration == (Vec3 { x: 0, y: 0, z: 0 }),
        heading.wf(),
        0 <= micros,
    ensures
        idle_request(c, heading, micros) == (Vec3 { x: 0, y: 0, z: 0 }),
        idle_ticks(c, position, heading, micros, n) == (c, position),
    decreases n,
{
    let idle = PlayersInput::none();
    assert(idle.is_idle());
    vstd::arithmetic::div_mod::lemma_small_mod(c.rotation.yaw as nat, FULL_TURN as nat);
    let looking = PlayerControllerData {
        rotation: looked(c.rotation, PointerDelta { x: 0, y: 0 }, true),
        ..c
    };
    assert(looking == c);
    assert(root_floor(0) == 0);
    assert(heading.sin * 0 == 0 && heading.cos * 0 == 0 && 0 * micros == 0) by (nonlinear_arith);
    assert(trunc_div(0, MICROS as int) == 0);
    assert(forward_axis(idle) == 0 && sideways_axis(idle) == 0);
    assert(planar_direction(idle, heading) == (0int, 0int));
    assert(0int * 0int + 0int * 0int == 0) by (nonlinear_arith);
    assert(planar_velocity_of(idle, false, heading) == (Vec3 { x: 0, y: 0, z: 0 }));
    assert(integrated(c, false, micros) == c);
    if n > 0 {
        lemma_rest_is_stable(c, position, heading, micros, (n - 1) as nat);
        assert(settled(c, false, true) == c);
    }
}

/// A grounded player at rest who jumps gains exactly the jump force in
/// vertical speed that tick, and is not grounded at its end, whatever the
/// ground probe reports.
pub proof fn lemma_jump_from_rest(c: PlayerControllerData, micros: int, crouch: bool, ground_hit: bool)
    requires
        c.wf(),
        c.grounded,
        c.velocity.y == 0,
        c.acceleration.y == 0,
        0 < c.jump_force <= c.terminal_velocity,
        0 <= micros,
    ensures
        integrated(c, true, micros).velocity.y == c.velocity.y + c.jump_force,
        !settled(integrated(c, true, micros), crouch, ground_hit).grounded,
{
    assert(0 * micros == 0) by (nonlinear_arith);
    assert(trunc_div(0, MICROS as int) == 0);
}

} // verus!
