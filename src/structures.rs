//! The player's data: meters, controller state, input snapshots and the
//! tuning constants of the controller.
//!
//! Fear and stamina are counted in thousandths of a point, angles in
//! nanoradians, pointer motion in thousandths of a pixel, and masses in grams.
use vstd::prelude::*;
use crate::math::{abs, Vec3, MAX_RATE};

verus! {

// player size
/// Height of the standing body.
pub const PLAYER_HEIGHT: i64 = 1_500_000;
/// Radius of the body's footprint.
pub const PLAYER_RADIUS: i64 = 1_000_000;

// player stamina
/// Stamina above which a player who ran out may run again.
pub const MIN_STAMINA_TO_UNBLOCK_RUN: u64 = 52_000;
/// Stamina regained per tick while not running.
pub const STAMINA_RECOVERY_SPEED: u64 = 300;
/// Stamina spent per tick while running.
pub const STAMINA_DECREASE_RATE: u64 = 700;
/// Stamina of a rested player.
pub const MAX_STAMINA: u64 = 2_500_000_000;

// player speed
pub const CROUCH_SPEED: i64 = 700_000;
pub const WALK_SPEED: i64 = 2_000_000;
pub const RUN_SPEED: i64 = 4_720_000;

// player's fear
/// Fear shed per tick outside every sphere of tear.
pub const FEAR_RECOVERY_SPEED: u64 = 50;
/// Fear gained per tick for each sphere of tear the player stands in.
pub const FEAR_INCREASE_RATE: u64 = 120;
/// Fear at or below which no more is shed.
pub const FEAR_FLOOR: u64 = 100;

// camera offsets
/// Height of the camera pivot above the body while standing.
pub const CAMERA_WALK_HEIGHT: i64 = 1_500_000;
/// Height of the camera pivot above the body while crouched.
pub const CAMERA_CROUCH_HEIGHT: i64 = 0;

// rotation
/// A full turn, 2π.
pub const FULL_TURN: i64 = 6_283_185_307;
/// How far the camera may look up or down: π/2 less a small margin.
pub const PITCH_LIMIT: i64 = 1_570_796_327 - 1_953_125;
/// Rotation per thousandth of a pixel of pointer motion.
pub const LOOK_SENSITIVITY: i64 = 3_200;
/// Largest pointer motion, in thousandths of a pixel, taken in one tick.
pub const MAX_POINTER_DELTA: i64 = 1_000_000_000_000;

/// Length of the unit vector in a [`Heading`].
pub const HEADING_UNIT: i64 = 1_000_000;

/// Player's meters.
/// There can only be one player.
#[derive(Clone, Copy, Debug, PartialEq, Eq, Structural)]
pub struct PlayerComponent {
    /// player's fear points
    pub fear: u64,
    /// player's current stamina
    pub stamina: u64,
    /// while set the player can't run
    pub stop_run: bool,
}

impl PlayerComponent {
    pub open spec fn wf(self) -> bool {
        self.stamina <= MAX_STAMINA
    }
}

impl Default for PlayerComponent {
    /// A fearless, rested player.
    fn default() -> (r: PlayerComponent)
        ensures
            r == (PlayerComponent { fear: 0, stamina: MAX_STAMINA, stop_run: false }),
    {
        PlayerComponent { fear: 0, stamina: MAX_STAMINA, stop_run: false }
    }
}

/// Whether the player's input is read (the cursor is captured).
#[derive(Clone, Copy, Debug, PartialEq, Eq, Structural)]
pub struct PlayerInputEnabled(pub bool);

/// Player's input for one tick.
#[derive(Clone, Copy, Debug, PartialEq, Eq, Structural, Default)]
pub struct PlayersInput {
    // directional
    pub backward: bool,
    pub forward: bool,
    pub right: bool,
    pub left: bool,
    // actions
    pub jump: bool,
    pub run: bool,
    pub crouch: bool,
}

impl PlayersInput {
    /// The snapshot with nothing held.
    pub fn idle() -> (r: PlayersInput)
        ensures
            r == PlayersInput::none(),
            r.is_idle(),
    {
        PlayersInput {
            backward: false,
            forward: false,
            right: false,
            left: false,
            jump: false,
            run: false,
            crouch: false,
        }
    }

    /// The snapshot with nothing held.
    pub open spec fn none() -> PlayersInput {
        PlayersInput {
            backward: false,
            forward: false,
            right: false,
            left: false,
            jump: false,
            run: false,
            crouch: false,
        }
    }

    pub open spec fn is_idle(self) -> bool {
        !self.backward && !self.forward && !self.right && !self.left && !self.jump && !self.run
            && !self.crouch
    }

    /// Some direction is held.
    pub open spec fn moving(self) -> bool {
        self.backward || self.forward || self.right || self.left
    }
}

/// The keys the player uses, as held during one tick.
#[derive(Clone, Copy, Debug, PartialEq, Eq, Structural, Default)]
pub struct HeldKeys {
    pub key_w: bool,
    pub key_a: bool,
    pub key_s: bool,
    pub key_d: bool,
    pub control_left: bool,
    pub control_right: bool,
    pub shift_left: bool,
    pub shift_right: bool,
    pub space: bool,
}

/// Pointer motion accumulated since the previous tick.
#[derive(Clone, Copy, Debug, PartialEq, Eq, Structural, Default)]
pub struct PointerDelta {
    pub x: i64,
    pub y: i64,
}

impl PointerDelta {
    pub open spec fn wf(self) -> bool {
        abs(self.x as int) <= MAX_POINTER_DELTA && abs(self.y as int) <= MAX_POINTER_DELTA
    }
}

/// Orientation of the player: `yaw` turns the body, `pitch` tilts the camera.
#[derive(Clone, Copy, Debug, PartialEq, Eq, Structural, Default)]
pub struct Rotation {
    pub yaw: i64,
    pub pitch: i64,
}

impl Rotation {
    pub open spec fn wf(self) -> bool {
        0 <= self.yaw < FULL_TURN && -PITCH_LIMIT <= self.pitch <= PITCH_LIMIT
    }
}

/// Cosine and sine of the body's yaw, scaled by [`HEADING_UNIT`].
#[derive(Clone, Copy, Debug, PartialEq, Eq, Structural)]
pub struct Heading {
    pub cos: i64,
    pub sin: i64,
}

impl Heading {
    pub open spec fn wf(self) -> bool {
        abs(self.cos as int) <= HEADING_UNIT && abs(self.sin as int) <= HEADING_UNIT
    }
}

/// Which conditions, besides holding run on the ground, make stamina drain.
#[derive(Clone, Copy, Debug, PartialEq, Eq, Structural)]
pub struct StaminaPolicy {
    /// drain only while some direction is held
    pub require_movement: bool,
    /// never drain while crouched
    pub forbid_crouched: bool,
}

impl Default for StaminaPolicy {
    /// Stamina drains only while moving and standing.
    fn default() -> (r: StaminaPolicy)
        ensures
            r == (StaminaPolicy { require_movement: true, forbid_crouched: true }),
    {
        StaminaPolicy { require_movement: true, forbid_crouched: true }
    }
}

/// State of the camera pivot, the child of the body that carries the camera.
#[derive(Clone, Copy, Debug, PartialEq, Eq, Structural)]
pub struct PlayerCameraPivot {
    /// tilt of the camera
    pub pitch: i64,
    /// offset of the pivot from the body
    pub translation: Vec3,
}

impl Default for PlayerCameraPivot {
    /// A level camera at standing height.
    fn default() -> (r: PlayerCameraPivot)
        ensures
            r == (PlayerCameraPivot { pitch: 0, translation: Vec3 { x: 0, y: CAMERA_WALK_HEIGHT, z: 0 } }),
    {
        PlayerCameraPivot { pitch: 0, translation: Vec3::new(0, CAMERA_WALK_HEIGHT, 0) }
    }
}

/// Player's data for the character controller.
#[derive(Clone, Copy, Debug, PartialEq, Eq, Structural)]
pub struct PlayerControllerData {
    /// speed given by a jump
    pub jump_force: i64,
    /// whether the player was crouched at the end of the last tick
    pub crouched: bool,
    // physics data
    pub acceleration: Vec3,
    pub velocity: Vec3,
    pub rotation: Rotation,
    pub mass: i64,
    /// strength of gravity
    pub gravity: i64,
    /// largest vertical speed
    pub terminal_velocity: i64,
    /// whether the player stands on the ground
    pub grounded: bool,
}

impl PlayerControllerData {
    /// Tuning within the integrator's range, a normalised rotation, vertical
    /// speed within the terminal velocity, and no horizontal acceleration.
    pub open spec fn wf(self) -> bool {
        &&& 0 <= self.jump_force <= MAX_RATE
        &&& 0 <= self.gravity <= MAX_RATE
        &&& 0 <= self.terminal_velocity <= MAX_RATE
        &&& self.rotation.wf()
        &&& self.acceleration.x == 0
        &&& self.acceleration.z == 0
        &&& abs(self.acceleration.y as int) <= MAX_RATE
        &&& abs(self.velocity.x as int) <= MAX_RATE
        &&& abs(self.velocity.z as int) <= MAX_RATE
        &&& abs(self.velocity.y as int) <= self.terminal_velocity
    }
}

impl Default for PlayerControllerData {
    /// A standing, airborne player at rest, with the game's tuning.
    fn default() -> (r: PlayerControllerData)
        ensures
            r.wf(),
            r.jump_force == 7_000_000,
            r.mass == 100_000,
            r.gravity == 9_800_000,
            r.terminal_velocity == 180_000_000,
            r.acceleration == (Vec3 { x: 0, y: 0, z: 0 }),
            r.velocity == (Vec3 { x: 0, y: 0, z: 0 }),
            r.rotation == (Rotation { yaw: 0, pitch: 0 }),
            !r.crouched,
            !r.grounded,
    {
        PlayerControllerData {
            jump_force: 7_000_000,
            crouched: false,
            acceleration: Vec3::zero(),
            velocity: Vec3::zero(),
            rotation: Rotation { yaw: 0, pitch: 0 },
            mass: 100_000,
            gravity: 9_800_000,
            terminal_velocity: 180_000_000,
            grounded: false,
        }
    }
}

} // verus!
