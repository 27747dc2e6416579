//! Mouse look: pointer motion turns the body (yaw) and tilts the camera
//! (pitch).
use vstd::prelude::*;
use crate::math::clamp;
use crate::structures::{
    PlayerCameraPivot, PlayerControllerData, PlayerInputEnabled, PointerDelta, Rotation,
    FULL_TURN, LOOK_SENSITIVITY, PITCH_LIMIT,
};
use vstd::arithmetic::div_mod::{lemma_fundamental_div_mod, lemma_fundamental_div_mod_converse};

verus! {

/// An angle brought into `[0, FULL_TURN)` by whole turns.
pub open spec fn wrap_angle(a: int) -> int {
    a % (FULL_TURN as int)
}

/// The yaw after turning by `dx` of pointer motion.
pub open spec fn turned_yaw(yaw: int, dx: int) -> int {
    wrap_angle(yaw - dx * LOOK_SENSITIVITY)
}

/// The pitch after tilting by `dy` of pointer motion.
pub open spec fn tilted_pitch(pitch: int, dy: int) -> int {
    clamp(pitch - dy * LOOK_SENSITIVITY, -PITCH_LIMIT as int, PITCH_LIMIT as int)
}

/// The rotation after a tick's pointer motion, which counts as none while
/// input is disabled.
pub open spec fn looked(r: Rotation, pointer: PointerDelta, enabled: bool) -> Rotation {
    if enabled {
        Rotation {
            yaw: turned_yaw(r.yaw as int, pointer.x as int) as i64,
            pitch: tilted_pitch(r.pitch as int, pointer.y as int) as i64,
        }
    } else {
        Rotation {
            yaw: wrap_angle(r.yaw as int) as i64,
            pitch: clamp(r.pitch as int, -PITCH_LIMIT as int, PITCH_LIMIT as int) as i64,
        }
    }
}

/// Brings an angle into `[0, FULL_TURN)`.
pub fn wrap_yaw(a: i64) -> (r: i64)
    ensures
        r == wrap_angle(a as int),
        0 <= r < FULL_TURN,
{
    let turn: u64 = FULL_TURN as u64;
    if a >= 0 {
        let m: u64 = (a as u64) % turn;
        proof {
            lemma_fundamental_div_mod(a as int, turn as int);
            lemma_fundamental_div_mod_converse(a as int, turn as int, (a as int) / (turn as int), m as int);
        }
        m as i64
    } else {
        let n: u64 = (-(a as i128)) as u64;
        let m: u64 = n % turn;
        proof {
            lemma_fundamental_div_mod(n as int, turn as int);
            let q = n as int / turn as int;
            assert(n == q * turn + m);
            if m == 0 {
                assert(a == (-q) * turn + 0) by (nonlinear_arith)
                    requires
                        a == -(n as int),
                        n == q * turn + m,
                        m == 0,
                ;
                lemma_fundamental_div_mod_converse(a as int, turn as int, -q, 0);
            } else {
                assert(a == (-q - 1) * turn + (turn - m)) by (nonlinear_arith)
                    requires
                        a == -(n as int),
                        n == q * turn + m,
                ;
                lemma_fundamental_div_mod_converse(a as int, turn as int, -q - 1, turn - m);
            }
        }
        if m == 0 {
            0
        } else {
            (turn - m) as i64
        }
    }
}

/// Limits a pitch to `[-PITCH_LIMIT, PITCH_LIMIT]`.
pub fn clamp_pitch(p: i64) -> (r: i64)
    ensures
        r == clamp(p as int, -PITCH_LIMIT as int, PITCH_LIMIT as int),
{
    if p < -PITCH_LIMIT {
        -PITCH_LIMIT
    } else if p > PITCH_LIMIT {
        PITCH_LIMIT
    } else {
        p
    }
}

impl PlayerControllerData {
    /// Applies the tick's pointer motion, scaled by [`LOOK_SENSITIVITY`], to
    /// the rotation, and tilts the camera pivot to the new pitch. While input
    /// is disabled the motion is ignored.
    pub fn apply_look(
        &mut self,
        pivot: &mut PlayerCameraPivot,
        pointer: &PointerDelta,
        input_enabled: &PlayerInputEnabled,
    )
        requires
            old(self).wf(),
            pointer.wf(),
        ensures
            final(self).wf(),
            *final(self) == (PlayerControllerData {
                rotation: looked(old(self).rotation, *pointer, input_enabled.0),
                ..*old(self)
            }),
            !input_enabled.0 ==> final(self).rotation == old(self).rotation,
            final(pivot).pitch == final(self).rotation.pitch,
            final(pivot).translation == old(pivot).translation,
    {
        let (dx, dy): (i64, i64) = if input_enabled.0 {
            (pointer.x * LOOK_SENSITIVITY, pointer.y * LOOK_SENSITIVITY)
        } else {
            (0, 0)
        };
        let yaw: i64 = wrap_yaw(self.rotation.yaw - dx);
        let pitch: i64 = clamp_pitch(self.rotation.pitch - dy);
        proof {
            vstd::arithmetic::div_mod::lemma_small_mod(
                self.rotation.yaw as nat,
                FULL_TURN as nat,
            );
        }
        self.rotation = Rotation { yaw, pitch };
        pivot.pitch = pitch;
    }
}

/// Pitch responds monotonically to pointer motion: more motion downward never
/// leaves the camera looking further up, and motion that keeps the pitch
/// inside its limits moves it by exactly the scaled amount.
pub proof fn lemma_pitch_monotonic(pitch: int, dy1: int, dy2: int)
    requires
        dy1 <= dy2,
    ensures
        tilted_pitch(pitch, dy2) <= tilted_pitch(pitch, dy1),
        -PITCH_LIMIT <= tilted_pitch(pitch, dy1) <= PITCH_LIMIT,
        -PITCH_LIMIT <= pitch - dy1 * LOOK_SENSITIVITY <= PITCH_LIMIT ==> tilted_pitch(pitch, dy1)
            == pitch - dy1 * LOOK_SENSITIVITY,
{
    assert(dy1 * LOOK_SENSITIVITY <= dy2 * LOOK_SENSITIVITY) by (nonlinear_arith)
        requires
            dy1 <= dy2,
    ;
}

/// Whatever the starting angle and the motion, the yaw lands in
/// `[0, FULL_TURN)` and differs from the unwrapped angle by whole turns.
pub proof fn lemma_yaw_wraps(yaw: int, dx: int)
    ensures
        0 <= turned_yaw(yaw, dx) < FULL_TURN,
        (yaw - dx * LOOK_SENSITIVITY - turned_yaw(yaw, dx)) % (FULL_TURN as int) == 0,
{
    let a = yaw - dx * LOOK_SENSITIVITY;
    lemma_fundamental_div_mod(a, FULL_TURN as int);
    lemma_fundamental_div_mod_converse(
        a - turned_yaw(yaw, dx),
        FULL_TURN as int,
        a / (FULL_TURN as int),
        0,
    );
}

} // verus!
