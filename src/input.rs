//! Input sampling: held keys become the tick's input snapshot.
use vstd::prelude::*;
use crate::structures::{HeldKeys, PlayerComponent, PlayerInputEnabled, PlayersInput};

verus! {

/// The snapshot for the held keys: nothing while input is disabled; running
/// only while the player may run; no jump while crouching.
pub open spec fn sampled(enabled: bool, stop_run: bool, keys: HeldKeys) -> PlayersInput {
    if !enabled {
        PlayersInput {
            backward: false,
            forward: false,
            right: false,
            left: false,
            jump: false,
            run: false,
            crouch: false,
        }
    } else {
        let crouch = keys.control_left || keys.control_right;
        PlayersInput {
            backward: keys.key_s,
            forward: keys.key_w,
            right: keys.key_d,
            left: keys.key_a,
            jump: keys.space && !crouch,
            run: (keys.shift_left || keys.shift_right) && !stop_run,
            crouch,
        }
    }
}

/// Reads the player's input from the held keys.
pub fn update_input(
    input_enabled: &PlayerInputEnabled,
    player: &PlayerComponent,
    keys: &HeldKeys,
) -> (r: PlayersInput)
    ensures
        r == sampled(input_enabled.0, player.stop_run, *keys),
{
    if !input_enabled.0 {
        // while input is disabled no stale command may leak through
        return PlayersInput::idle();
    }
    // get action's input
    let crouch: bool = keys.control_left || keys.control_right;
    // a player out of stamina can't run
    let run: bool = keys.shift_left || keys.shift_right;
    PlayersInput {
        // get direction input
        backward: keys.key_s,
        forward: keys.key_w,
        right: keys.key_d,
        left: keys.key_a,
        // can't jump while crouched
        jump: keys.space && !crouch,
        run: run && !player.stop_run,
        crouch,
    }
}

/// Captures the cursor, and enables input, on a right click; releases it
/// on escape, which wins when both come in one tick.
pub fn update_cursor_visible(
    input_enabled: &mut PlayerInputEnabled,
    right_clicked: bool,
    escape_pressed: bool,
)
    ensures
        final(input_enabled).0 == (if escape_pressed {
            false
        } else if right_clicked {
            true
        } else {
            old(input_enabled).0
        }),
{
    if right_clicked {
        input_enabled.0 = true;
    }
    if escape_pressed {
        input_enabled.0 = false;
    }
}

} // verus!
