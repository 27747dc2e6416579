//! The stamina meter: running on the ground spends stamina, resting
//! restores it, and a player who runs out may not run again until it has
//! recovered past a threshold well above zero.
use vstd::prelude::*;
use crate::structures::{
    PlayerComponent, PlayerControllerData, PlayerInputEnabled, PlayersInput, StaminaPolicy,
    MAX_STAMINA, MIN_STAMINA_TO_UNBLOCK_RUN, STAMINA_DECREASE_RATE, STAMINA_RECOVERY_SPEED,
};

verus! {

/// Whether this tick's input spends stamina.
pub open spec fn draining(input: PlayersInput, crouched: bool, policy: StaminaPolicy) -> bool {
    &&& input.run
    &&& (!policy.require_movement || input.moving())
    &&& (!policy.forbid_crouched || !crouched)
}

/// The meters after one tick. Nothing changes while input is disabled or
/// the player is in the air. Running spends stamina, down to zero, unless
/// running is already blocked, and reaching zero blocks running. Otherwise
/// stamina recovers up to its maximum, and running is unblocked once it
/// exceeds the threshold.
pub open spec fn stamina_step(
    p: PlayerComponent,
    enabled: bool,
    grounded: bool,
    crouched: bool,
    input: PlayersInput,
    policy: StaminaPolicy,
) -> PlayerComponent {
    if !enabled || !grounded {
        p
    } else if draining(input, crouched, policy) {
        let st = if p.stop_run {
            p.stamina as int
        } else if p.stamina >= STAMINA_DECREASE_RATE {
            p.stamina - STAMINA_DECREASE_RATE
        } else {
            0
        };
        PlayerComponent { stamina: st as u64, stop_run: p.stop_run || st <= 0, ..p }
    } else if p.stamina < MAX_STAMINA {
        let st = if p.stamina + STAMINA_RECOVERY_SPEED <= MAX_STAMINA {
            p.stamina + STAMINA_RECOVERY_SPEED
        } else {
            MAX_STAMINA as int
        };
        PlayerComponent {
            stamina: st as u64,
            stop_run: p.stop_run && st <= MIN_STAMINA_TO_UNBLOCK_RUN,
            ..p
        }
    } else {
        p
    }
}

/// Updates the player's stamina for one tick.
pub fn update_stamina(
    player: &mut PlayerComponent,
    controller: &PlayerControllerData,
    input: &PlayersInput,
    input_enabled: &PlayerInputEnabled,
    policy: &StaminaPolicy,
)
    requires
        old(player).wf(),
    ensures
        final(player).wf(),
        *final(player) == stamina_step(
            *old(player),
            input_enabled.0,
            controller.grounded,
            controller.crouched,
            *input,
            *policy,
        ),
{
    if !input_enabled.0 {
        return;
    }
    // stamina changes only on the ground
    if !controller.grounded {
        return;
    }
    let moving: bool = input.backward || input.forward || input.right || input.left;
    if input.run && (!policy.require_movement || moving) && (!policy.forbid_crouched
        || !controller.crouched) {
        if !player.stop_run {
            player.stamina = if player.stamina >= STAMINA_DECREASE_RATE {
                player.stamina - STAMINA_DECREASE_RATE
            } else {
                0
            };
        }
        // out of stamina: the player can't run
        if player.stamina == 0 && !player.stop_run {
            player.stop_run = true;
        }
    } else if player.stamina < MAX_STAMINA {
        player.stamina = if player.stamina <= MAX_STAMINA - STAMINA_RECOVERY_SPEED {
            player.stamina + STAMINA_RECOVERY_SPEED
        } else {
            MAX_STAMINA
        };
        // recovered enough: the player can run again
        if player.stamina > MIN_STAMINA_TO_UNBLOCK_RUN && player.stop_run {
            player.stop_run = false;
        }
    }
}

/// Running is blocked only by running out, and unblocked only by recovering
/// strictly past the threshold, which lies strictly above zero.
pub proof fn lemma_stop_run_hysteresis(
    p: PlayerComponent,
    enabled: bool,
    grounded: bool,
    crouched: bool,
    input: PlayersInput,
    policy: StaminaPolicy,
)
    requires
        p.wf(),
    ensures
        0 < MIN_STAMINA_TO_UNBLOCK_RUN,
        ({
            let q = stamina_step(p, enabled, grounded, crouched, input, policy);
            &&& q.wf()
            &&& p.stop_run && !q.stop_run ==> q.stamina > MIN_STAMINA_TO_UNBLOCK_RUN
            &&& !p.stop_run && q.stop_run ==> q.stamina == 0 && enabled && grounded && draining(
                input,
                crouched,
                policy,
            )
            &&& q.stamina <= MIN_STAMINA_TO_UNBLOCK_RUN && p.stop_run ==> q.stop_run
        }),
{
}

/// One tick of the meters: whether input is enabled, whether the player is
/// grounded, whether crouched, and the input.
#[derive(Clone, Copy, Debug, PartialEq, Eq, Structural)]
pub struct StaminaTick {
    pub enabled: bool,
    pub grounded: bool,
    pub crouched: bool,
    pub input: PlayersInput,
}

/// The meters after a run of ticks.
pub open spec fn stamina_after(
    p: PlayerComponent,
    policy: StaminaPolicy,
    ticks: Seq<StaminaTick>,
) -> PlayerComponent
    decreases ticks.len(),
{
    if ticks.len() == 0 {
        p
    } else {
        let t = ticks.last();
        stamina_step(
            stamina_after(p, policy, ticks.drop_last()),
            t.enabled,
            t.grounded,
            t.crouched,
            t.input,
            policy,
        )
    }
}

/// Once running is blocked it stays blocked through any run of ticks, with
/// stamina rising and falling in between, as long as after no tick of the
/// run has stamina exceeded the threshold.
pub proof fn lemma_run_stays_blocked(p: PlayerComponent, policy: StaminaPolicy, ticks: Seq<StaminaTick>)
    requires
        p.wf(),
        p.stop_run,
        forall|k: int|
            1 <= k <= ticks.len() ==> (#[trigger] stamina_after(p, policy, ticks.take(k))).stamina
                <= MIN_STAMINA_TO_UNBLOCK_RUN,
    ensures
        stamina_after(p, policy, ticks).stop_run,
        stamina_after(p, policy, ticks).wf(),
    decreases ticks.len(),
{
    if ticks.len() > 0 {
        let rest = ticks.drop_last();
        assert forall|k: int| 1 <= k <= rest.len() implies (#[trigger] stamina_after(
            p,
            policy,
            rest.take(k),
        )).stamina <= MIN_STAMINA_TO_UNBLOCK_RUN by {
            assert(rest.take(k) =~= ticks.take(k));
            assert(stamina_after(p, policy, ticks.take(k)).stamina <= MIN_STAMINA_TO_UNBLOCK_RUN);
        }
        lemma_run_stays_blocked(p, policy, rest);
        assert(ticks.take(ticks.len() as int) =~= ticks);
        assert(stamina_after(p, policy, ticks.take(ticks.len() as int)).stamina
            <= MIN_STAMINA_TO_UNBLOCK_RUN);
        let t = ticks.last();
        lemma_stop_run_hysteresis(
            stamina_after(p, policy, rest),
            t.enabled,
            t.grounded,
            t.crouched,
            t.input,
            policy,
        );
    }
}

} // verus!
