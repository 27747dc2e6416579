use the_nightmarish_forest::crouch::{blocked_above, crouch_probes, CROUCH_PROBE_REACH};
use the_nightmarish_forest::look::{clamp_pitch, wrap_yaw};
use the_nightmarish_forest::math::{div_toward_zero, integer_sqrt, scale_by_time, Vec3};
use the_nightmarish_forest::movement::{
    apply_move, camera_offset, ground_probe_center, planar_velocity, player_speed,
};
use the_nightmarish_forest::structures::{
    Heading, PlayerCameraPivot, PlayerControllerData, PlayerInputEnabled, PlayersInput,
    PointerDelta, Rotation, CAMERA_WALK_HEIGHT, FULL_TURN, PITCH_LIMIT, PLAYER_HEIGHT,
    PLAYER_RADIUS, RUN_SPEED, WALK_SPEED,
};

const TICK: u64 = 16_000;

fn north() -> Heading {
    Heading { cos: 1_000_000, sin: 0 }
}

fn resting() -> PlayerControllerData {
    let mut c = PlayerControllerData::default();
    c.grounded = true;
    c
}

fn enabled() -> PlayerInputEnabled {
    PlayerInputEnabled(true)
}

/// Runs one whole tick against a world whose answers are given.
fn run_tick(
    c: &mut PlayerControllerData,
    pivot: &mut PlayerCameraPivot,
    position: &mut Vec3,
    input: &PlayersInput,
    pointer: &PointerDelta,
    blocked: bool,
    ground_hit: bool,
) -> Vec3 {
    let guard = c.needs_crouch_guard(input) && blocked;
    let crouch = c.resolve_crouch(input, guard);
    c.apply_look(pivot, pointer, &enabled());
    let request = c.move_character(input, crouch, &north(), TICK);
    apply_move(position, &request.translation);
    c.settle(pivot, position, crouch, ground_hit);
    request.translation
}

#[test]
fn yaw_wraps_below_zero() {
    let mut c = resting();
    c.rotation = Rotation { yaw: 100, pitch: 0 };
    let mut pivot = PlayerCameraPivot::default();
    c.apply_look(&mut pivot, &PointerDelta { x: 1, y: 0 }, &enabled());
    assert_eq!(c.rotation.yaw, FULL_TURN - 3_100);
}

#[test]
fn yaw_wraps_past_full_turn() {
    let mut c = resting();
    c.rotation = Rotation { yaw: 100, pitch: 0 };
    let mut pivot = PlayerCameraPivot::default();
    c.apply_look(&mut pivot, &PointerDelta { x: -2_000_000, y: 0 }, &enabled());
    assert_eq!(c.rotation.yaw, 116_814_793);
    assert_eq!(wrap_yaw(FULL_TURN), 0);
    assert_eq!(wrap_yaw(-FULL_TURN), 0);
    assert_eq!(wrap_yaw(-1), FULL_TURN - 1);
    assert_eq!(wrap_yaw(3 * FULL_TURN + 7), 7);
}

#[test]
fn yaw_stays_in_range_for_many_motions() {
    let mut c = resting();
    let mut pivot = PlayerCameraPivot::default();
    let motions: [i64; 6] = [1, -1, 1_000_000_000_000, -1_000_000_000_000, 987_654, -3_141_593];
    for dx in motions {
        c.apply_look(&mut pivot, &PointerDelta { x: dx, y: 0 }, &enabled());
        assert!(0 <= c.rotation.yaw && c.rotation.yaw < FULL_TURN);
    }
}

#[test]
fn pitch_clamps_and_tilts_pivot() {
    let mut c = resting();
    let mut pivot = PlayerCameraPivot::default();
    c.apply_look(&mut pivot, &PointerDelta { x: 0, y: -1_000_000 }, &enabled());
    assert_eq!(c.rotation.pitch, PITCH_LIMIT);
    assert_eq!(pivot.pitch, PITCH_LIMIT);
    c.apply_look(&mut pivot, &PointerDelta { x: 0, y: 2_000_000 }, &enabled());
    assert_eq!(c.rotation.pitch, -PITCH_LIMIT);
    assert_eq!(PITCH_LIMIT, 1_568_843_202);
    c.rotation.pitch = 0;
    c.apply_look(&mut pivot, &PointerDelta { x: 0, y: 10 }, &enabled());
    assert_eq!(c.rotation.pitch, -32_000);
    assert_eq!(pivot.translation, Vec3::new(0, CAMERA_WALK_HEIGHT, 0));
}

#[test]
fn pitch_is_monotonic_in_motion() {
    let mut last = i64::MAX;
    for dy in [-1_000_000i64, -1_000, -1, 0, 1, 1_000, 1_000_000] {
        let p = clamp_pitch(-dy * 3_200);
        assert!(p <= last);
        assert!(-PITCH_LIMIT <= p && p <= PITCH_LIMIT);
        last = p;
    }
}

#[test]
fn look_ignored_while_input_disabled() {
    let mut c = resting();
    c.rotation = Rotation { yaw: 5, pitch: 7 };
    let mut pivot = PlayerCameraPivot::default();
    c.apply_look(&mut pivot, &PointerDelta { x: 1_000, y: 1_000 }, &PlayerInputEnabled(false));
    assert_eq!(c.rotation, Rotation { yaw: 5, pitch: 7 });
}

#[test]
fn walking_forward_uses_walk_speed() {
    let input = PlayersInput { forward: true, ..PlayersInput::default() };
    let v = planar_velocity(&input, false, &north());
    assert_eq!(v, Vec3::new(0, 0, -WALK_SPEED));
}

#[test]
fn diagonal_run_is_normalised() {
    let input = PlayersInput { forward: true, right: true, run: true, ..PlayersInput::default() };
    let v = planar_velocity(&input, false, &north());
    // 4.72 m/s split evenly between the two axes
    assert_eq!(v, Vec3::new(3_337_545, 0, -3_337_545));
    let walk = PlayersInput { forward: true, right: true, ..PlayersInput::default() };
    assert_eq!(planar_velocity(&walk, false, &north()), Vec3::new(1_414_214, 0, -1_414_214));
}

#[test]
fn heading_turns_the_direction() {
    // facing a quarter turn around: forward runs along -x
    let east = Heading { cos: 0, sin: 1_000_000 };
    let input = PlayersInput { forward: true, ..PlayersInput::default() };
    assert_eq!(planar_velocity(&input, false, &east), Vec3::new(-WALK_SPEED, 0, 0));
}

#[test]
fn opposite_keys_cancel() {
    let input = PlayersInput { forward: true, backward: true, left: true, right: true, ..PlayersInput::default() };
    assert_eq!(planar_velocity(&input, false, &north()), Vec3::zero());
}

#[test]
fn speed_tiers() {
    assert_eq!(player_speed(true, true), 700_000);
    assert_eq!(player_speed(false, true), RUN_SPEED);
    assert_eq!(player_speed(false, false), WALK_SPEED);
}

#[test]
fn gravity_pulls_an_airborne_body() {
    let mut c = PlayerControllerData::default();
    let request = c.move_character(&PlayersInput::default(), false, &north(), TICK);
    assert_eq!(c.acceleration.y, -9_800_000);
    assert_eq!(c.velocity.y, -156_800);
    assert_eq!(request.translation, Vec3::new(0, -2_508, 0));
    assert!(!request.autostep);
    assert!(!request.tilted);
}

#[test]
fn vertical_speed_held_to_terminal_velocity() {
    let mut c = PlayerControllerData::default();
    c.velocity.y = -179_900_000;
    c.acceleration.y = -9_800_000;
    c.move_character(&PlayersInput::default(), false, &north(), TICK);
    assert_eq!(c.velocity.y, -180_000_000);
}

#[test]
fn falling_body_keeps_its_acceleration() {
    let mut c = PlayerControllerData::default();
    c.velocity.y = -1_000;
    c.acceleration.y = -5;
    c.move_character(&PlayersInput::default(), false, &north(), 1_000_000);
    assert_eq!(c.acceleration.y, -5);
    assert_eq!(c.velocity.y, -1_005);
}

#[test]
fn landing_clears_the_fall() {
    let mut c = resting();
    c.velocity.y = -50_000;
    c.acceleration.y = -9_800_000;
    let request = c.move_character(&PlayersInput::default(), false, &north(), TICK);
    assert_eq!(c.velocity.y, 0);
    assert_eq!(c.acceleration.y, 0);
    assert!(request.autostep);
}

#[test]
fn jump_from_rest_adds_jump_force() {
    let mut c = resting();
    let before = c.velocity.y;
    let mut pivot = PlayerCameraPivot::default();
    let mut position = Vec3::new(0, 6_000_000, 0);
    let input = PlayersInput { jump: true, ..PlayersInput::default() };
    let guard = c.needs_crouch_guard(&input);
    assert!(!guard);
    let crouch = c.resolve_crouch(&input, false);
    c.apply_look(&mut pivot, &PointerDelta::default(), &enabled());
    let request = c.move_character(&input, crouch, &north(), TICK);
    assert_eq!(c.velocity.y, before + 7_000_000);
    assert_eq!(request.translation, Vec3::new(0, 112_000, 0));
    apply_move(&mut position, &request.translation);
    c.settle(&mut pivot, &mut position, crouch, false);
    assert!(!c.grounded);
    assert_eq!(position, Vec3::new(0, 6_112_000, 0));
}

#[test]
fn rising_body_is_never_grounded() {
    for hit in [false, true] {
        let mut c = resting();
        c.velocity.y = 1;
        let mut pivot = PlayerCameraPivot::default();
        let mut position = Vec3::zero();
        c.settle(&mut pivot, &mut position, false, hit);
        assert!(!c.grounded);
    }
    let mut c = resting();
    c.velocity.y = 0;
    let mut pivot = PlayerCameraPivot::default();
    let mut position = Vec3::zero();
    c.settle(&mut pivot, &mut position, false, true);
    assert!(c.grounded);
    c.velocity.y = -3;
    c.settle(&mut pivot, &mut position, false, false);
    assert!(!c.grounded);
}

#[test]
fn resting_player_stays_put() {
    let mut c = resting();
    c.rotation = Rotation { yaw: 1_234, pitch: -55 };
    let start = c;
    let mut pivot = PlayerCameraPivot::default();
    let mut position = Vec3::new(3, 4, 5);
    for _ in 0..100 {
        let moved = run_tick(
            &mut c,
            &mut pivot,
            &mut position,
            &PlayersInput::idle(),
            &PointerDelta::default(),
            false,
            true,
        );
        assert_eq!(moved, Vec3::zero());
    }
    assert_eq!(c, start);
    assert_eq!(position, Vec3::new(3, 4, 5));
}

#[test]
fn crouch_held_under_obstruction() {
    let mut c = resting();
    let mut pivot = PlayerCameraPivot::default();
    let mut position = Vec3::new(0, 1_000_000, 0);
    let crouching = PlayersInput { crouch: true, ..PlayersInput::default() };
    run_tick(&mut c, &mut pivot, &mut position, &crouching, &PointerDelta::default(), true, true);
    assert!(c.crouched);
    assert_eq!(pivot.translation, Vec3::zero());
    for _ in 0..5 {
        run_tick(&mut c, &mut pivot, &mut position, &PlayersInput::idle(), &PointerDelta::default(), true, true);
        assert!(c.crouched);
        assert_eq!(position.y, 1_000_000);
    }
    // the obstruction is gone: the player stands and is lifted clear
    run_tick(&mut c, &mut pivot, &mut position, &PlayersInput::idle(), &PointerDelta::default(), false, true);
    assert!(!c.crouched);
    assert_eq!(position.y, 1_000_000 + PLAYER_HEIGHT - PLAYER_RADIUS);
    assert_eq!(pivot.translation, camera_offset(false));
}

#[test]
fn crouching_is_always_allowed() {
    let c = resting();
    let crouching = PlayersInput { crouch: true, ..PlayersInput::default() };
    assert!(c.resolve_crouch(&crouching, false));
    assert!(!c.resolve_crouch(&PlayersInput::default(), true));
}

#[test]
fn crouched_request_is_tilted_and_slow() {
    let mut c = resting();
    let input = PlayersInput { forward: true, run: true, ..PlayersInput::default() };
    let request = c.move_character(&input, true, &north(), 1_000_000);
    assert!(request.tilted);
    assert_eq!(request.translation, Vec3::new(0, 0, -700_000));
}

#[test]
fn five_probes_around_the_footprint() {
    let position = Vec3::new(10, 20, 30);
    let probes = crouch_probes(&position);
    assert_eq!(probes.len(), 5);
    let origins: Vec<Vec3> = probes.iter().map(|p| p.origin).collect();
    assert_eq!(
        origins,
        vec![
            Vec3::new(10, 20, 30),
            Vec3::new(10 + PLAYER_RADIUS, 20, 30),
            Vec3::new(10 - PLAYER_RADIUS, 20, 30),
            Vec3::new(10, 20, 30 + PLAYER_RADIUS),
            Vec3::new(10, 20, 30 - PLAYER_RADIUS),
        ]
    );
    for p in probes {
        assert_eq!(p.direction, Vec3::new(0, 1, 0));
        assert_eq!(p.max_distance, CROUCH_PROBE_REACH);
    }
    assert_eq!(CROUCH_PROBE_REACH, PLAYER_HEIGHT * 12 / 10);
}

#[test]
fn any_probe_hit_blocks() {
    assert!(!blocked_above(&vec![false; 5]));
    assert!(blocked_above(&vec![false, false, false, false, true]));
    assert!(blocked_above(&vec![true, false, false, false, false]));
    assert!(!blocked_above(&vec![]));
}

#[test]
fn ground_probe_below_the_body() {
    assert_eq!(ground_probe_center(&Vec3::new(1, 2_000_000, 3)), Vec3::new(1, 500_000, 3));
}

#[test]
fn fixed_point_helpers() {
    assert_eq!(scale_by_time(9_800_000, 16_000), 156_800);
    assert_eq!(scale_by_time(-1_500_001, 1), -1);
    assert_eq!(scale_by_time(-999_999, 1), 0);
    assert_eq!(div_toward_zero(-7, 2), -3);
    assert_eq!(div_toward_zero(7, 2), 3);
    assert_eq!(integer_sqrt(0), 0);
    assert_eq!(integer_sqrt(15), 3);
    assert_eq!(integer_sqrt(16), 4);
    assert_eq!(integer_sqrt(u64::MAX), 4_294_967_295);
}
