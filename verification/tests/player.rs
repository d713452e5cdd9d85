use platformer_core::player::{
    damp_horizontal, finish_level, ground_spring_force, kill_player, loop_player, move_player,
    set_player_checkpoint, update_player_grounded, Facing, JumpKind, PlayerCheckpoint,
    PlayerInput, PlayerInventory, PlayerState, PlayerStatus, Velocity2, JUMP_SPEED,
    SLIDE_MAX_FALL,
};
use platformer_core::timer::Timer;
use platformer_core::units::Position;

fn no_input() -> PlayerInput {
    PlayerInput { left: false, right: false, jump_just_pressed: false }
}

fn jump_input() -> PlayerInput {
    PlayerInput { left: false, right: false, jump_just_pressed: true }
}

#[test]
fn ground_contact_refills_charges_and_clears_tokens() {
    let mut inv = PlayerInventory::new();
    inv.acquire_double_jump();
    inv.acquire_double_jump();
    inv.add_air_jump();
    let mut state = PlayerState::Falling;
    update_player_grounded(&mut inv, &mut state, -10_000, false, false, true);
    assert_eq!(inv.extra_jumps, 2);
    assert_eq!(inv.air_jumps, 0);
    assert_eq!(state, PlayerState::FallingToIdle);
}

#[test]
fn wall_contact_clears_tokens_but_keeps_charges() {
    let mut inv = PlayerInventory::new();
    inv.acquire_double_jump();
    inv.add_air_jump();
    let mut state = PlayerState::Jumping;
    update_player_grounded(&mut inv, &mut state, 5_000, true, false, false);
    assert_eq!(inv.extra_jumps, 0);
    assert_eq!(inv.air_jumps, 0);
    assert!(inv.on_wall_left);
    assert_eq!(state, PlayerState::Jumping);
}

#[test]
fn wall_contact_with_wall_jump_slides() {
    let mut inv = PlayerInventory::new();
    inv.acquire_wall_jump();
    let mut state = PlayerState::Falling;
    update_player_grounded(&mut inv, &mut state, -5_000, false, true, false);
    assert_eq!(state, PlayerState::Sliding);
}

#[test]
fn airborne_descent_starts_falling() {
    let mut inv = PlayerInventory::new();
    let mut state = PlayerState::Jumping;
    update_player_grounded(&mut inv, &mut state, -1, false, false, false);
    assert_eq!(state, PlayerState::Falling);
}

#[test]
fn ground_jump_keeps_double_jump_charge() {
    // A grounded player with one charge jumps: the charge is untouched.
    let mut vel = Velocity2 { x: 0, y: 0 };
    let mut facing = Facing::Right;
    let mut inv = PlayerInventory {
        max_extra_jumps: 1,
        extra_jumps: 1,
        ..PlayerInventory::new()
    };
    let mut status = PlayerStatus::new();
    let mut state = PlayerState::Idle;
    let r = move_player(
        &mut vel,
        &mut facing,
        &mut inv,
        &mut status,
        &mut state,
        None,
        jump_input(),
        16,
    );
    assert_eq!(r.jump, JumpKind::GroundJump);
    assert_eq!(state, PlayerState::Jumping);
    assert_eq!(vel.y, JUMP_SPEED);
    assert_eq!(inv.extra_jumps, 1);

    // A second press mid-air consumes the charge once the cooldown has
    // elapsed.
    let _ = move_player(
        &mut vel,
        &mut facing,
        &mut inv,
        &mut status,
        &mut state,
        None,
        no_input(),
        300,
    );
    let r2 = move_player(
        &mut vel,
        &mut facing,
        &mut inv,
        &mut status,
        &mut state,
        None,
        jump_input(),
        16,
    );
    assert_eq!(r2.jump, JumpKind::DoubleJump);
    assert_eq!(inv.extra_jumps, 0);
    assert_eq!(state, PlayerState::Jumping);
}

#[test]
fn jump_cooldown_blocks_early_second_jump() {
    let mut vel = Velocity2 { x: 0, y: 0 };
    let mut facing = Facing::Right;
    let mut inv = PlayerInventory {
        max_extra_jumps: 1,
        extra_jumps: 1,
        ..PlayerInventory::new()
    };
    let mut status = PlayerStatus::new();
    let mut state = PlayerState::Idle;
    let r = move_player(
        &mut vel,
        &mut facing,
        &mut inv,
        &mut status,
        &mut state,
        None,
        jump_input(),
        16,
    );
    assert_eq!(r.jump, JumpKind::GroundJump);
    // 100 ms later the 300 ms cooldown has not elapsed: no jump fires.
    let r2 = move_player(
        &mut vel,
        &mut facing,
        &mut inv,
        &mut status,
        &mut state,
        None,
        jump_input(),
        100,
    );
    assert_eq!(r2.jump, JumpKind::NoJump);
    assert_eq!(inv.extra_jumps, 1);
}

#[test]
fn wall_jump_restarts_charges_and_side_cooldown() {
    let mut vel = Velocity2 { x: 0, y: -10_000 };
    let mut facing = Facing::Right;
    let mut inv = PlayerInventory {
        max_extra_jumps: 2,
        extra_jumps: 0,
        has_wall_jump: true,
        on_wall_left: true,
        wall_jump_cd_left: Timer { elapsed: 800, duration: 800 },
        ..PlayerInventory::new()
    };
    let mut status = PlayerStatus::new();
    let mut state = PlayerState::Jumping;
    let r = move_player(
        &mut vel,
        &mut facing,
        &mut inv,
        &mut status,
        &mut state,
        None,
        jump_input(),
        16,
    );
    assert_eq!(r.jump, JumpKind::WallJumpLeft);
    assert_eq!(state, PlayerState::SlidingToJump);
    assert_eq!(inv.extra_jumps, 2);
    assert_eq!(inv.wall_jump_cd_left.elapsed, 0);
    assert_eq!(vel.y, JUMP_SPEED);
}

#[test]
fn token_jump_is_last_resort() {
    let mut vel = Velocity2 { x: 0, y: 0 };
    let mut facing = Facing::Right;
    let mut inv = PlayerInventory { air_jumps: 1, ..PlayerInventory::new() };
    let mut status = PlayerStatus::new();
    let mut state = PlayerState::Falling;
    let r = move_player(
        &mut vel,
        &mut facing,
        &mut inv,
        &mut status,
        &mut state,
        None,
        jump_input(),
        16,
    );
    assert_eq!(r.jump, JumpKind::TokenJump);
    assert_eq!(inv.air_jumps, 0);
    assert_eq!(state, PlayerState::Jumping);
}

#[test]
fn wall_slide_clamps_descent() {
    let mut vel = Velocity2 { x: 0, y: -90_000 };
    let mut facing = Facing::Right;
    let mut inv = PlayerInventory {
        has_wall_jump: true,
        on_wall_right: true,
        ..PlayerInventory::new()
    };
    let mut status = PlayerStatus::new();
    let mut state = PlayerState::Sliding;
    let _ = move_player(
        &mut vel,
        &mut facing,
        &mut inv,
        &mut status,
        &mut state,
        None,
        no_input(),
        16,
    );
    assert_eq!(vel.y, -SLIDE_MAX_FALL);
}

#[test]
fn horizontal_impulse_and_damping() {
    let mut vel = Velocity2 { x: 0, y: 0 };
    let mut facing = Facing::Left;
    let mut inv = PlayerInventory::new();
    let mut status = PlayerStatus::new();
    let mut state = PlayerState::Idle;
    let input = PlayerInput { left: false, right: true, jump_just_pressed: false };
    let _ = move_player(
        &mut vel,
        &mut facing,
        &mut inv,
        &mut status,
        &mut state,
        None,
        input,
        16,
    );
    // One impulse of 55000, damped by 5/8.
    assert_eq!(vel.x, 34_375);
    assert_eq!(state, PlayerState::MovingRight);
    assert_eq!(facing, Facing::Right);
}

#[test]
fn releasing_keys_begins_moving_to_idle() {
    let mut vel = Velocity2 { x: 10_000, y: 0 };
    let mut facing = Facing::Right;
    let mut inv = PlayerInventory::new();
    let mut status = PlayerStatus::new();
    let mut state = PlayerState::MovingRight;
    let _ = move_player(
        &mut vel,
        &mut facing,
        &mut inv,
        &mut status,
        &mut state,
        None,
        no_input(),
        16,
    );
    assert_eq!(state, PlayerState::MovingToIdle);
    // 10000 * 5 / 8 = 6250.
    assert_eq!(vel.x, 6_250);
}

#[test]
fn damping_snaps_small_speeds_to_zero() {
    assert_eq!(damp_horizontal(159), 0);
    assert_eq!(damp_horizontal(160), 100);
    assert_eq!(damp_horizontal(-159), 0);
    assert_eq!(damp_horizontal(-160), -100);
}

#[test]
fn dead_player_does_not_move() {
    let mut vel = Velocity2 { x: 40_000, y: 0 };
    let mut facing = Facing::Right;
    let mut inv = PlayerInventory { max_extra_jumps: 1, extra_jumps: 1, ..PlayerInventory::new() };
    let mut status = PlayerStatus::new();
    status.dead = true;
    let mut state = PlayerState::MovingRight;
    let r = move_player(
        &mut vel,
        &mut facing,
        &mut inv,
        &mut status,
        &mut state,
        None,
        jump_input(),
        16,
    );
    assert_eq!(r.jump, JumpKind::NoJump);
    assert_eq!(vel.x, 40_000);
    assert_eq!(state, PlayerState::MovingRight);
    assert_eq!(inv.extra_jumps, 1);
}

#[test]
fn spring_force_pushes_toward_measured_ground() {
    // Ray hit 8 units down, descending at 2 units/s while idle:
    // 15 * (10000 - 8000) - 3 * (-2000) = 36000.
    let f = ground_spring_force(Some(8_000), PlayerState::Idle, -2_000);
    assert_eq!(f, 36_000);
    // Airborne states get no spring force.
    assert_eq!(ground_spring_force(Some(8_000), PlayerState::Jumping, -2_000), 0);
    assert_eq!(ground_spring_force(Some(8_000), PlayerState::Falling, -2_000), 0);
    assert_eq!(ground_spring_force(Some(8_000), PlayerState::Sliding, -2_000), 0);
    assert_eq!(ground_spring_force(None, PlayerState::Idle, -2_000), 0);
}

#[test]
fn spring_force_suppressed_during_cooldown_and_jump() {
    let mut vel = Velocity2 { x: 0, y: 0 };
    let mut facing = Facing::Right;
    let mut inv = PlayerInventory::new();
    let mut status = PlayerStatus::new();
    let mut state = PlayerState::Idle;
    let r = move_player(
        &mut vel,
        &mut facing,
        &mut inv,
        &mut status,
        &mut state,
        Some(9_000),
        jump_input(),
        16,
    );
    assert_eq!(r.jump, JumpKind::GroundJump);
    assert_eq!(r.spring_force, 0);
}

#[test]
fn player_wraps_across_level_and_drags_camera() {
    let width: i64 = 1_600_000;
    let mut player_x: i64 = -20;
    let mut camera_x: i64 = 100_000;
    loop_player(&mut player_x, &mut camera_x, width);
    assert_eq!(player_x, 1_599_980);
    assert_eq!(camera_x, 1_700_000);

    let mut player_x: i64 = 1_600_020;
    let mut camera_x: i64 = 100_000;
    loop_player(&mut player_x, &mut camera_x, width);
    assert_eq!(player_x, 20);
    assert_eq!(camera_x, -1_500_000);

    let mut player_x: i64 = 800_000;
    let mut camera_x: i64 = 100_000;
    loop_player(&mut player_x, &mut camera_x, width);
    assert_eq!(player_x, 800_000);
    assert_eq!(camera_x, 100_000);
}

#[test]
fn checkpoint_moves_only_on_event() {
    let mut cp = PlayerCheckpoint { position: Position { x: 1, y: 2 } };
    set_player_checkpoint(&mut cp, Position { x: 30, y: 40 }, false);
    assert_eq!(cp.position, Position { x: 1, y: 2 });
    set_player_checkpoint(&mut cp, Position { x: 30, y: 40 }, true);
    assert_eq!(cp.position, Position { x: 30, y: 40 });
}

#[test]
fn hazard_contact_kills_and_goal_contact_finishes() {
    let mut status = PlayerStatus::new();
    kill_player(&mut status, false, false);
    assert!(!status.dead);
    kill_player(&mut status, true, false);
    assert!(status.dead);
    finish_level(&mut status, false);
    assert!(!status.level_finished);
    finish_level(&mut status, true);
    assert!(status.level_finished);
}

#[test]
fn keys_are_counted() {
    let mut inv = PlayerInventory::new();
    assert!(!inv.has_key());
    inv.add_key();
    inv.add_key();
    assert!(inv.has_key());
    inv.use_key();
    assert!(inv.has_key());
    inv.use_key();
    assert!(!inv.has_key());
}
