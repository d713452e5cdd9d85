use platformer_core::camera::setup_camera;
use platformer_core::entities::JumpTokenStatus;
use platformer_core::panning::{CameraPanning, CameraPanningState};
use platformer_core::player::{PlayerCheckpoint, PlayerStatus, Velocity2};
use platformer_core::timer::Timer;
use platformer_core::transition::{
    change_level, dim_camera, handle_level_select_click, inter_level_pause, load_level,
    tick_speedrun_timer, DimOverlay, FromLevelSelect, LastAccessibleLevel, SpeedrunTimer,
    TargetLevel, TransitionAction, DIM_OPAQUE, INTER_LEVEL_PAUSE_MS,
};
use platformer_core::units::Position;

struct World {
    overlay: DimOverlay,
    panning: CameraPanning,
    status: PlayerStatus,
    player: Position,
    velocity: Velocity2,
    rig: platformer_core::camera::CameraSet,
    tokens: Vec<JumpTokenStatus>,
    target_level: TargetLevel,
    last_accessible_level: LastAccessibleLevel,
    from_level_select: FromLevelSelect,
    checkpoint: PlayerCheckpoint,
}

fn world() -> World {
    World {
        overlay: DimOverlay::new(),
        panning: CameraPanning::new(),
        status: PlayerStatus::new(),
        player: Position { x: 500_000, y: 0 },
        velocity: Velocity2 { x: 0, y: 0 },
        rig: setup_camera(1_600_000),
        tokens: vec![JumpTokenStatus::new()],
        target_level: TargetLevel(0),
        last_accessible_level: LastAccessibleLevel(0),
        from_level_select: FromLevelSelect(false),
        checkpoint: PlayerCheckpoint { position: Position { x: 200_000, y: 0 } },
    }
}

fn step(w: &mut World, dt: u64) -> TransitionAction {
    dim_camera(
        &mut w.overlay,
        &mut w.panning,
        &mut w.status,
        &mut w.player,
        &mut w.velocity,
        &mut w.rig,
        &mut w.tokens,
        &mut w.target_level,
        &mut w.last_accessible_level,
        &mut w.from_level_select,
        w.checkpoint,
        0,
        dt,
    )
}

#[test]
fn death_respawns_player_and_camera_at_checkpoint() {
    // Player dies at x=500 units with the camera at x=500 units and the
    // checkpoint at x=200 units: once the overlay is fully opaque both are
    // teleported by the same delta and the dead flag clears.
    let mut w = world();
    w.rig.player_camera.x = 500_000;
    w.status.dead = true;
    w.velocity = Velocity2 { x: 7, y: 8 };
    w.tokens[0].active = false;

    let mut frames = 0;
    loop {
        let action = step(&mut w, 100);
        assert!(w.status.jump_cooldown.elapsed == 300);
        if action == TransitionAction::RespawnedAtCheckpoint {
            break;
        }
        assert_eq!(action, TransitionAction::NoTransition);
        assert_eq!(w.velocity, Velocity2 { x: 0, y: 0 });
        frames += 1;
        assert!(frames < 100);
    }
    assert_eq!(w.player, Position { x: 200_000, y: 0 });
    assert_eq!(w.rig.player_camera.x, 200_000);
    assert!(!w.status.dead);
    assert_eq!(w.overlay.alpha, DIM_OPAQUE);
    assert!(w.tokens[0].active);
    assert_eq!(w.tokens[0].timer.elapsed, 0);
    // The parallax layers moved by the scaled delta: -300 units * 350/1000.
    assert_eq!(w.rig.cameras[2].x, -105_000);
}

#[test]
fn finishing_advances_level_and_resets_panning() {
    let mut w = world();
    w.status.level_finished = true;
    w.panning.panning_state = CameraPanningState::WaitingAtPlayer;
    w.overlay.alpha = DIM_OPAQUE;
    let action = step(&mut w, 1);
    assert_eq!(action, TransitionAction::AdvanceToNextLevel);
    assert_eq!(w.target_level.0, 1);
    assert_eq!(w.last_accessible_level.0, 1);
    assert_eq!(w.panning.panning_state, CameraPanningState::PanningToGoal);
}

#[test]
fn finishing_from_level_select_returns_there() {
    let mut w = world();
    w.status.level_finished = true;
    w.from_level_select = FromLevelSelect(true);
    w.overlay.alpha = DIM_OPAQUE;
    let action = step(&mut w, 1);
    assert_eq!(action, TransitionAction::ReturnToLevelSelect);
    assert_eq!(w.target_level.0, 0);
    assert_eq!(w.last_accessible_level.0, 1);
    assert!(!w.from_level_select.0);
}

#[test]
fn exiting_returns_to_main_menu() {
    let mut w = world();
    w.status.exiting = true;
    w.overlay.alpha = DIM_OPAQUE - 2;
    let action = step(&mut w, 1);
    assert_eq!(action, TransitionAction::ExitToMainMenu);
}

#[test]
fn overlay_ramps_up_and_back_down() {
    let mut w = world();
    w.status.dead = true;
    let action = step(&mut w, 100);
    assert_eq!(action, TransitionAction::NoTransition);
    assert_eq!(w.overlay.alpha, 200);
    w.status.dead = false;
    let action = step(&mut w, 60);
    assert_eq!(action, TransitionAction::NoTransition);
    assert_eq!(w.overlay.alpha, 80);
    let action = step(&mut w, 60);
    assert_eq!(action, TransitionAction::NoTransition);
    assert_eq!(w.overlay.alpha, 0);
}

#[test]
fn progression_helpers() {
    let mut last = LastAccessibleLevel(2);
    load_level(&TargetLevel(5), &mut last);
    assert_eq!(last.0, 5);
    load_level(&TargetLevel(1), &mut last);
    assert_eq!(last.0, 5);

    let mut target = TargetLevel(3);
    assert!(!change_level(&mut target, false));
    assert_eq!(target.0, 3);
    assert!(change_level(&mut target, true));
    assert_eq!(target.0, 4);

    let mut target = TargetLevel(0);
    let mut fls = FromLevelSelect(false);
    assert!(!handle_level_select_click(&mut target, &mut fls, 4, &LastAccessibleLevel(3)));
    assert_eq!(target.0, 0);
    assert!(!fls.0);
    assert!(handle_level_select_click(&mut target, &mut fls, 3, &LastAccessibleLevel(3)));
    assert_eq!(target.0, 3);
    assert!(fls.0);
}

#[test]
fn pause_elapses_after_its_duration() {
    let mut timer = Timer::new(INTER_LEVEL_PAUSE_MS);
    assert!(!inter_level_pause(&mut timer, 350));
    assert!(!inter_level_pause(&mut timer, 350));
    assert!(inter_level_pause(&mut timer, 350));
}

#[test]
fn speedrun_clock_accumulates() {
    let mut clock = SpeedrunTimer(0);
    tick_speedrun_timer(&mut clock, 16);
    tick_speedrun_timer(&mut clock, 16);
    assert_eq!(clock.0, 32);
    let mut clock = SpeedrunTimer(u64::MAX - 5);
    tick_speedrun_timer(&mut clock, 100);
    assert_eq!(clock.0, u64::MAX);
}
