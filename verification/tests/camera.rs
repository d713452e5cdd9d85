use platformer_core::camera::{
    attach_player_camera_to_player, autoscroll_camera, loop_main_cameras, setup_camera,
    BACKGROUND_COEFF, FOREGROUND_COEFF, MIDGROUND_COEFF,
};
use platformer_core::panning::{CameraPanning, CameraPanningState};
use platformer_core::timer::Timer;
use platformer_core::units::Position;

fn settled_panning() -> CameraPanning {
    CameraPanning {
        panning_state: CameraPanningState::WaitingAtPlayer,
        panning_timer: Timer { elapsed: 0, duration: 300 },
    }
}

#[test]
fn rig_starts_with_layer_pairs_and_hud() {
    let rig = setup_camera(1_600_000);
    assert_eq!(rig.player_camera, Position { x: 0, y: 0 });
    assert_eq!(rig.cameras.len(), 7);
    let coeffs: Vec<u32> = rig.cameras.iter().map(|c| c.coeff).collect();
    assert_eq!(
        coeffs,
        vec![
            FOREGROUND_COEFF,
            FOREGROUND_COEFF,
            MIDGROUND_COEFF,
            MIDGROUND_COEFF,
            BACKGROUND_COEFF,
            BACKGROUND_COEFF,
            FOREGROUND_COEFF,
        ]
    );
    assert_eq!(rig.cameras[1].x, 1_600_000);
    assert_eq!(rig.cameras[2].x, 0);
    assert_eq!(rig.cameras[3].x, 1_600_000);
}

#[test]
fn follow_approaches_player_by_a_third() {
    let mut rig = setup_camera(1_600_000);
    let panning = settled_panning();
    let player = Position { x: 0, y: 90_000 };
    let goal = Position { x: 0, y: 0 };
    attach_player_camera_to_player(&mut rig, &panning, player, false, goal, 0);
    // (90000 - 0) / 3 = 30000.
    assert_eq!(rig.player_camera.y, 30_000);
    // Midground moved by 30000 * 350 / 1000.
    assert_eq!(rig.cameras[2].y, 10_500);
}

#[test]
fn follow_clamps_every_layer_to_its_scaled_floor() {
    let mut rig = setup_camera(1_600_000);
    let panning = settled_panning();
    // Player far below the floor clamp: camera would go negative.
    let player = Position { x: 0, y: -600_000 };
    let goal = Position { x: 0, y: 0 };
    let half_height = 72_000;
    attach_player_camera_to_player(&mut rig, &panning, player, false, goal, half_height);
    assert_eq!(rig.player_camera.y, half_height);
    for cam in rig.cameras.iter() {
        assert_eq!(cam.y, half_height * (cam.coeff as i64) / 1000);
    }
}

#[test]
fn follow_skips_while_waiting_at_goal_or_dead() {
    let mut rig = setup_camera(1_600_000);
    let mut panning = settled_panning();
    panning.panning_state = CameraPanningState::WaitingAtGoal;
    let player = Position { x: 0, y: 90_000 };
    let goal = Position { x: 0, y: 0 };
    attach_player_camera_to_player(&mut rig, &panning, player, false, goal, 0);
    assert_eq!(rig.player_camera.y, 0);

    let panning = settled_panning();
    attach_player_camera_to_player(&mut rig, &panning, player, true, goal, 0);
    assert_eq!(rig.player_camera.y, 0);
}

#[test]
fn autoscroll_no_scroll_when_player_behind_camera() {
    // Player at x=0 of a 1600-unit level, camera at 1580 units: under the
    // modulo comparison the player is behind, so no scroll this frame.
    let mut rig = setup_camera(1_600_000);
    rig.player_camera.x = 1_580_000;
    autoscroll_camera(&mut rig, 0, 1_600_000);
    assert_eq!(rig.player_camera.x, 1_580_000);
    assert_eq!(rig.cameras[0].x, 0);
}

#[test]
fn autoscroll_advances_camera_to_wrapped_player() {
    let mut rig = setup_camera(1_600_000);
    rig.player_camera.x = 100_000;
    autoscroll_camera(&mut rig, 130_000, 1_600_000);
    assert_eq!(rig.player_camera.x, 130_000);
    // Foreground advanced by the full delta, midground by 350/1000 of it.
    assert_eq!(rig.cameras[0].x, 30_000);
    assert_eq!(rig.cameras[2].x, 10_500);
}

#[test]
fn camera_wrap_converges_in_one_step() {
    let w: i64 = 1_600_000;
    let mut rig = setup_camera(w);
    rig.cameras[0].x = 3 * w / 2 + 10;
    rig.cameras[2].x = -w / 2 - 10;
    rig.cameras[4].x = w;
    loop_main_cameras(&mut rig, w);
    assert_eq!(rig.cameras[0].x, 3 * w / 2 + 10 - 2 * w);
    assert_eq!(rig.cameras[2].x, -w / 2 - 10 + 2 * w);
    assert_eq!(rig.cameras[4].x, w);
    // A second pass moves nothing: every camera is back in range.
    let before: Vec<i64> = rig.cameras.iter().map(|c| c.x).collect();
    loop_main_cameras(&mut rig, w);
    let after: Vec<i64> = rig.cameras.iter().map(|c| c.x).collect();
    assert_eq!(before, after);
    // The canonical camera never wraps.
    let mut rig = setup_camera(w);
    rig.player_camera.x = 2 * w;
    loop_main_cameras(&mut rig, w);
    assert_eq!(rig.player_camera.x, 2 * w);
}
