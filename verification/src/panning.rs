//! The camera panning director: once per level load the camera pans
//! cinematically from the goal back to the player before normal following
//! takes over. The director is a four-state machine that the camera rig and
//! the backwards barrier consult.

use vstd::prelude::*;

use crate::camera::{CameraSet, ParallaxCamera, PAN_DIVISOR};
use crate::timer::{tick_spec, Timer};
use crate::units::{approach, approach_step, coord_ok, pos_ok, sat_cam, saturate_cam,
    scale_by_coeff, scaled, Position};

verus! {

/// A pan phase ends once the camera is within one world unit of its target,
/// in milliunits.
pub const PAN_EPSILON: i64 = 1000;

/// How long the director dwells at the goal before panning back to the
/// player, in milliseconds.
pub const PAN_DWELL_MS: u64 = 300;

/// The director's phase. It cycles once per level load: panning to the
/// goal, a short wait there, panning back to the player, then waiting at
/// the player for the rest of the level; normal camera follow is fully
/// active only in that final state.
#[derive(Clone, Copy, PartialEq, Eq, Structural, Debug)]
pub enum CameraPanningState {
    PanningToGoal,
    PanningToPlayer,
    WaitingAtGoal,
    WaitingAtPlayer,
}

/// The panning director's state: its phase and the dwell timer.
#[derive(Clone, Copy, PartialEq, Eq, Structural, Debug)]
pub struct CameraPanning {
    pub panning_timer: Timer,
    pub panning_state: CameraPanningState,
}

impl CameraPanning {
    /// The director a level starts with: panning toward the goal, dwell
    /// timer not yet run.
    pub fn new() -> (p: CameraPanning)
        ensures
            p.panning_state == CameraPanningState::PanningToGoal,
            p.panning_timer == (Timer { elapsed: 0, duration: PAN_DWELL_MS }),
    {
        CameraPanning {
            panning_timer: Timer::new(PAN_DWELL_MS),
            panning_state: CameraPanningState::PanningToGoal,
        }
    }
}

/// A parallax camera after one horizontal pan step of the primary camera,
/// scaled by its coefficient.
pub open spec fn parallax_panned(cam: ParallaxCamera, step: int) -> ParallaxCamera {
    ParallaxCamera {
        x: sat_cam(cam.x + scaled(step, cam.coeff as int)) as i64,
        y: cam.y,
        coeff: cam.coeff,
    }
}

/// One horizontal decay step of the whole rig toward `target_x`: the
/// primary camera moves by a thirtieth of the remaining distance, the
/// parallax cameras in lockstep scaled by their coefficients.
#[verifier::loop_isolation(false)]
fn pan_rig_horizontal(rig: &mut CameraSet, target_x: i64)
    requires
        old(rig).wf(),
        coord_ok(target_x as int),
    ensures
        final(rig).wf(),
        final(rig).cameras.len() == old(rig).cameras.len(),
        final(rig).player_camera.y == old(rig).player_camera.y,
        final(rig).player_camera.x == approach(
            old(rig).player_camera.x as int,
            target_x as int,
            PAN_DIVISOR as int,
        ),
        forall|k: int|
            0 <= k < old(rig).cameras.len() ==> final(rig).cameras[k] == parallax_panned(
                #[trigger] old(rig).cameras[k],
                approach(old(rig).player_camera.x as int, target_x as int, PAN_DIVISOR as int)
                    - old(rig).player_camera.x,
            ),
{
    let x0 = rig.player_camera.x;
    let stepped = approach_step(x0, target_x, PAN_DIVISOR);
    let step = stepped - x0;
    rig.player_camera.x = stepped;

    let ghost rig0 = *old(rig);
    let mut k: usize = 0;
    while k < rig.cameras.len()
        invariant
            0 <= k <= rig.cameras.len(),
            rig.cameras.len() == rig0.cameras.len(),
            rig.player_camera == (Position { x: stepped, y: rig0.player_camera.y }),
            forall|m: int|
                0 <= m < k ==> rig.cameras[m] == parallax_panned(
                    #[trigger] rig0.cameras[m],
                    step as int,
                ),
            forall|m: int| 0 <= m < k ==> (#[trigger] rig.cameras[m]).wf(),
            forall|m: int|
                k <= m < rig.cameras.len() ==> #[trigger] rig.cameras[m] == rig0.cameras[m],
        decreases rig.cameras.len() - k,
    {
        let cam = rig.cameras[k];
        let new_x = saturate_cam(cam.x + scale_by_coeff(step, cam.coeff));
        rig.cameras[k] = ParallaxCamera { x: new_x, y: cam.y, coeff: cam.coeff };
        k = k + 1;
    }
}

/// One frame of the panning director. While panning, the rig decays
/// horizontally toward the goal or the player and the phase advances once
/// the remaining distance drops below one world unit; at the goal the
/// director dwells for a fixed time; once waiting at the player it stays
/// there for the rest of the level.
pub fn pan_camera(
    panning: &mut CameraPanning,
    rig: &mut CameraSet,
    goal: Position,
    player: Position,
    dt: u64,
)
    requires
        old(rig).wf(),
        pos_ok(goal),
        pos_ok(player),
    ensures
        final(rig).wf(),
        final(rig).cameras.len() == old(rig).cameras.len(),
        final(rig).player_camera.y == old(rig).player_camera.y,
        ({
            let pre = *old(panning);
            let post = *final(panning);
            match pre.panning_state {
                CameraPanningState::PanningToGoal => {
                    let delta = goal.x - old(rig).player_camera.x;
                    &&& final(rig).player_camera.x == approach(
                        old(rig).player_camera.x as int,
                        goal.x as int,
                        PAN_DIVISOR as int,
                    )
                    &&& forall|k: int|
                        0 <= k < old(rig).cameras.len() ==> final(rig).cameras[k]
                            == parallax_panned(
                            #[trigger] old(rig).cameras[k],
                            approach(
                                old(rig).player_camera.x as int,
                                goal.x as int,
                                PAN_DIVISOR as int,
                            ) - old(rig).player_camera.x,
                        )
                    &&& post.panning_state == if -PAN_EPSILON < delta < PAN_EPSILON {
                        CameraPanningState::WaitingAtGoal
                    } else {
                        CameraPanningState::PanningToGoal
                    }
                    &&& post.panning_timer == pre.panning_timer
                },
                CameraPanningState::PanningToPlayer => {
                    let delta = player.x - old(rig).player_camera.x;
                    &&& final(rig).player_camera.x == approach(
                        old(rig).player_camera.x as int,
                        player.x as int,
                        PAN_DIVISOR as int,
                    )
                    &&& forall|k: int|
                        0 <= k < old(rig).cameras.len() ==> final(rig).cameras[k]
                            == parallax_panned(
                            #[trigger] old(rig).cameras[k],
                            approach(
                                old(rig).player_camera.x as int,
                                player.x as int,
                                PAN_DIVISOR as int,
                            ) - old(rig).player_camera.x,
                        )
                    &&& post.panning_state == if -PAN_EPSILON < delta < PAN_EPSILON {
                        CameraPanningState::WaitingAtPlayer
                    } else {
                        CameraPanningState::PanningToPlayer
                    }
                    &&& post.panning_timer == pre.panning_timer
                },
                CameraPanningState::WaitingAtGoal => {
                    &&& final(rig).player_camera == old(rig).player_camera
                    &&& final(rig).cameras@ == old(rig).cameras@
                    &&& if pre.panning_timer.is_finished() {
                        &&& post.panning_state == CameraPanningState::PanningToPlayer
                        &&& post.panning_timer == tick_spec(
                            Timer { elapsed: 0, duration: pre.panning_timer.duration },
                            dt,
                        )
                    } else {
                        &&& post.panning_state == CameraPanningState::WaitingAtGoal
                        &&& post.panning_timer == tick_spec(pre.panning_timer, dt)
                    }
                },
                CameraPanningState::WaitingAtPlayer => {
                    &&& final(rig).player_camera == old(rig).player_camera
                    &&& final(rig).cameras@ == old(rig).cameras@
                    &&& post == pre
                },
            }
        }),
{
    match panning.panning_state {
        CameraPanningState::PanningToGoal => {
            let delta = goal.x - rig.player_camera.x;
            pan_rig_horizontal(rig, goal.x);
            if -PAN_EPSILON < delta && delta < PAN_EPSILON {
                panning.panning_state = CameraPanningState::WaitingAtGoal;
            }
        },
        CameraPanningState::PanningToPlayer => {
            let delta = player.x - rig.player_camera.x;
            pan_rig_horizontal(rig, player.x);
            if -PAN_EPSILON < delta && delta < PAN_EPSILON {
                panning.panning_state = CameraPanningState::WaitingAtPlayer;
            }
        },
        CameraPanningState::WaitingAtGoal => {
            if panning.panning_timer.finished() {
                panning.panning_timer.reset();
                panning.panning_state = CameraPanningState::PanningToPlayer;
            }
            panning.panning_timer.tick(dt);
        },
        CameraPanningState::WaitingAtPlayer => {},
    }
}

} // verus!
