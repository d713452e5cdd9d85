//! The level-transition coordinator: a full-screen overlay dims to black
//! while the player is dead, has finished the level, or is exiting, and once
//! fully opaque the pending transition happens — advance to the next level,
//! return to the level select or main menu, or respawn the player at the
//! checkpoint with every camera teleported by the same delta. Also the small
//! progression state the menus read: the target and last accessible level,
//! the death count and the speedrun clock.

use vstd::prelude::*;

use crate::camera::{CameraSet, ParallaxCamera};
use crate::entities::JumpTokenStatus;
use crate::panning::{CameraPanning, CameraPanningState};
use crate::player::{PlayerCheckpoint, PlayerStatus, Velocity2};
use crate::timer::{tick_spec, Timer, TIME_LIMIT};
use crate::units::{pos_ok, sat_cam, saturate_cam, scale_by_coeff, scaled, Position, COORD_LIMIT};

verus! {

/// Overlay opacity, in thousandths, at which the pending transition fires;
/// holding past full opacity keeps the screen black for a moment.
pub const DIM_OPAQUE: i64 = 1500;

/// Opacity change per millisecond, in thousandths: the overlay ramps at
/// twice full opacity per second.
pub const DIM_RATE_PER_MS: i64 = 2;

/// Milliseconds of black held between unloading one level and loading the
/// next.
pub const INTER_LEVEL_PAUSE_MS: u64 = 700;

/// The dim-to-black overlay's opacity, in thousandths, between zero and
/// `DIM_OPAQUE`.
#[derive(Clone, Copy, PartialEq, Eq, Structural, Debug)]
pub struct DimOverlay {
    pub alpha: i64,
}

impl DimOverlay {
    pub open spec fn wf(self) -> bool {
        0 <= self.alpha <= DIM_OPAQUE
    }

    /// A clear overlay.
    pub fn new() -> (d: DimOverlay)
        ensures
            d.alpha == 0,
            d.wf(),
    {
        DimOverlay { alpha: 0 }
    }
}

/// Which level the player is in or headed to.
#[derive(Clone, Copy, PartialEq, Eq, Structural, Debug)]
pub struct TargetLevel(pub usize);

/// The furthest level the player may select.
#[derive(Clone, Copy, PartialEq, Eq, Structural, Debug)]
pub struct LastAccessibleLevel(pub usize);

/// Whether the current level was entered from the level-select screen, in
/// which case finishing it returns there instead of advancing.
#[derive(Clone, Copy, PartialEq, Eq, Structural, Debug)]
pub struct FromLevelSelect(pub bool);

/// The top-level screen/loading state the engine's scheduler runs systems
/// under.
#[derive(Clone, Copy, PartialEq, Eq, Structural, Debug)]
pub enum LevelLoadingState {
    MainMenu,
    LevelSelect,
    Loading,
    Loaded,
    EndScreen,
}

/// How many times the player has died this session.
#[derive(Clone, Copy, PartialEq, Eq, Structural, Debug)]
pub struct DeathCount(pub usize);

/// Total session play time in milliseconds.
#[derive(Clone, Copy, PartialEq, Eq, Structural, Debug)]
pub struct SpeedrunTimer(pub u64);

/// Advances the session clock by one frame, saturating at the largest
/// representable time.
pub fn tick_speedrun_timer(timer: &mut SpeedrunTimer, dt: u64)
    ensures
        final(timer).0 == if old(timer).0 + dt > u64::MAX {
            u64::MAX as int
        } else {
            old(timer).0 + dt
        },
{
    if dt > u64::MAX - timer.0 {
        timer.0 = u64::MAX;
    } else {
        timer.0 = timer.0 + dt;
    }
}

/// On entering the loading state, extends the furthest accessible level to
/// the level being loaded.
pub fn load_level(target_level: &TargetLevel, last_accessible_level: &mut LastAccessibleLevel)
    ensures
        final(last_accessible_level).0 == if old(last_accessible_level).0 < target_level.0 {
            target_level.0
        } else {
            old(last_accessible_level).0
        },
{
    if last_accessible_level.0 < target_level.0 {
        last_accessible_level.0 = target_level.0;
    }
}

/// One frame of the inter-level pause: reports whether the pause had
/// elapsed entering this frame (the level may then finish loading), and
/// ticks the pause timer.
pub fn inter_level_pause(timer: &mut Timer, dt: u64) -> (elapsed: bool)
    ensures
        elapsed == old(timer).is_finished(),
        *final(timer) == tick_spec(*old(timer), dt),
{
    let elapsed = timer.finished();
    timer.tick(dt);
    elapsed
}

/// The debug level-skip: advances the target level when the skip key is
/// pressed; the caller then requests the loading state.
pub fn change_level(target_level: &mut TargetLevel, advance_pressed: bool) -> (changed: bool)
    requires
        old(target_level).0 < usize::MAX,
    ensures
        changed == advance_pressed,
        final(target_level).0 == if advance_pressed {
            old(target_level).0 + 1
        } else {
            old(target_level).0 as int
        },
{
    if advance_pressed {
        target_level.0 = target_level.0 + 1;
        true
    } else {
        false
    }
}

/// A click on a level-select button: levels beyond the furthest accessible
/// one are refused; an accepted choice becomes the target level and marks
/// the level as entered from the level select.
pub fn handle_level_select_click(
    target_level: &mut TargetLevel,
    from_level_select: &mut FromLevelSelect,
    chosen: usize,
    last_accessible_level: &LastAccessibleLevel,
) -> (accepted: bool)
    ensures
        accepted == (chosen <= last_accessible_level.0),
        *final(target_level) == if accepted {
            TargetLevel(chosen)
        } else {
            *old(target_level)
        },
        *final(from_level_select) == if accepted {
            FromLevelSelect(true)
        } else {
            *old(from_level_select)
        },
{
    if chosen > last_accessible_level.0 {
        return false;
    }
    target_level.0 = chosen;
    from_level_select.0 = true;
    true
}

/// What the coordinator asks the surrounding game loop to do after a frame.
#[derive(Clone, Copy, PartialEq, Eq, Structural, Debug)]
pub enum TransitionAction {
    NoTransition,
    AdvanceToNextLevel,
    ReturnToLevelSelect,
    ExitToMainMenu,
    RespawnedAtCheckpoint,
}

/// A parallax camera after the respawn teleport: moved by the
/// player-to-checkpoint delta scaled by its coefficient, pulled back by the
/// scaled camera offset when the player had fallen behind the camera, and
/// clamped so it does not look below the level floor.
pub open spec fn parallax_respawned(
    cam: ParallaxCamera,
    dx: int,
    dy: int,
    off: int,
    half_height: int,
) -> ParallaxCamera {
    let c = cam.coeff as int;
    let x = sat_cam(cam.x + scaled(dx, c) + if off < 0 {
        scaled(off, c)
    } else {
        0
    });
    let y0 = sat_cam(cam.y + scaled(dy, c));
    let y_min = scaled(half_height, c);
    let y = if y0 < y_min {
        y_min
    } else {
        y0
    };
    ParallaxCamera { x: x as i64, y: y as i64, coeff: cam.coeff }
}

/// One frame of the level-transition coordinator. While the player is dead,
/// has finished the level or is exiting, the overlay ramps toward full
/// opacity (zeroing a dead player's velocity); at full opacity the pending
/// transition fires: finishing advances the progression and either returns
/// to the level select or loads the next level with the panning director
/// reset; exiting returns to the main menu; a death teleports the player
/// and every camera by the delta to the checkpoint and clears the dead
/// flag, reactivating every jump token. Otherwise the overlay ramps back
/// down.
#[verifier::loop_isolation(false)]
pub fn dim_camera(
    overlay: &mut DimOverlay,
    panning: &mut CameraPanning,
    status: &mut PlayerStatus,
    player: &mut Position,
    velocity: &mut Velocity2,
    rig: &mut CameraSet,
    tokens: &mut Vec<JumpTokenStatus>,
    target_level: &mut TargetLevel,
    last_accessible_level: &mut LastAccessibleLevel,
    from_level_select: &mut FromLevelSelect,
    checkpoint: PlayerCheckpoint,
    half_height: i64,
    dt: u64,
) -> (action: TransitionAction)
    requires
        old(overlay).wf(),
        old(rig).wf(),
        pos_ok(*old(player)),
        pos_ok(checkpoint.position),
        0 <= half_height <= COORD_LIMIT,
        dt <= TIME_LIMIT,
        old(target_level).0 < usize::MAX,
    ensures
        final(overlay).wf(),
        final(rig).wf(),
        final(status).jump_cooldown == old(status).jump_cooldown,
        final(status).level_finished == old(status).level_finished,
        final(status).exiting == old(status).exiting,
        ({
            let dimming = old(status).level_finished || old(status).dead || old(status).exiting;
            let ramped = old(overlay).alpha + DIM_RATE_PER_MS * dt;
            let fired = dimming && ramped >= DIM_OPAQUE;
            let vel_after_dead = if old(status).dead {
                Velocity2 { x: 0, y: 0 }
            } else {
                *old(velocity)
            };
            &&& action == if !fired {
                TransitionAction::NoTransition
            } else if old(status).level_finished && old(from_level_select).0 {
                TransitionAction::ReturnToLevelSelect
            } else if old(status).level_finished {
                TransitionAction::AdvanceToNextLevel
            } else if old(status).exiting {
                TransitionAction::ExitToMainMenu
            } else {
                TransitionAction::RespawnedAtCheckpoint
            }
            &&& final(overlay).alpha == if !dimming {
                let lowered = old(overlay).alpha - DIM_RATE_PER_MS * dt;
                if lowered < 0 {
                    0
                } else {
                    lowered
                }
            } else if ramped >= DIM_OPAQUE {
                DIM_OPAQUE as int
            } else {
                ramped
            }
            &&& *final(velocity) == if dimming {
                vel_after_dead
            } else {
                *old(velocity)
            }
            &&& final(status).dead == (old(status).dead && action
                != TransitionAction::RespawnedAtCheckpoint)
            &&& final(last_accessible_level).0 == if fired && old(status).level_finished && old(
                last_accessible_level,
            ).0 < old(target_level).0 + 1 {
                old(target_level).0 + 1
            } else {
                old(last_accessible_level).0 as int
            }
            &&& *final(from_level_select) == if action == TransitionAction::ReturnToLevelSelect {
                FromLevelSelect(false)
            } else {
                *old(from_level_select)
            }
            &&& final(target_level).0 == if action == TransitionAction::AdvanceToNextLevel {
                old(target_level).0 + 1
            } else {
                old(target_level).0 as int
            }
            &&& *final(panning) == if action == TransitionAction::AdvanceToNextLevel {
                CameraPanning {
                    panning_state: CameraPanningState::PanningToGoal,
                    ..*old(panning)
                }
            } else {
                *old(panning)
            }
            &&& if action == TransitionAction::RespawnedAtCheckpoint {
                let dx = checkpoint.position.x - old(player).x;
                let dy = checkpoint.position.y - old(player).y;
                let off = old(player).x - old(rig).player_camera.x;
                let cam_x0 = if off < 0 {
                    old(player).x as int
                } else {
                    old(rig).player_camera.x as int
                };
                &&& *final(player) == checkpoint.position
                &&& final(rig).player_camera.x == sat_cam(cam_x0 + dx)
                &&& final(rig).player_camera.y == sat_cam(old(rig).player_camera.y + dy)
                &&& final(rig).cameras.len() == old(rig).cameras.len()
                &&& forall|k: int|
                    0 <= k < old(rig).cameras.len() ==> final(rig).cameras[k]
                        == parallax_respawned(
                        #[trigger] old(rig).cameras[k],
                        dx,
                        dy,
                        off,
                        half_height as int,
                    )
                &&& final(tokens).len() == old(tokens).len()
                &&& forall|k: int|
                    0 <= k < old(tokens).len() ==> final(tokens)[k] == (JumpTokenStatus {
                        active: true,
                        timer: Timer {
                            elapsed: 0,
                            duration: (#[trigger] old(tokens)[k]).timer.duration,
                        },
                    })
            } else {
                &&& *final(player) == *old(player)
                &&& final(rig).player_camera == old(rig).player_camera
                &&& final(rig).cameras@ == old(rig).cameras@
                &&& final(tokens)@ == old(tokens)@
            }
        }),
{
    if status.level_finished || status.dead || status.exiting {
        if status.dead {
            velocity.x = 0;
            velocity.y = 0;
        }
        let ramped = overlay.alpha + DIM_RATE_PER_MS * (dt as i64);
        if ramped >= DIM_OPAQUE {
            overlay.alpha = DIM_OPAQUE;
            if status.level_finished {
                if last_accessible_level.0 < target_level.0 + 1 {
                    last_accessible_level.0 = target_level.0 + 1;
                }
                if from_level_select.0 {
                    from_level_select.0 = false;
                    return TransitionAction::ReturnToLevelSelect;
                }
                target_level.0 = target_level.0 + 1;
                panning.panning_state = CameraPanningState::PanningToGoal;
                return TransitionAction::AdvanceToNextLevel;
            }
            if status.exiting {
                return TransitionAction::ExitToMainMenu;
            }
            status.dead = false;
            let mut k: usize = 0;
            let ghost tokens0 = *old(tokens);
            while k < tokens.len()
                invariant
                    0 <= k <= tokens.len(),
                    tokens.len() == tokens0.len(),
                    forall|m: int|
                        0 <= m < k ==> tokens[m] == (JumpTokenStatus {
                            active: true,
                            timer: Timer {
                                elapsed: 0,
                                duration: (#[trigger] tokens0[m]).timer.duration,
                            },
                        }),
                    forall|m: int| k <= m < tokens.len() ==> #[trigger] tokens[m] == tokens0[m],
                decreases tokens.len() - k,
            {
                let t = tokens[k];
                tokens[k] = JumpTokenStatus {
                    active: true,
                    timer: Timer { elapsed: 0, duration: t.timer.duration },
                };
                k = k + 1;
            }

            let dx = checkpoint.position.x - player.x;
            let dy = checkpoint.position.y - player.y;
            let off = player.x - rig.player_camera.x;
            if off < 0 {
                rig.player_camera.x = player.x;
            }
            player.x = player.x + dx;
            player.y = player.y + dy;
            rig.player_camera.x = saturate_cam(rig.player_camera.x + dx);
            rig.player_camera.y = saturate_cam(rig.player_camera.y + dy);

            let ghost rig0 = *old(rig);
            let ghost cam_fixed = rig.player_camera;
            let mut j: usize = 0;
            while j < rig.cameras.len()
                invariant
                    0 <= j <= rig.cameras.len(),
                    rig.cameras.len() == rig0.cameras.len(),
                    rig.player_camera == cam_fixed,
                    forall|m: int|
                        0 <= m < j ==> rig.cameras[m] == parallax_respawned(
                            #[trigger] rig0.cameras[m],
                            dx as int,
                            dy as int,
                            off as int,
                            half_height as int,
                        ),
                    forall|m: int| 0 <= m < j ==> (#[trigger] rig.cameras[m]).wf(),
                    forall|m: int|
                        j <= m < rig.cameras.len() ==> #[trigger] rig.cameras[m]
                            == rig0.cameras[m],
                decreases rig.cameras.len() - j,
            {
                let cam = rig.cameras[j];
                let mut new_x = cam.x + scale_by_coeff(dx, cam.coeff);
                if off < 0 {
                    new_x = new_x + scale_by_coeff(off, cam.coeff);
                }
                let new_x = saturate_cam(new_x);
                let y0 = saturate_cam(cam.y + scale_by_coeff(dy, cam.coeff));
                let y_min = scale_by_coeff(half_height, cam.coeff);
                let new_y = if y0 < y_min {
                    y_min
                } else {
                    y0
                };
                rig.cameras[j] = ParallaxCamera { x: new_x, y: new_y, coeff: cam.coeff };
                j = j + 1;
            }
            return TransitionAction::RespawnedAtCheckpoint;
        }
        overlay.alpha = ramped;
        return TransitionAction::NoTransition;
    }
    let lowered = overlay.alpha - DIM_RATE_PER_MS * (dt as i64);
    overlay.alpha = if lowered < 0 {
        0
    } else {
        lowered
    };
    TransitionAction::NoTransition
}

} // verus!
