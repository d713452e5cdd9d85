//! The camera rig: one canonical player camera that drives the gameplay
//! viewport and never wraps, plus a set of parallax cameras (foreground,
//! midground and background layers, each with a duplicate one level-width to
//! the right, and the HUD camera) that move in lockstep scaled by their
//! parallax coefficients. The rig follows the player vertically, autoscrolls
//! horizontally past a half-screen deadzone, and loops the parallax cameras
//! across the cyclic level.

use vstd::prelude::*;
use vstd::arithmetic::div_mod::lemma_mod_decreases;

use crate::panning::{CameraPanning, CameraPanningState};
use crate::units::{
    cam_ok, coord_ok, pos_ok, sat_cam, saturate_cam, scale_by_coeff, scaled, approach,
    approach_step, wrap_coord, Position, COEFF_SCALE, COORD_LIMIT,
};

verus! {

/// Divisor of the exponential decay toward the target while the panning
/// director is panning.
pub const PAN_DIVISOR: i64 = 30;

/// Steeper divisor used once the camera has settled on the player.
pub const FOLLOW_DIVISOR: i64 = 3;

/// Parallax coefficient of the foreground and HUD layers, in thousandths.
pub const FOREGROUND_COEFF: u32 = 1000;

/// Parallax coefficient of the midground layer, in thousandths.
pub const MIDGROUND_COEFF: u32 = 350;

/// Parallax coefficient of the background layer, in thousandths.
pub const BACKGROUND_COEFF: u32 = 250;

/// One parallax camera: its world position and its parallax coefficient in
/// thousandths.
#[derive(Clone, Copy, PartialEq, Eq, Structural, Debug)]
pub struct ParallaxCamera {
    pub x: i64,
    pub y: i64,
    pub coeff: u32,
}

impl ParallaxCamera {
    pub open spec fn wf(self) -> bool {
        &&& cam_ok(self.x as int)
        &&& cam_ok(self.y as int)
        &&& self.coeff <= COEFF_SCALE as u32
    }
}

/// The canonical player camera plus the parallax cameras of one level
/// session.
pub struct CameraSet {
    pub player_camera: Position,
    pub cameras: Vec<ParallaxCamera>,
}

impl CameraSet {
    pub open spec fn wf(self) -> bool {
        &&& cam_ok(self.player_camera.x as int)
        &&& cam_ok(self.player_camera.y as int)
        &&& forall|k: int| 0 <= k < self.cameras.len() ==> (#[trigger] self.cameras[k]).wf()
    }
}

/// Builds the rig a level starts with: the canonical camera at the origin,
/// and for each of the three layers a camera at the origin and a duplicate
/// one level-width to the right (foreground, midground, background), then
/// the HUD camera, which moves like a foreground layer.
pub fn setup_camera(level_width: i64) -> (rig: CameraSet)
    requires
        0 <= level_width <= COORD_LIMIT,
    ensures
        rig.wf(),
        rig.player_camera == (Position { x: 0, y: 0 }),
        rig.cameras@ == seq![
            ParallaxCamera { x: 0, y: 0, coeff: FOREGROUND_COEFF },
            ParallaxCamera { x: level_width, y: 0, coeff: FOREGROUND_COEFF },
            ParallaxCamera { x: 0, y: 0, coeff: MIDGROUND_COEFF },
            ParallaxCamera { x: level_width, y: 0, coeff: MIDGROUND_COEFF },
            ParallaxCamera { x: 0, y: 0, coeff: BACKGROUND_COEFF },
            ParallaxCamera { x: level_width, y: 0, coeff: BACKGROUND_COEFF },
            ParallaxCamera { x: 0, y: 0, coeff: FOREGROUND_COEFF },
        ],
{
    let mut cameras: Vec<ParallaxCamera> = Vec::new();
    cameras.push(ParallaxCamera { x: 0, y: 0, coeff: FOREGROUND_COEFF });
    cameras.push(ParallaxCamera { x: level_width, y: 0, coeff: FOREGROUND_COEFF });
    cameras.push(ParallaxCamera { x: 0, y: 0, coeff: MIDGROUND_COEFF });
    cameras.push(ParallaxCamera { x: level_width, y: 0, coeff: MIDGROUND_COEFF });
    cameras.push(ParallaxCamera { x: 0, y: 0, coeff: BACKGROUND_COEFF });
    cameras.push(ParallaxCamera { x: level_width, y: 0, coeff: BACKGROUND_COEFF });
    cameras.push(ParallaxCamera { x: 0, y: 0, coeff: FOREGROUND_COEFF });
    let rig = CameraSet { player_camera: Position { x: 0, y: 0 }, cameras };
    proof {
        assert(rig.cameras@ =~= seq![
            ParallaxCamera { x: 0, y: 0, coeff: FOREGROUND_COEFF },
            ParallaxCamera { x: level_width, y: 0, coeff: FOREGROUND_COEFF },
            ParallaxCamera { x: 0, y: 0, coeff: MIDGROUND_COEFF },
            ParallaxCamera { x: level_width, y: 0, coeff: MIDGROUND_COEFF },
            ParallaxCamera { x: 0, y: 0, coeff: BACKGROUND_COEFF },
            ParallaxCamera { x: level_width, y: 0, coeff: BACKGROUND_COEFF },
            ParallaxCamera { x: 0, y: 0, coeff: FOREGROUND_COEFF },
        ]);
    }
    rig
}

/// A parallax camera after one vertical follow step of the primary camera:
/// it moves by the primary's unclamped step scaled by its coefficient, never
/// below its own scaled floor clamp; once the primary hits its clamp, every
/// layer snaps to its scaled clamp so the layers cannot drift out of clamp
/// sync.
pub open spec fn parallax_followed(
    cam: ParallaxCamera,
    step: int,
    at_low: bool,
    half_height: int,
) -> ParallaxCamera {
    let y_min = scaled(half_height, cam.coeff as int);
    let y = if at_low {
        y_min
    } else {
        let moved = sat_cam(cam.y + scaled(step, cam.coeff as int));
        if moved < y_min {
            y_min
        } else {
            moved
        }
    };
    ParallaxCamera { x: cam.x, y: y as i64, coeff: cam.coeff }
}

/// Vertical camera follow. Each frame the primary camera decays toward the
/// target height (the goal while panning to it, else the player), clamped to
/// a minimum of half the vertical world extent visible so the camera never
/// looks below the level floor; every parallax camera moves and clamps in
/// lockstep, scaled by its coefficient. Skipped entirely while the rig waits
/// at the goal or the player is dead.
#[verifier::loop_isolation(false)]
pub fn attach_player_camera_to_player(
    rig: &mut CameraSet,
    panning: &CameraPanning,
    player: Position,
    player_dead: bool,
    goal: Position,
    half_height: i64,
)
    requires
        old(rig).wf(),
        pos_ok(player),
        pos_ok(goal),
        0 <= half_height <= COORD_LIMIT,
    ensures
        final(rig).wf(),
        final(rig).cameras.len() == old(rig).cameras.len(),
        final(rig).player_camera.x == old(rig).player_camera.x,
        ({
            let skip = panning.panning_state == CameraPanningState::WaitingAtGoal || player_dead;
            let divisor = if panning.panning_state == CameraPanningState::WaitingAtPlayer {
                FOLLOW_DIVISOR as int
            } else {
                PAN_DIVISOR as int
            };
            let target_y = if panning.panning_state == CameraPanningState::PanningToGoal {
                goal.y as int
            } else {
                player.y as int
            };
            let stepped = approach(old(rig).player_camera.y as int, target_y, divisor);
            let at_low = stepped < half_height;
            let step = stepped - old(rig).player_camera.y;
            if skip {
                &&& final(rig).player_camera == old(rig).player_camera
                &&& final(rig).cameras@ == old(rig).cameras@
            } else {
                &&& final(rig).player_camera.y == if at_low {
                    half_height as int
                } else {
                    stepped
                }
                &&& final(rig).player_camera.y >= half_height
                &&& forall|k: int|
                    0 <= k < old(rig).cameras.len() ==> final(rig).cameras[k]
                        == parallax_followed(
                        #[trigger] old(rig).cameras[k],
                        step,
                        at_low,
                        half_height as int,
                    )
                &&& forall|k: int|
                    0 <= k < old(rig).cameras.len() ==> (#[trigger] final(rig).cameras[k]).y
                        >= scaled(half_height as int, final(rig).cameras[k].coeff as int)
            }
        }),
{
    if panning.panning_state == CameraPanningState::WaitingAtGoal || player_dead {
        return ;
    }
    let divisor = if panning.panning_state == CameraPanningState::WaitingAtPlayer {
        FOLLOW_DIVISOR
    } else {
        PAN_DIVISOR
    };
    let target_y = if panning.panning_state == CameraPanningState::PanningToGoal {
        goal.y
    } else {
        player.y
    };
    let y0 = rig.player_camera.y;
    let stepped = approach_step(y0, target_y, divisor);
    let step = stepped - y0;
    let at_low = stepped < half_height;
    let new_py = if at_low {
        half_height
    } else {
        stepped
    };
    rig.player_camera.y = new_py;

    let ghost rig0 = *old(rig);
    let mut k: usize = 0;
    while k < rig.cameras.len()
        invariant
            0 <= k <= rig.cameras.len(),
            rig.cameras.len() == rig0.cameras.len(),
            rig.player_camera == (Position { x: rig0.player_camera.x, y: new_py }),
            forall|m: int|
                0 <= m < k ==> rig.cameras[m] == parallax_followed(
                    #[trigger] rig0.cameras[m],
                    step as int,
                    at_low,
                    half_height as int,
                ),
            forall|m: int| 0 <= m < k ==> (#[trigger] rig.cameras[m]).wf(),
            forall|m: int|
                0 <= m < k ==> (#[trigger] rig.cameras[m]).y >= scaled(
                    half_height as int,
                    rig.cameras[m].coeff as int,
                ),
            forall|m: int|
                k <= m < rig.cameras.len() ==> #[trigger] rig.cameras[m] == rig0.cameras[m],
        decreases rig.cameras.len() - k,
    {
        let cam = rig.cameras[k];
        let y_min = scale_by_coeff(half_height, cam.coeff);
        let new_y = if at_low {
            y_min
        } else {
            let moved = saturate_cam(cam.y + scale_by_coeff(step, cam.coeff));
            if moved < y_min {
                y_min
            } else {
                moved
            }
        };
        rig.cameras[k] = ParallaxCamera { x: cam.x, y: new_y, coeff: cam.coeff };
        k = k + 1;
    }
}

/// Horizontal autoscroll. The canonical camera is compared against the
/// player's position wrapped into the level; only when the wrapped player is
/// strictly ahead does the camera advance, by exactly that forward delta, so
/// the player never visually passes the center of the screen and the camera
/// never overtakes the wrapped player. Parallax cameras advance in lockstep,
/// scaled by their coefficients.
#[verifier::loop_isolation(false)]
pub fn autoscroll_camera(rig: &mut CameraSet, player_x: i64, level_width: i64)
    requires
        old(rig).wf(),
        coord_ok(player_x as int),
        1 <= level_width <= COORD_LIMIT,
    ensures
        final(rig).wf(),
        final(rig).cameras.len() == old(rig).cameras.len(),
        final(rig).player_camera.y == old(rig).player_camera.y,
        ({
            let wrapped = (player_x as int) % (level_width as int);
            let delta = wrapped - old(rig).player_camera.x;
            if delta <= 0 {
                &&& final(rig).player_camera == old(rig).player_camera
                &&& final(rig).cameras@ == old(rig).cameras@
            } else {
                let modded = delta % (level_width as int);
                &&& final(rig).player_camera.x == old(rig).player_camera.x + modded
                &&& old(rig).player_camera.x <= final(rig).player_camera.x <= wrapped
                &&& forall|k: int|
                    0 <= k < old(rig).cameras.len() ==> final(rig).cameras[k]
                        == (ParallaxCamera {
                        x: sat_cam(
                            (#[trigger] old(rig).cameras[k]).x + scaled(
                                modded,
                                old(rig).cameras[k].coeff as int,
                            ),
                        ) as i64,
                        ..old(rig).cameras[k]
                    })
            }
        }),
{
    let wrapped = wrap_coord(player_x, level_width);
    let delta = wrapped - rig.player_camera.x;
    if delta <= 0 {
        return ;
    }
    let modded = wrap_coord(delta, level_width);
    proof {
        lemma_mod_decreases(delta as nat, level_width as nat);
    }
    let new_px = rig.player_camera.x + modded;
    rig.player_camera.x = new_px;

    let ghost rig0 = *old(rig);
    let mut k: usize = 0;
    while k < rig.cameras.len()
        invariant
            0 <= k <= rig.cameras.len(),
            rig.cameras.len() == rig0.cameras.len(),
            rig.player_camera == (Position { x: new_px, y: rig0.player_camera.y }),
            forall|m: int|
                0 <= m < k ==> rig.cameras[m] == (ParallaxCamera {
                    x: sat_cam(
                        (#[trigger] rig0.cameras[m]).x + scaled(
                            modded as int,
                            rig0.cameras[m].coeff as int,
                        ),
                    ) as i64,
                    ..rig0.cameras[m]
                }),
            forall|m: int| 0 <= m < k ==> (#[trigger] rig.cameras[m]).wf(),
            forall|m: int|
                k <= m < rig.cameras.len() ==> #[trigger] rig.cameras[m] == rig0.cameras[m],
        decreases rig.cameras.len() - k,
    {
        let cam = rig.cameras[k];
        let new_x = saturate_cam(cam.x + scale_by_coeff(modded, cam.coeff));
        rig.cameras[k] = ParallaxCamera { x: new_x, y: cam.y, coeff: cam.coeff };
        k = k + 1;
    }
}

/// Where a parallax camera lands after one wrap check: a camera that left
/// `[-levelWidth/2, 3*levelWidth/2]` is teleported by two level-widths back
/// toward the range.
pub open spec fn wrapped_camera_x(x: int, w: int) -> int {
    if 2 * x > 3 * w {
        x - 2 * w
    } else if 2 * x < -w {
        x + 2 * w
    } else {
        x
    }
}

/// Horizontal looping. Every parallax camera whose position has left the
/// range `[-levelWidth/2, 3*levelWidth/2]` is teleported by two level-widths
/// back toward it; the canonical player camera never wraps. A camera whose
/// position is within half a level-width of the range, as the bounded
/// per-frame camera speed guarantees, is back inside it in this single step,
/// and a camera already inside it does not move.
#[verifier::loop_isolation(false)]
pub fn loop_main_cameras(rig: &mut CameraSet, level_width: i64)
    requires
        old(rig).wf(),
        1 <= level_width <= COORD_LIMIT,
    ensures
        final(rig).wf(),
        final(rig).cameras.len() == old(rig).cameras.len(),
        final(rig).player_camera == old(rig).player_camera,
        forall|k: int|
            0 <= k < old(rig).cameras.len() ==> final(rig).cameras[k] == (ParallaxCamera {
                x: sat_cam(wrapped_camera_x((#[trigger] old(rig).cameras[k]).x as int, level_width as int))
                    as i64,
                ..old(rig).cameras[k]
            }),
        forall|k: int|
            0 <= k < old(rig).cameras.len() && -5 * (level_width as int) <= 2 * (
            #[trigger] old(rig).cameras[k]).x <= 7 * (level_width as int) ==> -(level_width as int)
                <= 2 * (final(rig).cameras[k].x as int) <= 3 * (level_width as int),
        forall|k: int|
            0 <= k < old(rig).cameras.len() && -(level_width as int) <= 2 * (
            #[trigger] old(rig).cameras[k]).x <= 3 * (level_width as int) ==> final(rig).cameras[k]
                == old(rig).cameras[k],
{
    let ghost rig0 = *old(rig);
    let mut k: usize = 0;
    while k < rig.cameras.len()
        invariant
            0 <= k <= rig.cameras.len(),
            rig.cameras.len() == rig0.cameras.len(),
            rig.player_camera == rig0.player_camera,
            forall|m: int|
                0 <= m < k ==> rig.cameras[m] == (ParallaxCamera {
                    x: sat_cam(
                        wrapped_camera_x((#[trigger] rig0.cameras[m]).x as int, level_width as int),
                    ) as i64,
                    ..rig0.cameras[m]
                }),
            forall|m: int| 0 <= m < k ==> (#[trigger] rig.cameras[m]).wf(),
            forall|m: int|
                k <= m < rig.cameras.len() ==> #[trigger] rig.cameras[m] == rig0.cameras[m],
        decreases rig.cameras.len() - k,
    {
        let cam = rig.cameras[k];
        let mut x = cam.x;
        if 2 * x > 3 * level_width {
            x = x - 2 * level_width;
        } else if 2 * x < -level_width {
            x = x + 2 * level_width;
        }
        rig.cameras[k] = ParallaxCamera { x: saturate_cam(x), y: cam.y, coeff: cam.coeff };
        k = k + 1;
    }
}

} // verus!
