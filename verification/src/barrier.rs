//! The backwards barrier: an invisible vertical wall trailing the left edge
//! of the camera viewport by a small offset, so the player cannot re-enter
//! sections the camera has scrolled past. It is active only once the
//! panning director has settled on the player, wraps forward across the
//! cyclic level, and is clamped short of the level's right edge with a
//! jitter margin so viewport rounding cannot flicker it in and out of
//! range.

use vstd::prelude::*;

use crate::panning::{CameraPanning, CameraPanningState};
use crate::units::{cam_ok, coord_ok, COORD_LIMIT};

verus! {

/// How far behind the camera's left viewport edge the barrier trails, in
/// milliunits (five world units).
pub const BARRIER_OFFSET: i64 = 5_000;

/// Margin kept short of the level's right edge, in milliunits (ten world
/// units), so viewport rounding cannot oscillate the barrier across the
/// clamp point.
pub const BARRIER_JITTER_MARGIN: i64 = 10_000;

/// The one-way wall of a level session: a vertical line collider at the
/// given world X.
#[derive(Clone, Copy, PartialEq, Eq, Structural, Debug)]
pub struct BackwardsBarrier {
    pub x: i64,
}

impl BackwardsBarrier {
    /// The barrier a level session starts with, parked at the level origin
    /// until the panning director settles.
    pub fn new() -> (b: BackwardsBarrier)
        ensures
            b.x == 0,
    {
        BackwardsBarrier { x: 0 }
    }
}

/// Where the barrier stands for a given camera position: the camera's left
/// viewport edge minus the trailing offset, wrapped forward by one
/// level-width when negative, and clamped short of the level's right edge.
pub open spec fn barrier_position(camera_x: int, half_width: int, level_width: int) -> int {
    let behind = camera_x - half_width - BARRIER_OFFSET;
    let wrapped = if behind < 0 {
        behind + level_width
    } else {
        behind
    };
    let limit = level_width - BARRIER_OFFSET - BARRIER_JITTER_MARGIN;
    if wrapped > limit {
        limit
    } else {
        wrapped
    }
}

/// Repositions the barrier behind the camera's left viewport edge.
/// `half_width` is half the horizontal world extent the camera sees. While
/// the panning director has not yet settled on the player the barrier does
/// not move, so it cannot block the initial goal-to-player pan.
pub fn update_backwards_barrier(
    barrier: &mut BackwardsBarrier,
    panning: &CameraPanning,
    camera_x: i64,
    half_width: i64,
    level_width: i64,
)
    requires
        cam_ok(camera_x as int),
        0 <= half_width <= COORD_LIMIT,
        1 <= level_width <= COORD_LIMIT,
    ensures
        panning.panning_state != CameraPanningState::WaitingAtPlayer ==> *final(barrier) == *old(
            barrier,
        ),
        panning.panning_state == CameraPanningState::WaitingAtPlayer ==> final(barrier).x
            == barrier_position(camera_x as int, half_width as int, level_width as int),
        panning.panning_state == CameraPanningState::WaitingAtPlayer ==> final(barrier).x
            <= level_width - BARRIER_OFFSET - BARRIER_JITTER_MARGIN,
{
    if panning.panning_state != CameraPanningState::WaitingAtPlayer {
        return ;
    }
    let mut x = camera_x - half_width - BARRIER_OFFSET;
    if x < 0 {
        x = x + level_width;
    }
    let limit = level_width - BARRIER_OFFSET - BARRIER_JITTER_MARGIN;
    if x > limit {
        x = limit;
    }
    barrier.x = x;
}

} // verus!
