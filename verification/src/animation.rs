//! The table-driven player animator: each movement state owns an inclusive
//! sprite-index range and a per-frame duration table; a repeating timer
//! advances the sprite through its state's range, and reaching the end of a
//! non-looping range triggers the state transition back to idle.

use vstd::prelude::*;

use crate::player::{PlayerInventory, PlayerState};
use crate::timer::{Timer, TIME_LIMIT};

verus! {

/// The player's animation clock: a repeating timer whose duration is the
/// current sprite frame's display time.
#[derive(Clone, Copy, PartialEq, Eq, Structural, Debug)]
pub struct AnimationTimer(pub Timer);

/// The sprite-sheet layout: for each animated state family its inclusive
/// frame-index range and the display time of each frame in it.
pub struct AnimationInfo {
    pub moving_start: usize,
    pub moving_end: usize,
    pub jumping_start: usize,
    pub jumping_end: usize,
    pub falling_start: usize,
    pub falling_end: usize,
    pub sliding_start: usize,
    pub sliding_end: usize,
    pub falling_to_idle_start: usize,
    pub falling_to_idle_end: usize,
    pub moving_durations: Vec<u64>,
    pub jumping_durations: Vec<u64>,
    pub falling_durations: Vec<u64>,
    pub falling_to_idle_durations: Vec<u64>,
    pub sliding_durations: Vec<u64>,
}

/// A frame-index range with its duration table: ordered, small, one
/// positive bounded duration per frame in the range.
pub open spec fn table_wf(start: usize, end: usize, durations: Seq<u64>) -> bool {
    &&& start <= end
    &&& end < 1000
    &&& durations.len() == end - start + 1
    &&& forall|i: int| 0 <= i < durations.len() ==> 1 <= #[trigger] durations[i] <= TIME_LIMIT
}

impl AnimationInfo {
    pub open spec fn wf(self) -> bool {
        &&& table_wf(self.moving_start, self.moving_end, self.moving_durations@)
        &&& self.moving_start + 2 <= self.moving_end
        &&& table_wf(self.jumping_start, self.jumping_end, self.jumping_durations@)
        &&& table_wf(self.falling_start, self.falling_end, self.falling_durations@)
        &&& table_wf(
            self.falling_to_idle_start,
            self.falling_to_idle_end,
            self.falling_to_idle_durations@,
        )
        &&& table_wf(self.sliding_start, self.sliding_end, self.sliding_durations@)
    }

    /// The sprite-sheet layout the game ships with.
    pub fn new() -> (info: AnimationInfo)
        ensures
            info.wf(),
            info.moving_start == 10,
            info.moving_end == 13,
            info.jumping_start == 0,
            info.jumping_end == 2,
            info.falling_start == 2,
            info.falling_end == 4,
            info.falling_to_idle_start == 6,
            info.falling_to_idle_end == 10,
            info.sliding_start == 14,
            info.sliding_end == 17,
            info.moving_durations@ == seq![100u64, 100u64, 100u64, 100u64],
            info.jumping_durations@ == seq![100u64, 100u64, 100u64],
            info.falling_durations@ == seq![100u64, 100u64, 100u64],
            info.falling_to_idle_durations@ == seq![50u64, 50u64, 50u64, 50u64, 50u64],
            info.sliding_durations@ == seq![50u64, 50u64, 50u64, 50u64],
    {
        let mut moving_durations: Vec<u64> = Vec::new();
        moving_durations.push(100);
        moving_durations.push(100);
        moving_durations.push(100);
        moving_durations.push(100);
        let mut jumping_durations: Vec<u64> = Vec::new();
        jumping_durations.push(100);
        jumping_durations.push(100);
        jumping_durations.push(100);
        let mut falling_durations: Vec<u64> = Vec::new();
        falling_durations.push(100);
        falling_durations.push(100);
        falling_durations.push(100);
        let mut falling_to_idle_durations: Vec<u64> = Vec::new();
        falling_to_idle_durations.push(50);
        falling_to_idle_durations.push(50);
        falling_to_idle_durations.push(50);
        falling_to_idle_durations.push(50);
        falling_to_idle_durations.push(50);
        let mut sliding_durations: Vec<u64> = Vec::new();
        sliding_durations.push(50);
        sliding_durations.push(50);
        sliding_durations.push(50);
        sliding_durations.push(50);
        let info = AnimationInfo {
            moving_start: 10,
            moving_end: 13,
            jumping_start: 0,
            jumping_end: 2,
            falling_start: 2,
            falling_end: 4,
            falling_to_idle_start: 6,
            falling_to_idle_end: 10,
            sliding_start: 14,
            sliding_end: 17,
            moving_durations,
            jumping_durations,
            falling_durations,
            falling_to_idle_durations,
            sliding_durations,
        };
        proof {
            assert(info.moving_durations@ =~= seq![100u64, 100u64, 100u64, 100u64]);
            assert(info.jumping_durations@ =~= seq![100u64, 100u64, 100u64]);
            assert(info.falling_durations@ =~= seq![100u64, 100u64, 100u64]);
            assert(info.falling_to_idle_durations@ =~= seq![50u64, 50u64, 50u64, 50u64, 50u64]);
            assert(info.sliding_durations@ =~= seq![50u64, 50u64, 50u64, 50u64]);
        }
        info
    }
}

/// The next index of a looping range (the moving cycle): an index outside
/// the range restarts it, the end wraps to two past the start, anything
/// else advances by one.
pub open spec fn stepped_looping(start: int, end: int, i: int) -> int {
    if i < start || i > end {
        start
    } else if i == end {
        start + 2
    } else {
        i + 1
    }
}

/// The next index of a saturating range (jumping, falling): an index
/// outside the range restarts it, the end holds, anything else advances by
/// one.
pub open spec fn stepped_saturating(start: int, end: int, i: int) -> int {
    if i < start || i > end {
        start
    } else if i == end {
        end
    } else {
        i + 1
    }
}

/// The next index of a re-entering range (sliding, landing): an index
/// outside the range is first pulled to the start, then the index advances
/// by one, holding at the end.
pub open spec fn stepped_reentering(start: int, end: int, i: int) -> int {
    let j = if i < start || i > end {
        start
    } else {
        i
    };
    if j == end {
        end
    } else {
        j + 1
    }
}

/// What one fired animation tick does: the state afterwards, the sprite
/// index afterwards, and the frame duration it loads into the clock, if
/// any.
pub struct AnimOutcome {
    pub state: PlayerState,
    pub index: int,
    pub set_duration: Option<u64>,
}

/// The animator's table lookup for one fired tick. `wall_slide` is whether
/// the character hangs on a wall with the wall jump unlocked, which
/// replaces the jumping and falling animations with the sliding one.
pub open spec fn animate_step(
    info: AnimationInfo,
    s: PlayerState,
    wall_slide: bool,
    i: int,
) -> AnimOutcome {
    match s {
        PlayerState::Idle => AnimOutcome { state: s, index: 0, set_duration: Option::None },
        PlayerState::MovingLeft | PlayerState::MovingRight => {
            let j = stepped_looping(info.moving_start as int, info.moving_end as int, i);
            AnimOutcome {
                state: s,
                index: j,
                set_duration: Option::Some(info.moving_durations@[j - info.moving_start]),
            }
        },
        PlayerState::Jumping => {
            if wall_slide {
                let j = stepped_reentering(info.sliding_start as int, info.sliding_end as int, i);
                AnimOutcome {
                    state: s,
                    index: j,
                    set_duration: Option::Some(info.sliding_durations@[j - info.sliding_start]),
                }
            } else {
                let j = stepped_saturating(info.jumping_start as int, info.jumping_end as int, i);
                AnimOutcome {
                    state: s,
                    index: j,
                    set_duration: Option::Some(info.jumping_durations@[j - info.jumping_start]),
                }
            }
        },
        PlayerState::Falling => {
            if wall_slide {
                let j = stepped_reentering(info.sliding_start as int, info.sliding_end as int, i);
                AnimOutcome {
                    state: s,
                    index: j,
                    set_duration: Option::Some(info.sliding_durations@[j - info.sliding_start]),
                }
            } else {
                let j = stepped_saturating(info.falling_start as int, info.falling_end as int, i);
                AnimOutcome {
                    state: s,
                    index: j,
                    set_duration: Option::Some(info.falling_durations@[j - info.falling_start]),
                }
            }
        },
        PlayerState::MovingToIdle => AnimOutcome {
            state: PlayerState::Idle,
            index: info.moving_start + 1,
            set_duration: Option::Some(50u64),
        },
        PlayerState::FallingToIdle => {
            let j = stepped_reentering(
                info.falling_to_idle_start as int,
                info.falling_to_idle_end as int,
                i,
            );
            let clamped = if i < info.falling_to_idle_start || i > info.falling_to_idle_end {
                info.falling_to_idle_start as int
            } else {
                i
            };
            AnimOutcome {
                state: if clamped == info.falling_to_idle_end {
                    PlayerState::Idle
                } else {
                    PlayerState::FallingToIdle
                },
                index: j,
                set_duration: Option::Some(
                    info.falling_to_idle_durations@[j - info.falling_to_idle_start],
                ),
            }
        },
        PlayerState::Sliding | PlayerState::SlidingToJump => {
            let j = stepped_reentering(info.sliding_start as int, info.sliding_end as int, i);
            AnimOutcome {
                state: s,
                index: j,
                set_duration: Option::Some(info.sliding_durations@[j - info.sliding_start]),
            }
        },
    }
}

/// One frame of the player animator. The clock ticks; when it fires, the
/// sprite index advances through the current state's range per
/// `animate_step`, the next frame's duration is loaded, and the one-frame
/// transition states fall back to idle at the end of their ranges.
pub fn animate_player(
    info: &AnimationInfo,
    state: &mut PlayerState,
    inventory: &PlayerInventory,
    sprite_index: &mut usize,
    timer: &mut AnimationTimer,
    dt: u64,
)
    requires
        info.wf(),
        1 <= old(timer).0.duration <= TIME_LIMIT,
        old(timer).0.elapsed <= TIME_LIMIT,
        dt <= TIME_LIMIT,
    ensures
        1 <= final(timer).0.duration <= TIME_LIMIT,
        final(timer).0.elapsed <= TIME_LIMIT,
        ({
            let fired = old(timer).0.elapsed + dt >= old(timer).0.duration;
            let wrapped = ((old(timer).0.elapsed + dt) % (old(timer).0.duration as int)) as u64;
            if !fired {
                &&& *final(state) == *old(state)
                &&& *final(sprite_index) == *old(sprite_index)
                &&& final(timer).0 == (Timer {
                    elapsed: (old(timer).0.elapsed + dt) as u64,
                    duration: old(timer).0.duration,
                })
            } else {
                let wall_slide = (inventory.on_wall_left || inventory.on_wall_right)
                    && inventory.has_wall_jump;
                let o = animate_step(*info, *old(state), wall_slide, *old(sprite_index) as int);
                &&& *final(state) == o.state
                &&& *final(sprite_index) == o.index
                &&& final(timer).0 == (Timer {
                    elapsed: wrapped,
                    duration: match o.set_duration {
                        Option::Some(d) => d,
                        Option::None => old(timer).0.duration,
                    },
                })
            }
        }),
{
    let fired = timer.0.tick_repeating(dt);
    if !fired {
        return ;
    }
    let wall_slide = (inventory.on_wall_left || inventory.on_wall_right)
        && inventory.has_wall_jump;
    match *state {
        PlayerState::Idle => {
            *sprite_index = 0;
        },
        PlayerState::MovingLeft | PlayerState::MovingRight => {
            if *sprite_index < info.moving_start || *sprite_index > info.moving_end {
                *sprite_index = info.moving_start;
            } else if *sprite_index == info.moving_end {
                *sprite_index = info.moving_start + 2;
            } else {
                *sprite_index = *sprite_index + 1;
            }
            timer.0.duration = info.moving_durations[*sprite_index - info.moving_start];
        },
        PlayerState::Jumping => {
            if wall_slide {
                if *sprite_index < info.sliding_start || *sprite_index > info.sliding_end {
                    *sprite_index = info.sliding_start;
                }
                if *sprite_index != info.sliding_end {
                    *sprite_index = *sprite_index + 1;
                }
                timer.0.duration = info.sliding_durations[*sprite_index - info.sliding_start];
            } else {
                if *sprite_index < info.jumping_start || *sprite_index > info.jumping_end {
                    *sprite_index = info.jumping_start;
                } else if *sprite_index != info.jumping_end {
                    *sprite_index = *sprite_index + 1;
                }
                timer.0.duration = info.jumping_durations[*sprite_index - info.jumping_start];
            }
        },
        PlayerState::Falling => {
            if wall_slide {
                if *sprite_index < info.sliding_start || *sprite_index > info.sliding_end {
                    *sprite_index = info.sliding_start;
                }
                if *sprite_index != info.sliding_end {
                    *sprite_index = *sprite_index + 1;
                }
                timer.0.duration = info.sliding_durations[*sprite_index - info.sliding_start];
            } else {
                if *sprite_index < info.falling_start || *sprite_index > info.falling_end {
                    *sprite_index = info.falling_start;
                } else if *sprite_index != info.falling_end {
                    *sprite_index = *sprite_index + 1;
                }
                timer.0.duration = info.falling_durations[*sprite_index - info.falling_start];
            }
        },
        PlayerState::MovingToIdle => {
            *sprite_index = info.moving_start + 1;
            timer.0.duration = 50;
            *state = PlayerState::Idle;
        },
        PlayerState::FallingToIdle => {
            if *sprite_index < info.falling_to_idle_start
                || *sprite_index > info.falling_to_idle_end {
                *sprite_index = info.falling_to_idle_start;
            }
            if *sprite_index == info.falling_to_idle_end {
                *state = PlayerState::Idle;
            } else {
                *sprite_index = *sprite_index + 1;
            }
            timer.0.duration = info.falling_to_idle_durations[*sprite_index
                - info.falling_to_idle_start];
        },
        PlayerState::Sliding | PlayerState::SlidingToJump => {
            if *sprite_index < info.sliding_start || *sprite_index > info.sliding_end {
                *sprite_index = info.sliding_start;
            }
            if *sprite_index != info.sliding_end {
                *sprite_index = *sprite_index + 1;
            }
            timer.0.duration = info.sliding_durations[*sprite_index - info.sliding_start];
        },
    }
}

} // verus!
