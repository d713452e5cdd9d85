//! The player: its movement/animation state machine, its inventory of
//! jump-related abilities, and the per-frame rules that turn input and
//! physics feedback into velocity changes and state transitions.

use vstd::prelude::*;
use vstd::arithmetic::div_mod::{
    lemma_div_is_ordered, lemma_div_multiples_vanish, lemma_div_pos_is_pos,
};
use vstd::arithmetic::mul::lemma_mul_inequality;

use crate::timer::{cooldown_tick_spec, Timer};
use crate::units::{cam_ok, coord_ok, sat_cam, saturate_cam, Position, COORD_LIMIT};

verus! {

/// Impulse added to the horizontal velocity on each frame a movement key is
/// held, in milliunits per second.
pub const MOVE_IMPULSE: i64 = 55_000;

/// The horizontal velocity is multiplied by `DAMP_NUM / DAMP_DEN` once per
/// frame, a fixed damping factor of one over 1.6.
pub const DAMP_NUM: i64 = 5;

pub const DAMP_DEN: i64 = 8;

/// Horizontal speeds below this, in milliunits per second, snap to zero.
pub const STOP_EPSILON: i64 = 100;

/// Vertical takeoff speed of every jump, in milliunits per second.
pub const JUMP_SPEED: i64 = 130_000;

/// Largest descent speed while wall-sliding, in milliunits per second.
pub const SLIDE_MAX_FALL: i64 = 75_000;

/// Milliseconds between two jump initiations.
pub const JUMP_COOLDOWN_MS: u64 = 300;

/// Milliseconds before the same wall side allows another wall jump.
pub const WALL_JUMP_COOLDOWN_MS: u64 = 800;

/// Length of the downward ground-probing ray, in milliunits.
pub const RAY_LENGTH: i64 = 10_000;

/// Spring stiffness of the floor-snapping force, per milliunit of
/// compression (15000 per world unit).
pub const SPRING_STIFFNESS: i64 = 15;

/// Damping of the floor-snapping force, per milliunit-per-second of vertical
/// velocity (one fifth of the stiffness).
pub const SPRING_DAMPING: i64 = 3;

/// The discrete movement/animation state of the character. Exactly one is
/// active at a time.
#[derive(Clone, Copy, PartialEq, Eq, Structural, Debug)]
pub enum PlayerState {
    Idle,
    MovingLeft,
    MovingRight,
    Jumping,
    Falling,
    MovingToIdle,
    FallingToIdle,
    Sliding,
    SlidingToJump,
}

/// Which way the sprite faces.
#[derive(Clone, Copy, PartialEq, Eq, Structural, Debug)]
pub enum Facing {
    Left,
    Right,
}

/// One frame of player input, as the engine reports it: held movement keys
/// and the rising edge of the jump key.
#[derive(Clone, Copy, PartialEq, Eq, Structural, Debug)]
pub struct PlayerInput {
    pub left: bool,
    pub right: bool,
    pub jump_just_pressed: bool,
}

/// A velocity in milliunits per second.
#[derive(Clone, Copy, PartialEq, Eq, Structural, Debug)]
pub struct Velocity2 {
    pub x: i64,
    pub y: i64,
}

/// One-shot flags and the jump cooldown, consumed by the level-transition
/// coordinator and cleared after handling.
#[derive(Clone, Copy, PartialEq, Eq, Structural, Debug)]
pub struct PlayerStatus {
    pub jump_cooldown: Timer,
    pub level_finished: bool,
    pub dead: bool,
    pub exiting: bool,
}

impl PlayerStatus {
    /// The status a freshly spawned player starts with: no flags set and the
    /// jump cooldown already elapsed, so the first jump is not delayed.
    pub fn new() -> (s: PlayerStatus)
        ensures
            s.jump_cooldown == (Timer { elapsed: JUMP_COOLDOWN_MS, duration: JUMP_COOLDOWN_MS }),
            !s.level_finished,
            !s.dead,
            !s.exiting,
    {
        PlayerStatus {
            jump_cooldown: Timer::finished_timer(JUMP_COOLDOWN_MS),
            level_finished: false,
            dead: false,
            exiting: false,
        }
    }
}

/// Collected abilities and resources: keys, reusable double-jump charges,
/// single-use token jumps, and the wall-jump unlock with its per-side
/// cooldowns and contact flags.
#[derive(Clone, Copy, PartialEq, Eq, Structural, Debug)]
pub struct PlayerInventory {
    pub num_keys: usize,
    pub max_extra_jumps: usize,
    pub extra_jumps: usize,
    pub air_jumps: usize,
    pub wall_jump_cd_left: Timer,
    pub wall_jump_cd_right: Timer,
    pub on_wall_left: bool,
    pub on_wall_right: bool,
    pub has_wall_jump: bool,
}

impl PlayerInventory {
    /// The inventory invariant: remaining double-jump charges never exceed
    /// the granted maximum.
    pub open spec fn wf(self) -> bool {
        self.extra_jumps <= self.max_extra_jumps
    }

    /// The inventory a freshly spawned player starts with: nothing collected.
    pub fn new() -> (inv: PlayerInventory)
        ensures
            inv.num_keys == 0,
            inv.max_extra_jumps == 0,
            inv.extra_jumps == 0,
            inv.air_jumps == 0,
            inv.wall_jump_cd_left == (Timer { elapsed: 0, duration: WALL_JUMP_COOLDOWN_MS }),
            inv.wall_jump_cd_right == (Timer { elapsed: 0, duration: WALL_JUMP_COOLDOWN_MS }),
            !inv.on_wall_left,
            !inv.on_wall_right,
            !inv.has_wall_jump,
            inv.wf(),
    {
        PlayerInventory {
            num_keys: 0,
            max_extra_jumps: 0,
            extra_jumps: 0,
            air_jumps: 0,
            wall_jump_cd_left: Timer::new(WALL_JUMP_COOLDOWN_MS),
            wall_jump_cd_right: Timer::new(WALL_JUMP_COOLDOWN_MS),
            on_wall_left: false,
            on_wall_right: false,
            has_wall_jump: false,
        }
    }

    pub fn has_key(&self) -> (b: bool)
        ensures
            b == (self.num_keys > 0),
    {
        self.num_keys > 0
    }

    pub fn use_key(&mut self)
        requires
            old(self).num_keys >= 1,
        ensures
            *final(self) == (PlayerInventory { num_keys: (old(self).num_keys - 1) as usize, ..*old(self) }),
            old(self).wf() ==> final(self).wf(),
    {
        self.num_keys = self.num_keys - 1;
    }

    pub fn add_key(&mut self)
        requires
            old(self).num_keys < usize::MAX,
        ensures
            *final(self) == (PlayerInventory { num_keys: (old(self).num_keys + 1) as usize, ..*old(self) }),
            old(self).wf() ==> final(self).wf(),
    {
        self.num_keys = self.num_keys + 1;
    }

    /// Collecting a double-jump pickup grants one more reusable charge but
    /// does not refill the charges in hand; the next ground contact does.
    pub fn acquire_double_jump(&mut self)
        requires
            old(self).max_extra_jumps < usize::MAX,
        ensures
            *final(self) == (PlayerInventory {
                max_extra_jumps: (old(self).max_extra_jumps + 1) as usize,
                ..*old(self)
            }),
            old(self).wf() ==> final(self).wf(),
    {
        self.max_extra_jumps = self.max_extra_jumps + 1;
    }

    /// Collecting the wall-jump pickup unlocks wall interaction permanently.
    pub fn acquire_wall_jump(&mut self)
        ensures
            *final(self) == (PlayerInventory { has_wall_jump: true, ..*old(self) }),
            old(self).wf() ==> final(self).wf(),
    {
        self.has_wall_jump = true;
    }

    /// Touching an active jump token grants one single-use air jump.
    pub fn add_air_jump(&mut self)
        requires
            old(self).air_jumps < usize::MAX,
        ensures
            *final(self) == (PlayerInventory { air_jumps: (old(self).air_jumps + 1) as usize, ..*old(self) }),
            old(self).wf() ==> final(self).wf(),
    {
        self.air_jumps = self.air_jumps + 1;
    }
}

/// The last safe respawn location, advanced whenever a checkpoint event
/// fires.
#[derive(Clone, Copy, PartialEq, Eq, Structural, Debug)]
pub struct PlayerCheckpoint {
    pub position: Position,
}

/// Moves the checkpoint to the player's current position when at least one
/// checkpoint event fired this frame; collectible and interactable scripts
/// outside the core send these events.
pub fn set_player_checkpoint(
    checkpoint: &mut PlayerCheckpoint,
    player_position: Position,
    checkpoint_events: bool,
)
    ensures
        *final(checkpoint) == if checkpoint_events {
            PlayerCheckpoint { position: player_position }
        } else {
            *old(checkpoint)
        },
{
    if checkpoint_events {
        checkpoint.position = player_position;
    }
}

/// Sets the dead flag when the player's collider overlaps a hazard or the
/// manual-respawn key is pressed; the level-transition coordinator consumes
/// the flag.
pub fn kill_player(status: &mut PlayerStatus, touching_hazard: bool, respawn_pressed: bool)
    ensures
        final(status).dead == (old(status).dead || touching_hazard || respawn_pressed),
        final(status).jump_cooldown == old(status).jump_cooldown,
        final(status).level_finished == old(status).level_finished,
        final(status).exiting == old(status).exiting,
{
    if respawn_pressed || touching_hazard {
        status.dead = true;
    }
}

/// Sets the level-finished flag when the player's collider overlaps the goal
/// sensor; the level-transition coordinator consumes the flag.
pub fn finish_level(status: &mut PlayerStatus, touching_goal: bool)
    ensures
        final(status).level_finished == (old(status).level_finished || touching_goal),
        final(status).jump_cooldown == old(status).jump_cooldown,
        final(status).dead == old(status).dead,
        final(status).exiting == old(status).exiting,
{
    if touching_goal {
        status.level_finished = true;
    }
}

/// The state after the wall-contact pass: touching any wall with the
/// wall-jump unlocked puts the character in the sliding pose.
pub open spec fn state_after_wall_contact(
    s: PlayerState,
    touching_wall: bool,
    has_wall_jump: bool,
) -> PlayerState {
    if touching_wall && has_wall_jump {
        PlayerState::Sliding
    } else {
        s
    }
}

/// The state after one full contact pass: the wall pass above, then landing
/// (into the landing animation), losing wall contact mid-slide, or starting
/// to fall.
pub open spec fn state_after_contacts(
    s0: PlayerState,
    touching_wall: bool,
    has_wall_jump: bool,
    grounded: bool,
    velocity_y: int,
) -> PlayerState {
    let s = state_after_wall_contact(s0, touching_wall, has_wall_jump);
    if grounded && (s == PlayerState::Falling || s == PlayerState::Sliding) {
        PlayerState::FallingToIdle
    } else if !grounded && s == PlayerState::Sliding && !touching_wall {
        PlayerState::SlidingToJump
    } else if !grounded && velocity_y < 0 && s != PlayerState::FallingToIdle && s != PlayerState::Sliding
        && s != PlayerState::SlidingToJump {
        PlayerState::Falling
    } else {
        s
    }
}

/// Per-frame contact bookkeeping: records which walls the character touches,
/// refills double-jump charges and clears token jumps on ground contact,
/// clears token jumps on wall contact, and applies the contact-driven state
/// transitions.
///
/// The contact flags come from the engine's sensor-intersection queries,
/// already filtered to solid colliders other than the character itself and
/// the backwards barrier.
pub fn update_player_grounded(
    inventory: &mut PlayerInventory,
    state: &mut PlayerState,
    velocity_y: i64,
    touching_wall_left: bool,
    touching_wall_right: bool,
    grounded: bool,
)
    requires
        old(inventory).wf(),
    ensures
        final(inventory).wf(),
        final(inventory).on_wall_left == touching_wall_left,
        final(inventory).on_wall_right == touching_wall_right,
        final(inventory).num_keys == old(inventory).num_keys,
        final(inventory).max_extra_jumps == old(inventory).max_extra_jumps,
        final(inventory).has_wall_jump == old(inventory).has_wall_jump,
        final(inventory).wall_jump_cd_left == old(inventory).wall_jump_cd_left,
        final(inventory).wall_jump_cd_right == old(inventory).wall_jump_cd_right,
        grounded ==> final(inventory).extra_jumps == final(inventory).max_extra_jumps,
        !grounded ==> final(inventory).extra_jumps == old(inventory).extra_jumps,
        (grounded || touching_wall_left || touching_wall_right) ==> final(inventory).air_jumps == 0,
        !(grounded || touching_wall_left || touching_wall_right) ==> final(inventory).air_jumps
            == old(inventory).air_jumps,
        *final(state) == state_after_contacts(
            *old(state),
            touching_wall_left || touching_wall_right,
            old(inventory).has_wall_jump,
            grounded,
            velocity_y as int,
        ),
{
    inventory.on_wall_left = touching_wall_left;
    inventory.on_wall_right = touching_wall_right;
    let touching_wall = touching_wall_left || touching_wall_right;
    if touching_wall {
        if inventory.has_wall_jump {
            *state = PlayerState::Sliding;
        }
        inventory.air_jumps = 0;
    }

    if grounded {
        inventory.extra_jumps = inventory.max_extra_jumps;
        inventory.air_jumps = 0;
    }

    if grounded && (*state == PlayerState::Falling || *state == PlayerState::Sliding) {
        *state = PlayerState::FallingToIdle;
    } else if !grounded && *state == PlayerState::Sliding && !touching_wall {
        *state = PlayerState::SlidingToJump;
    } else if !grounded && velocity_y < 0 && *state != PlayerState::FallingToIdle
        && *state != PlayerState::Sliding && *state != PlayerState::SlidingToJump {
        *state = PlayerState::Falling;
    }
}

/// The floor-snapping spring force for one frame: while the downward ray
/// hits ground and the character is in a grounded state, a critically-damped
/// spring pushes toward the measured ground distance; while airborne or
/// sliding the force is zero.
pub open spec fn spring_force_spec(ground_ray: Option<i64>, s: PlayerState, velocity_y: int) -> int {
    if ground_ray is Some && s != PlayerState::Jumping && s != PlayerState::Falling
        && s != PlayerState::Sliding {
        SPRING_STIFFNESS * (RAY_LENGTH - ground_ray->0) - SPRING_DAMPING * velocity_y
    } else {
        0
    }
}

/// Computes the floor-snapping spring force from the downward ray-cast
/// result (the distance to the first solid hit, if any within the ray's
/// length).
pub fn ground_spring_force(ground_ray: Option<i64>, s: PlayerState, velocity_y: i64) -> (force: i64)
    requires
        ground_ray matches Some(toi) ==> 0 <= toi <= RAY_LENGTH,
        coord_ok(velocity_y as int),
    ensures
        force == spring_force_spec(ground_ray, s, velocity_y as int),
{
    match ground_ray {
        Some(toi) => {
            if s != PlayerState::Jumping && s != PlayerState::Falling && s != PlayerState::Sliding {
                SPRING_STIFFNESS * (RAY_LENGTH - toi) - SPRING_DAMPING * velocity_y
            } else {
                0
            }
        },
        None => 0,
    }
}

/// The horizontal velocity after one frame of damping: multiplied by
/// `DAMP_NUM / DAMP_DEN` truncating toward zero, then snapped to zero below
/// `STOP_EPSILON`.
pub open spec fn damped(vx: int) -> int {
    let d = if vx >= 0 {
        vx * DAMP_NUM / (DAMP_DEN as int)
    } else {
        -((-vx) * DAMP_NUM / (DAMP_DEN as int))
    };
    if -STOP_EPSILON < d < STOP_EPSILON {
        0
    } else {
        d
    }
}

/// Applies one frame of horizontal damping.
pub fn damp_horizontal(vx: i64) -> (r: i64)
    requires
        -2 * COORD_LIMIT <= vx <= 2 * COORD_LIMIT,
    ensures
        r == damped(vx as int),
        vx >= 0 ==> 0 <= r <= vx,
        vx < 0 ==> vx <= r <= 0,
{
    let d: i64 = if vx >= 0 {
        proof {
            lemma_mul_inequality(DAMP_NUM as int, DAMP_DEN as int, vx as int);
            lemma_div_is_ordered(vx as int * DAMP_NUM, vx as int * DAMP_DEN, DAMP_DEN as int);
            lemma_div_multiples_vanish(vx as int, DAMP_DEN as int);
            lemma_div_pos_is_pos(vx as int * DAMP_NUM, DAMP_DEN as int);
            assert(vx as int * DAMP_NUM == DAMP_NUM * vx as int) by (nonlinear_arith);
            assert(vx as int * DAMP_DEN == DAMP_DEN * vx as int) by (nonlinear_arith);
        }
        (((vx as u64) * (DAMP_NUM as u64)) / (DAMP_DEN as u64)) as i64
    } else {
        let m: i64 = -vx;
        proof {
            lemma_mul_inequality(DAMP_NUM as int, DAMP_DEN as int, m as int);
            lemma_div_is_ordered(m as int * DAMP_NUM, m as int * DAMP_DEN, DAMP_DEN as int);
            lemma_div_multiples_vanish(m as int, DAMP_DEN as int);
            lemma_div_pos_is_pos(m as int * DAMP_NUM, DAMP_DEN as int);
            assert(m as int * DAMP_NUM == DAMP_NUM * m as int) by (nonlinear_arith);
            assert(m as int * DAMP_DEN == DAMP_DEN * m as int) by (nonlinear_arith);
        }
        -((((m as u64) * (DAMP_NUM as u64)) / (DAMP_DEN as u64)) as i64)
    };
    if -STOP_EPSILON < d && d < STOP_EPSILON {
        0
    } else {
        d
    }
}

/// Which jump, if any, a rising jump edge fires, in the fixed priority
/// order: a grounded jump, a wall jump off either side, a reusable
/// double-jump charge, a single-use token jump.
#[derive(Clone, Copy, PartialEq, Eq, Structural, Debug)]
pub enum JumpKind {
    NoJump,
    GroundJump,
    WallJumpLeft,
    WallJumpRight,
    DoubleJump,
    TokenJump,
}

/// The jump the character fires this frame, given its state after the
/// movement transitions and its inventory after the cooldown ticks.
pub open spec fn jump_kind(s: PlayerState, inv: PlayerInventory) -> JumpKind {
    if s != PlayerState::Jumping && s != PlayerState::Falling {
        JumpKind::GroundJump
    } else if inv.has_wall_jump && inv.on_wall_left && inv.wall_jump_cd_left.is_finished() {
        JumpKind::WallJumpLeft
    } else if inv.has_wall_jump && inv.on_wall_right && inv.wall_jump_cd_right.is_finished() {
        JumpKind::WallJumpRight
    } else if inv.extra_jumps >= 1 {
        JumpKind::DoubleJump
    } else if inv.air_jumps >= 1 {
        JumpKind::TokenJump
    } else {
        JumpKind::NoJump
    }
}

/// The state after the held-key movement transitions of one frame: right
/// then left input each retarget the moving states or break a slide that
/// lost wall contact, and releasing both keys begins the one-frame
/// moving-to-idle transition.
pub open spec fn state_after_motion(s0: PlayerState, input: PlayerInput, on_wall: bool) -> PlayerState {
    let s1 = if input.right {
        let sr = if s0 == PlayerState::MovingLeft || s0 == PlayerState::Idle {
            PlayerState::MovingRight
        } else {
            s0
        };
        if sr == PlayerState::Sliding && !on_wall {
            PlayerState::SlidingToJump
        } else {
            sr
        }
    } else {
        s0
    };
    let s2 = if input.left {
        let sl = if s1 == PlayerState::MovingRight || s1 == PlayerState::Idle {
            PlayerState::MovingLeft
        } else {
            s1
        };
        if sl == PlayerState::Sliding && !on_wall {
            PlayerState::SlidingToJump
        } else {
            sl
        }
    } else {
        s1
    };
    if !(input.left || input.right) && (s2 == PlayerState::MovingLeft || s2 == PlayerState::MovingRight) {
        PlayerState::MovingToIdle
    } else {
        s2
    }
}

/// The sprite facing after one frame: movement keys turn the sprite unless
/// it is in a sliding pose, and wall contact forces it to face the wall.
pub open spec fn facing_after_motion(
    f0: Facing,
    s0: PlayerState,
    input: PlayerInput,
    on_wall_left: bool,
    on_wall_right: bool,
) -> Facing {
    let s1 = if input.right && (s0 == PlayerState::MovingLeft || s0 == PlayerState::Idle) {
        PlayerState::MovingRight
    } else {
        s0
    };
    let f1 = if input.right && s1 != PlayerState::SlidingToJump && s1 != PlayerState::Sliding {
        Facing::Right
    } else {
        f0
    };
    let s2 = if input.right && s1 == PlayerState::Sliding && !(on_wall_left || on_wall_right) {
        PlayerState::SlidingToJump
    } else {
        s1
    };
    let s3 = if input.left && (s2 == PlayerState::MovingRight || s2 == PlayerState::Idle) {
        PlayerState::MovingLeft
    } else {
        s2
    };
    let f2 = if input.left && s3 != PlayerState::SlidingToJump && s3 != PlayerState::Sliding {
        Facing::Left
    } else {
        f1
    };
    if on_wall_left {
        Facing::Left
    } else if on_wall_right {
        Facing::Right
    } else {
        f2
    }
}

/// One frame's effect on the jump-cooldown timer: an unfinished cooldown
/// ticks; a successful jump requires the ticked cooldown to have elapsed and
/// resets it to zero.
pub open spec fn cooldown_frame(pre: Timer, dt: u64, jumped: bool, post: Timer) -> bool {
    let ticked = cooldown_tick_spec(pre, dt);
    &&& post.duration == pre.duration
    &&& if jumped {
        ticked.is_finished() && post.elapsed == 0
    } else {
        post == ticked
    }
}

/// What one call of `move_player` reports back to the engine glue.
#[derive(Clone, Copy, PartialEq, Eq, Structural, Debug)]
pub struct MoveResult {
    pub jump: JumpKind,
    pub spring_force: i64,
}

impl MoveResult {
    pub open spec fn jumped(self) -> bool {
        self.jump != JumpKind::NoJump
    }

    pub open spec fn wall_jumped(self) -> bool {
        self.jump == JumpKind::WallJumpLeft || self.jump == JumpKind::WallJumpRight
    }
}

/// The inventory after `move_player`'s cooldown ticks, before any jump.
pub open spec fn inventory_after_ticks(inv: PlayerInventory, dt: u64) -> PlayerInventory {
    PlayerInventory {
        wall_jump_cd_left: cooldown_tick_spec(inv.wall_jump_cd_left, dt),
        wall_jump_cd_right: cooldown_tick_spec(inv.wall_jump_cd_right, dt),
        ..inv
    }
}

/// The inventory after the fired jump's bookkeeping: a wall jump starts that
/// side's cooldown and refills the double-jump charges, a double jump spends
/// a charge, a token jump spends a token.
pub open spec fn inventory_after_jump(inv: PlayerInventory, jump: JumpKind) -> PlayerInventory {
    match jump {
        JumpKind::WallJumpLeft => PlayerInventory {
            wall_jump_cd_left: Timer { elapsed: 0, duration: inv.wall_jump_cd_left.duration },
            extra_jumps: inv.max_extra_jumps,
            ..inv
        },
        JumpKind::WallJumpRight => PlayerInventory {
            wall_jump_cd_right: Timer { elapsed: 0, duration: inv.wall_jump_cd_right.duration },
            extra_jumps: inv.max_extra_jumps,
            ..inv
        },
        JumpKind::DoubleJump => PlayerInventory {
            extra_jumps: (inv.extra_jumps - 1) as usize,
            ..inv
        },
        JumpKind::TokenJump => PlayerInventory {
            air_jumps: (inv.air_jumps - 1) as usize,
            ..inv
        },
        _ => inv,
    }
}

/// Interprets one frame of input: ticks the jump and wall-jump cooldowns,
/// applies the held-key movement impulses and state transitions, resolves a
/// rising jump edge in the fixed priority order, clamps the wall-slide
/// descent, and damps the horizontal velocity. On frames where the player is
/// dead or the level is finished only the cooldowns advance.
///
/// `ground_ray` is the engine's downward ray-cast result (distance to the
/// first solid hit within `RAY_LENGTH`), used for the floor-snapping spring
/// force that the engine applies as an external force.
pub fn move_player(
    velocity: &mut Velocity2,
    facing: &mut Facing,
    inventory: &mut PlayerInventory,
    status: &mut PlayerStatus,
    state: &mut PlayerState,
    ground_ray: Option<i64>,
    input: PlayerInput,
    dt: u64,
) -> (r: MoveResult)
    requires
        old(inventory).wf(),
        coord_ok(old(velocity).x as int),
        coord_ok(old(velocity).y as int),
        ground_ray matches Some(toi) ==> 0 <= toi <= RAY_LENGTH,
    ensures
        final(inventory).wf(),
        coord_ok(final(velocity).x as int),
        final(velocity).y == old(velocity).y || final(velocity).y == JUMP_SPEED || final(velocity).y
            == -SLIDE_MAX_FALL,
        final(status).level_finished == old(status).level_finished,
        final(status).dead == old(status).dead,
        final(status).exiting == old(status).exiting,
        cooldown_frame(old(status).jump_cooldown, dt, r.jumped(), final(status).jump_cooldown),
        ({
            let blocked = old(status).dead || old(status).level_finished;
            let inv1 = inventory_after_ticks(*old(inventory), dt);
            let cd1 = cooldown_tick_spec(old(status).jump_cooldown, dt);
            let on_wall = old(inventory).on_wall_left || old(inventory).on_wall_right;
            let s1 = state_after_motion(*old(state), input, on_wall);
            let jump = if !blocked && input.jump_just_pressed && cd1.is_finished() {
                jump_kind(s1, inv1)
            } else {
                JumpKind::NoJump
            };
            let spring0 = spring_force_spec(ground_ray, *old(state), old(velocity).y as int);
            &&& r.jump == jump
            &&& r.spring_force == if jump != JumpKind::NoJump
                || !old(status).jump_cooldown.is_finished() {
                0
            } else {
                spring0
            }
            &&& *final(inventory) == if blocked {
                inv1
            } else {
                inventory_after_jump(inv1, jump)
            }
            &&& final(status).jump_cooldown == if jump != JumpKind::NoJump {
                Timer { elapsed: 0, duration: old(status).jump_cooldown.duration }
            } else {
                cd1
            }
            &&& *final(state) == if blocked {
                *old(state)
            } else if jump == JumpKind::WallJumpLeft || jump == JumpKind::WallJumpRight {
                PlayerState::SlidingToJump
            } else if jump != JumpKind::NoJump {
                PlayerState::Jumping
            } else {
                s1
            }
            &&& *final(facing) == if blocked {
                *old(facing)
            } else {
                facing_after_motion(
                    *old(facing),
                    *old(state),
                    input,
                    old(inventory).on_wall_left,
                    old(inventory).on_wall_right,
                )
            }
            &&& final(velocity).x == if blocked {
                old(velocity).x as int
            } else {
                damped(
                    old(velocity).x + (if input.right { MOVE_IMPULSE as int } else { 0 }) - (
                    if input.left {
                        MOVE_IMPULSE as int
                    } else {
                        0
                    }),
                )
            }
            &&& final(velocity).y == if blocked {
                old(velocity).y as int
            } else if jump != JumpKind::NoJump {
                JUMP_SPEED as int
            } else if on_wall && old(inventory).has_wall_jump && old(velocity).y < -SLIDE_MAX_FALL {
                -SLIDE_MAX_FALL as int
            } else {
                old(velocity).y as int
            }
        }),
{
    let mut spring_force = ground_spring_force(ground_ray, *state, velocity.y);
    let cooldown_was_finished = status.jump_cooldown.finished();
    if !cooldown_was_finished {
        status.jump_cooldown.tick(dt);
        spring_force = 0;
    }
    if !inventory.wall_jump_cd_left.finished() {
        inventory.wall_jump_cd_left.tick(dt);
    }
    if !inventory.wall_jump_cd_right.finished() {
        inventory.wall_jump_cd_right.tick(dt);
    }
    let on_wall = inventory.on_wall_left || inventory.on_wall_right;

    if status.dead || status.level_finished {
        return MoveResult { jump: JumpKind::NoJump, spring_force };
    }

    if input.right {
        velocity.x = velocity.x + MOVE_IMPULSE;
        if *state == PlayerState::MovingLeft || *state == PlayerState::Idle {
            *state = PlayerState::MovingRight;
        }
        if *state != PlayerState::SlidingToJump && *state != PlayerState::Sliding {
            *facing = Facing::Right;
        } else if *state == PlayerState::Sliding && !on_wall {
            *state = PlayerState::SlidingToJump;
        }
    }
    if input.left {
        velocity.x = velocity.x - MOVE_IMPULSE;
        if *state == PlayerState::MovingRight || *state == PlayerState::Idle {
            *state = PlayerState::MovingLeft;
        }
        if *state != PlayerState::SlidingToJump && *state != PlayerState::Sliding {
            *facing = Facing::Left;
        } else if *state == PlayerState::Sliding && !on_wall {
            *state = PlayerState::SlidingToJump;
        }
    }

    if inventory.on_wall_left {
        *facing = Facing::Left;
    } else if inventory.on_wall_right {
        *facing = Facing::Right;
    }

    if !(input.left || input.right) {
        if *state == PlayerState::MovingLeft || *state == PlayerState::MovingRight {
            *state = PlayerState::MovingToIdle;
        }
    }

    let mut jump = JumpKind::NoJump;
    if input.jump_just_pressed && status.jump_cooldown.finished() {
        if *state != PlayerState::Jumping && *state != PlayerState::Falling {
            jump = JumpKind::GroundJump;
        } else if inventory.has_wall_jump && inventory.on_wall_left
            && inventory.wall_jump_cd_left.finished() {
            jump = JumpKind::WallJumpLeft;
            inventory.wall_jump_cd_left.reset();
            inventory.extra_jumps = inventory.max_extra_jumps;
        } else if inventory.has_wall_jump && inventory.on_wall_right
            && inventory.wall_jump_cd_right.finished() {
            jump = JumpKind::WallJumpRight;
            inventory.wall_jump_cd_right.reset();
            inventory.extra_jumps = inventory.max_extra_jumps;
        } else if inventory.extra_jumps >= 1 {
            jump = JumpKind::DoubleJump;
            inventory.extra_jumps = inventory.extra_jumps - 1;
        } else if inventory.air_jumps >= 1 {
            jump = JumpKind::TokenJump;
            inventory.air_jumps = inventory.air_jumps - 1;
        }
        if jump != JumpKind::NoJump {
            velocity.y = JUMP_SPEED;
            if jump == JumpKind::WallJumpLeft || jump == JumpKind::WallJumpRight {
                *state = PlayerState::SlidingToJump;
            } else {
                *state = PlayerState::Jumping;
            }
            status.jump_cooldown.reset();
            spring_force = 0;
        }
    }

    if on_wall && inventory.has_wall_jump && velocity.y < -SLIDE_MAX_FALL {
        velocity.y = -SLIDE_MAX_FALL;
    }

    velocity.x = damp_horizontal(velocity.x);

    MoveResult { jump, spring_force }
}

/// Wraps the player, and the canonical camera with it, across the cyclic
/// level: a player who left the level to the left reappears one level-width
/// to the right and vice versa, and the camera is teleported by the same
/// amount so the viewport does not jump. A player within one level-width of
/// the level, as bounded per-frame movement guarantees, is back inside it
/// after this single step.
pub fn loop_player(player_x: &mut i64, camera_x: &mut i64, level_width: i64)
    requires
        coord_ok(*old(player_x) as int),
        cam_ok(*old(camera_x) as int),
        1 <= level_width <= COORD_LIMIT,
    ensures
        if *old(player_x) < 0 {
            *final(player_x) == *old(player_x) + level_width && *final(camera_x) == sat_cam(
                *old(camera_x) + level_width,
            )
        } else if *old(player_x) > level_width {
            *final(player_x) == *old(player_x) - level_width && *final(camera_x) == sat_cam(
                *old(camera_x) - level_width,
            )
        } else {
            *final(player_x) == *old(player_x) && *final(camera_x) == *old(camera_x)
        },
        -(level_width as int) <= *old(player_x) <= 2 * level_width ==> 0 <= *final(player_x)
            <= level_width,
{
    if *player_x < 0 {
        *player_x = *player_x + level_width;
        *camera_x = saturate_cam(*camera_x + level_width);
    } else if *player_x > level_width {
        *player_x = *player_x - level_width;
        *camera_x = saturate_cam(*camera_x - level_width);
    }
}

/// One frame of the player system as the jump cooldown sees it: the frame's
/// duration, whether a jump fired, and the cooldown after the frame.
/// `move_player` guarantees `cooldown_frame` between the cooldown before and
/// after every call, so a run of frames forms a trace in the sense of
/// `cooldown_trace_ok`.
pub struct CooldownFrame {
    pub dt: u64,
    pub jumped: bool,
    pub cd_after: Timer,
}

/// The cooldown entering frame `k` of a trace that started from `t0`.
pub open spec fn cooldown_pre(t0: Timer, fs: Seq<CooldownFrame>, k: int) -> Timer {
    if k == 0 {
        t0
    } else {
        fs[k - 1].cd_after
    }
}

/// Every frame of the trace obeys the per-frame cooldown relation that
/// `move_player` ensures.
pub open spec fn cooldown_trace_ok(t0: Timer, fs: Seq<CooldownFrame>) -> bool {
    forall|k: int|
        0 <= k < fs.len() ==> #[trigger] cooldown_frame(
            cooldown_pre(t0, fs, k),
            fs[k].dt,
            fs[k].jumped,
            fs[k].cd_after,
        )
}

/// Total frame time, in milliseconds, of the frames `i` up to but not
/// including `j`.
pub open spec fn dt_sum(fs: Seq<CooldownFrame>, i: int, j: int) -> int
    decreases j - i,
{
    if i >= j {
        0
    } else {
        fs[i].dt + dt_sum(fs, i + 1, j)
    }
}

proof fn lemma_dt_sum_nonneg(fs: Seq<CooldownFrame>, i: int, j: int)
    ensures
        dt_sum(fs, i, j) >= 0,
    decreases j - i,
{
    if i < j {
        lemma_dt_sum_nonneg(fs, i + 1, j);
    }
}

proof fn lemma_dt_sum_snoc(fs: Seq<CooldownFrame>, i: int, j: int)
    requires
        i <= j,
    ensures
        dt_sum(fs, i, j + 1) == dt_sum(fs, i, j) + fs[j].dt,
    decreases j - i,
{
    if i < j {
        lemma_dt_sum_snoc(fs, i + 1, j);
    } else {
        assert(dt_sum(fs, j + 1, j + 1) == 0);
    }
}

proof fn lemma_cooldown_duration_constant(t0: Timer, fs: Seq<CooldownFrame>, m: int)
    requires
        cooldown_trace_ok(t0, fs),
        0 <= m < fs.len(),
    ensures
        fs[m].cd_after.duration == t0.duration,
    decreases m,
{
    assert(cooldown_frame(cooldown_pre(t0, fs, m), fs[m].dt, fs[m].jumped, fs[m].cd_after));
    if m > 0 {
        lemma_cooldown_duration_constant(t0, fs, m - 1);
    }
}

proof fn lemma_cooldown_elapsed_bound(t0: Timer, fs: Seq<CooldownFrame>, i: int, m: int)
    requires
        cooldown_trace_ok(t0, fs),
        0 <= i <= m < fs.len(),
        fs[i].jumped,
    ensures
        fs[m].cd_after.elapsed <= dt_sum(fs, i + 1, m + 1),
    decreases m - i,
{
    assert(cooldown_frame(cooldown_pre(t0, fs, m), fs[m].dt, fs[m].jumped, fs[m].cd_after));
    lemma_dt_sum_nonneg(fs, i + 1, m + 1);
    if m > i {
        lemma_cooldown_elapsed_bound(t0, fs, i, m - 1);
        lemma_dt_sum_snoc(fs, i + 1, m);
    }
}

proof fn lemma_trace_frame(t0: Timer, fs: Seq<CooldownFrame>, k: int)
    requires
        cooldown_trace_ok(t0, fs),
        0 <= k < fs.len(),
    ensures
        cooldown_frame(cooldown_pre(t0, fs, k), fs[k].dt, fs[k].jumped, fs[k].cd_after),
{
    assert(cooldown_frame(cooldown_pre(t0, fs, k), fs[k].dt, fs[k].jumped, fs[k].cd_after));
}

/// Jump-cooldown spacing: along any run of frames that each satisfy the
/// per-frame cooldown relation of `move_player`, two successful jump
/// initiations are always at least one cooldown duration of frame time
/// apart. The time separating the jump of frame `i` from the jump of frame
/// `j` is the total duration of the frames after `i` up to and including
/// `j`.
pub proof fn lemma_jump_cooldown_spacing(t0: Timer, fs: Seq<CooldownFrame>, i: int, j: int)
    requires
        cooldown_trace_ok(t0, fs),
        0 <= i < j < fs.len(),
        fs[i].jumped,
        fs[j].jumped,
    ensures
        dt_sum(fs, i + 1, j + 1) >= t0.duration,
{
    lemma_trace_frame(t0, fs, j);
    lemma_cooldown_elapsed_bound(t0, fs, i, j - 1);
    lemma_cooldown_duration_constant(t0, fs, j - 1);
    lemma_dt_sum_snoc(fs, i + 1, j);
    let pre = fs[j - 1].cd_after;
    if pre.is_finished() {
        assert(dt_sum(fs, i + 1, j) >= pre.duration);
    } else {
        assert(pre.elapsed + fs[j].dt >= pre.duration);
    }
}

} // verus!
