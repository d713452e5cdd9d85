//! Interactable-entity rules that touch the player's inventory: jump tokens
//! with their respawn timer, key-locked doors, and levers that toggle
//! platforms. The engine's sensor queries decide *whether* the player
//! touches an entity; the functions here decide what that contact does.

use vstd::prelude::*;

use crate::player::PlayerInventory;
use crate::timer::{tick_spec, Timer};

verus! {

/// Milliseconds before a consumed jump token reappears.
pub const TOKEN_RESPAWN_MS: u64 = 5_000;

/// One consumable jump-token pickup: whether it is present, and the timer
/// that brings it back after it was taken.
#[derive(Clone, Copy, PartialEq, Eq, Structural, Debug)]
pub struct JumpTokenStatus {
    pub active: bool,
    pub timer: Timer,
}

impl JumpTokenStatus {
    /// A fresh token: present, respawn timer idle.
    pub fn new() -> (t: JumpTokenStatus)
        ensures
            t == (JumpTokenStatus { active: true, timer: Timer { elapsed: 0, duration: TOKEN_RESPAWN_MS } }),
    {
        JumpTokenStatus { active: true, timer: Timer::new(TOKEN_RESPAWN_MS) }
    }
}

/// One frame of one jump token. A touched active token grants the player a
/// single-use air jump and disappears; a consumed token runs its respawn
/// timer and reappears, timer rewound, the moment it finishes.
pub fn check_jump_token_acquire(
    token: &mut JumpTokenStatus,
    inventory: &mut PlayerInventory,
    touching_player: bool,
    dt: u64,
) -> (acquired: bool)
    requires
        old(inventory).wf(),
        old(inventory).air_jumps < usize::MAX,
    ensures
        final(inventory).wf(),
        acquired == (touching_player && old(token).active),
        *final(inventory) == if acquired {
            PlayerInventory { air_jumps: (old(inventory).air_jumps + 1) as usize, ..*old(inventory) }
        } else {
            *old(inventory)
        },
        *final(token) == if acquired {
            JumpTokenStatus { active: false, timer: old(token).timer }
        } else if !old(token).active {
            let ticked = tick_spec(old(token).timer, dt);
            if ticked.is_finished() && !old(token).timer.is_finished() {
                JumpTokenStatus {
                    active: true,
                    timer: Timer { elapsed: 0, duration: old(token).timer.duration },
                }
            } else {
                JumpTokenStatus { active: false, timer: ticked }
            }
        } else {
            *old(token)
        },
{
    if touching_player && token.active {
        inventory.add_air_jump();
        token.active = false;
        true
    } else if !token.active {
        let just_finished = token.timer.tick(dt);
        if just_finished {
            token.timer.reset();
            token.active = true;
        }
        false
    } else {
        false
    }
}

/// Whether a door has been unlocked; an unlocked door stays open.
#[derive(Clone, Copy, PartialEq, Eq, Structural, Debug)]
pub struct DoorState {
    pub unlocked: bool,
}

/// One frame of one door. Pressing the interact key against a door with a
/// key in hand spends the key and unlocks the door; without a key nothing
/// happens. Unlocking is a checkpoint-worthy progress event, which the
/// return value reports.
pub fn check_door_interacting(
    door: &mut DoorState,
    inventory: &mut PlayerInventory,
    touching_player: bool,
    interact_pressed: bool,
) -> (unlocked_now: bool)
    requires
        old(inventory).wf(),
    ensures
        final(inventory).wf(),
        unlocked_now == (interact_pressed && touching_player && old(inventory).num_keys >= 1),
        *final(inventory) == if unlocked_now {
            PlayerInventory { num_keys: (old(inventory).num_keys - 1) as usize, ..*old(inventory) }
        } else {
            *old(inventory)
        },
        *final(door) == if unlocked_now {
            DoorState { unlocked: true }
        } else {
            *old(door)
        },
{
    if !interact_pressed || !touching_player {
        return false;
    }
    if inventory.has_key() {
        inventory.use_key();
        door.unlocked = true;
        true
    } else {
        false
    }
}

/// A lever's identity and position; levers and platforms with the same
/// identifier belong together.
#[derive(Clone, Copy, PartialEq, Eq, Structural, Debug)]
pub struct LeverState {
    pub id: usize,
    pub activated: bool,
}

/// One toggleable platform: its lever identifier and whether its colliders
/// are present.
#[derive(Clone, Copy, PartialEq, Eq, Structural, Debug)]
pub struct PlatformInfo {
    pub id: usize,
    pub active: bool,
}

/// One frame of one lever. Pressing the interact key against the lever
/// flips it and every platform that shares its identifier; other platforms
/// are untouched. Pulling a lever is a checkpoint-worthy progress event,
/// which the return value reports.
#[verifier::loop_isolation(false)]
pub fn check_lever_interacting(
    lever: &mut LeverState,
    platforms: &mut Vec<PlatformInfo>,
    touching_player: bool,
    interact_pressed: bool,
) -> (toggled: bool)
    ensures
        toggled == (interact_pressed && touching_player),
        *final(lever) == if toggled {
            LeverState { activated: !old(lever).activated, ..*old(lever) }
        } else {
            *old(lever)
        },
        final(platforms).len() == old(platforms).len(),
        forall|k: int|
            0 <= k < old(platforms).len() ==> final(platforms)[k] == if toggled
                && (#[trigger] old(platforms)[k]).id == old(lever).id {
                PlatformInfo { active: !old(platforms)[k].active, ..old(platforms)[k] }
            } else {
                old(platforms)[k]
            },
{
    if !interact_pressed || !touching_player {
        return false;
    }
    lever.activated = !lever.activated;
    let ghost platforms0 = *old(platforms);
    let mut k: usize = 0;
    while k < platforms.len()
        invariant
            0 <= k <= platforms.len(),
            platforms.len() == platforms0.len(),
            forall|m: int|
                0 <= m < k ==> platforms[m] == if (#[trigger] platforms0[m]).id == old(lever).id {
                    PlatformInfo { active: !platforms0[m].active, ..platforms0[m] }
                } else {
                    platforms0[m]
                },
            forall|m: int|
                k <= m < platforms.len() ==> #[trigger] platforms[m] == platforms0[m],
        decreases platforms.len() - k,
    {
        let p = platforms[k];
        if p.id == lever.id {
            platforms[k] = PlatformInfo { id: p.id, active: !p.active };
        }
        k = k + 1;
    }
    true
}

} // verus!
