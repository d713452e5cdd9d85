//! The HUD inventory strip: which icon each of its fifteen slots shows for
//! a given inventory, and which background piece sits under each slot. The
//! engine glue only places the returned icons on screen.

use vstd::prelude::*;

use crate::player::PlayerInventory;

verus! {

/// Number of icon slots the HUD strip has.
pub const MAX_HUD_ICONS: usize = 15;

/// What one HUD slot shows: an empty slot, an inventory icon, or a piece of
/// the strip's background.
#[derive(Clone, Copy, PartialEq, Eq, Structural, Debug)]
pub enum HudIcon {
    Empty,
    Key,
    DoubleJump,
    WallJump,
    JumpToken,
    BgLeft,
    BgCenter,
    BgRight,
}

/// How many slots the inventory fills, the leading empty slot included: one
/// wall-jump icon if unlocked, one double-jump icon per granted charge, one
/// key icon per key, one token icon per air jump in hand.
pub open spec fn hud_item_count(inv: PlayerInventory) -> int {
    1 + (if inv.has_wall_jump {
        1int
    } else {
        0int
    }) + inv.max_extra_jumps + inv.num_keys + inv.air_jumps
}

/// The icon of slot `i`: the leading empty slot, then the wall-jump,
/// double-jump, key and token icons in that order, then empty padding.
pub open spec fn hud_icon_at(inv: PlayerInventory, i: int) -> HudIcon {
    let wj: int = if inv.has_wall_jump {
        1
    } else {
        0
    };
    if i < 1 {
        HudIcon::Empty
    } else if i < 1 + wj {
        HudIcon::WallJump
    } else if i < 1 + wj + inv.max_extra_jumps {
        HudIcon::DoubleJump
    } else if i < 1 + wj + inv.max_extra_jumps + inv.num_keys {
        HudIcon::Key
    } else if i < hud_item_count(inv) {
        HudIcon::JumpToken
    } else {
        HudIcon::Empty
    }
}

/// Index of the background strip's right cap: one past the last filled
/// slot, but at least two so the strip never collapses.
pub open spec fn hud_last_index(inv: PlayerInventory) -> int {
    if hud_item_count(inv) < 2 {
        2
    } else {
        hud_item_count(inv)
    }
}

/// Computes the fifteen HUD slots for an inventory, and the index of the
/// background's right cap.
#[verifier::loop_isolation(false)]
pub fn update_hud(inventory: &PlayerInventory) -> (r: (Vec<HudIcon>, usize))
    requires
        hud_item_count(*inventory) <= MAX_HUD_ICONS,
    ensures
        r.0.len() == MAX_HUD_ICONS,
        forall|i: int| 0 <= i < MAX_HUD_ICONS ==> r.0@[i] == hud_icon_at(*inventory, i),
        r.1 == hud_last_index(*inventory),
{
    let mut icons: Vec<HudIcon> = Vec::new();
    icons.push(HudIcon::Empty);
    let mut last_ind: usize = 1;
    if inventory.has_wall_jump {
        icons.push(HudIcon::WallJump);
        last_ind = last_ind + 1;
    }
    let mut j: usize = 0;
    while j < inventory.max_extra_jumps
        invariant
            0 <= j <= inventory.max_extra_jumps,
            icons.len() == 1 + (if inventory.has_wall_jump { 1int } else { 0int }) + j,
            last_ind == icons.len(),
            forall|i: int| 0 <= i < icons.len() ==> icons@[i] == hud_icon_at(*inventory, i),
        decreases inventory.max_extra_jumps - j,
    {
        icons.push(HudIcon::DoubleJump);
        last_ind = last_ind + 1;
        j = j + 1;
    }
    let mut j: usize = 0;
    while j < inventory.num_keys
        invariant
            0 <= j <= inventory.num_keys,
            icons.len() == 1 + (if inventory.has_wall_jump { 1int } else { 0int })
                + inventory.max_extra_jumps + j,
            last_ind == icons.len(),
            forall|i: int| 0 <= i < icons.len() ==> icons@[i] == hud_icon_at(*inventory, i),
        decreases inventory.num_keys - j,
    {
        icons.push(HudIcon::Key);
        last_ind = last_ind + 1;
        j = j + 1;
    }
    let mut j: usize = 0;
    while j < inventory.air_jumps
        invariant
            0 <= j <= inventory.air_jumps,
            icons.len() == 1 + (if inventory.has_wall_jump { 1int } else { 0int })
                + inventory.max_extra_jumps + inventory.num_keys + j,
            last_ind == icons.len(),
            forall|i: int| 0 <= i < icons.len() ==> icons@[i] == hud_icon_at(*inventory, i),
        decreases inventory.air_jumps - j,
    {
        icons.push(HudIcon::JumpToken);
        last_ind = last_ind + 1;
        j = j + 1;
    }
    if last_ind < 2 {
        last_ind = 2;
    }
    while icons.len() < MAX_HUD_ICONS
        invariant
            hud_item_count(*inventory) <= icons.len() <= MAX_HUD_ICONS,
            forall|i: int| 0 <= i < icons.len() ==> icons@[i] == hud_icon_at(*inventory, i),
        decreases MAX_HUD_ICONS - icons.len(),
    {
        icons.push(HudIcon::Empty);
    }
    (icons, last_ind)
}

/// The background piece under slot `index`: a left cap at the start, a
/// right cap one past the last filled slot, middle pieces between them, and
/// nothing beyond.
pub fn hud_background_icon(index: usize, last_ind: usize) -> (icon: HudIcon)
    ensures
        icon == if index == 0 {
            HudIcon::BgLeft
        } else if index == last_ind {
            HudIcon::BgRight
        } else if index < last_ind {
            HudIcon::BgCenter
        } else {
            HudIcon::Empty
        },
{
    if index == 0 {
        HudIcon::BgLeft
    } else if index == last_ind {
        HudIcon::BgRight
    } else if index < last_ind {
        HudIcon::BgCenter
    } else {
        HudIcon::Empty
    }
}

} // verus!
