//! Tunable constants of the simulation, in integer units.

use vstd::prelude::*;

verus! {

/// Number of ground decorations scattered at world start.
pub const NUM_WORLD_DECORATIONS: usize = 1000;

/// Which diagnostics the host prints on each tick.
pub struct Debug {
    pub cursor_position: bool,
    pub player_position: bool,
}

/// The diagnostics that are switched on: the cursor position, not the player's.
pub fn debug() -> (flags: Debug)
    ensures
        flags.cursor_position,
        !flags.player_position,
{
    Debug { cursor_position: true, player_position: false }
}

/// The background colour, as red, green and blue in sRGB.
pub fn bg_color() -> (rgb: (u8, u8, u8))
    ensures
        rgb == (200u8, 204u8, 180u8),
{
    (200, 204, 180)
}

/// Columns of the sprite sheet, which is also the length of one animation strip.
pub const SPRITE_SHEET_WIDTH: u32 = 5;

/// Rows of the sprite sheet.
pub const SPRITE_SHEET_HEIGHT: u32 = 5;

/// Display depth of the ground decorations.
pub const GROUND_LAYER: u8 = 0;

/// Display depth at which enemies and projectiles are created.
pub const SPAWN_LAYER: u8 = 1;

/// Display depth of the gun, of flying projectiles and of the moving player.
pub const FRONT_LAYER: u8 = 10;

/// Period of every animation timer: a tenth of a second.
pub const ANIMATION_PERIOD_NANOS: u64 = 100_000_000;

/// Cooldown that must have accumulated before the gun fires again: one second.
pub const GUN_TIMEOUT_NANOS: u64 = 1_000_000_000;

/// Time between two spawn triggers: one second.
pub const ENEMY_SPAWN_INTERVAL_NANOS: u64 = 1_000_000_000;

/// Most enemies alive at once.
pub const MAX_NUM_ENEMIES: usize = 800;

/// Most enemies created by one spawn trigger.
pub const ENEMY_SPAWN_AT_ONCE: usize = 20;

} // verus!
