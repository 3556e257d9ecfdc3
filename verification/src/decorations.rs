//! World setup: the ground decorations, and the player and the gun that the
//! world starts with.

use rand::Rng;
use vstd::prelude::*;
use crate::constants::{GROUND_LAYER, NUM_WORLD_DECORATIONS};
use crate::gun::GunSpawn;
use crate::player::PlayerSpawn;

verus! {

/// First of the sprite sheet's decoration cells.
pub const DECORATION_SPRITE_FIRST: usize = 20;

/// Last of the sprite sheet's decoration cells.
pub const DECORATION_SPRITE_LAST: usize = 21;

/// Draws from the thread's generator, `rand::rng()`, with
/// `Rng::random_range` on the inclusive range from `low` to `high`. Claimed
/// of the draw is only that it lies in that range. `random_range` panics on an
/// empty range, which the precondition excludes.
#[verifier::external_body]
fn random_in_range(low: usize, high: usize) -> (drawn: usize)
    requires
        low <= high,
    ensures
        low <= drawn <= high,
{
    rand::rng().random_range(low..=high)
}

/// Picks the sprite of one ground decoration at random among the decoration
/// cells of the sprite sheet.
pub fn decoration_sprite_index() -> (index: usize)
    ensures
        DECORATION_SPRITE_FIRST <= index <= DECORATION_SPRITE_LAST,
{
    random_in_range(DECORATION_SPRITE_FIRST, DECORATION_SPRITE_LAST)
}

/// What a ground decoration is created with, its place in the world aside.
#[derive(Clone, Copy, Debug, PartialEq, Eq, Structural)]
pub struct DecorationSpawn {
    pub index: usize,
    pub layer: u8,
}

impl DecorationSpawn {
    /// A decoration shows one of the decoration cells and lies on the ground
    /// layer.
    pub open spec fn valid(self) -> bool {
        &&& DECORATION_SPRITE_FIRST <= self.index <= DECORATION_SPRITE_LAST
        &&& self.layer == GROUND_LAYER
    }
}

/// The decorations scattered at world start: the full number of them, each
/// with a sprite picked at random. The caller gives each a place.
pub fn spawn_world_decorations() -> (decorations: Vec<DecorationSpawn>)
    ensures
        decorations.len() == NUM_WORLD_DECORATIONS,
        forall|i: int| 0 <= i < decorations.len() ==> (#[trigger] decorations[i]).valid(),
{
    let mut decorations: Vec<DecorationSpawn> = Vec::new();
    while decorations.len() < NUM_WORLD_DECORATIONS
        invariant
            decorations.len() <= NUM_WORLD_DECORATIONS,
            forall|i: int| 0 <= i < decorations.len() ==> (#[trigger] decorations[i]).valid(),
        decreases NUM_WORLD_DECORATIONS - decorations.len(),
    {
        decorations.push(DecorationSpawn { index: decoration_sprite_index(), layer: GROUND_LAYER });
    }
    decorations
}

/// The entities that the simulation needs from the start: one player and
/// one gun, both fresh.
pub fn init_world() -> (world: (PlayerSpawn, GunSpawn))
    ensures
        world.0.fresh(),
        world.1.fresh(),
{
    (PlayerSpawn::new(), GunSpawn::new())
}

} // verus!
