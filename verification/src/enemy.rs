//! The enemy population: how many enemies one spawn trigger adds under the cap.

use vstd::prelude::*;
use crate::animations::{AnimationTimer, SpriteFrame, ENEMY_BAND};
use crate::constants::{ENEMY_SPAWN_AT_ONCE, MAX_NUM_ENEMIES, SPAWN_LAYER};

verus! {

/// The burst that one trigger adds to a population of `num_enemies`: what is
/// left under the cap, at most one burst's worth, and nothing at or above
/// the cap.
pub open spec fn burst_size(num_enemies: nat) -> nat {
    if num_enemies >= MAX_NUM_ENEMIES {
        0
    } else if MAX_NUM_ENEMIES - num_enemies < ENEMY_SPAWN_AT_ONCE {
        (MAX_NUM_ENEMIES - num_enemies) as nat
    } else {
        ENEMY_SPAWN_AT_ONCE as nat
    }
}

/// The population after `triggers` spawn triggers in a row.
pub open spec fn population_after(num_enemies: nat, triggers: nat) -> nat
    decreases triggers,
{
    if triggers == 0 {
        num_enemies
    } else {
        let before = population_after(num_enemies, (triggers - 1) as nat);
        before + burst_size(before)
    }
}

/// What a new enemy starts with, its place in the world aside.
#[derive(Clone, Copy, Debug)]
pub struct EnemySpawn {
    pub sprite: SpriteFrame,
    pub timer: AnimationTimer,
    pub layer: u8,
}

impl EnemySpawn {
    /// A new enemy shows the first cell of the enemies' strip, unmirrored,
    /// has an animation timer of its own at the start of its period, and
    /// stands on the spawn layer.
    pub open spec fn fresh(self) -> bool {
        &&& self.sprite == (SpriteFrame { index: ENEMY_BAND, flip_x: false, flip_y: false })
        &&& self.timer.elapsed() == 0
        &&& !self.timer.is_finished()
        &&& self.layer == SPAWN_LAYER
    }

    /// One new enemy.
    pub fn new() -> (enemy: Self)
        ensures
            enemy.fresh(),
    {
        EnemySpawn {
            sprite: SpriteFrame { index: ENEMY_BAND, flip_x: false, flip_y: false },
            timer: AnimationTimer::new(),
            layer: SPAWN_LAYER,
        }
    }
}

/// How many enemies a spawn trigger adds: none while there is no player,
/// otherwise the burst for this one reading of the enemy count.
fn spawn_count(player_present: bool, num_enemies: usize) -> (count: usize)
    ensures
        count == (if player_present {
            burst_size(num_enemies as nat)
        } else {
            0
        }),
{
    if !player_present || num_enemies >= MAX_NUM_ENEMIES {
        return 0;
    }
    let room = MAX_NUM_ENEMIES - num_enemies;
    if room < ENEMY_SPAWN_AT_ONCE {
        room
    } else {
        ENEMY_SPAWN_AT_ONCE
    }
}

/// The enemies that a spawn trigger creates. Nothing is spawned while there
/// is no player or the population has reached the cap; otherwise one burst,
/// cut to the room that this one reading of the enemy count leaves under the
/// cap. Every new enemy is fresh; the caller gives each a place.
pub fn spawn_enemy(player_present: bool, num_enemies: usize) -> (spawned: Vec<EnemySpawn>)
    ensures
        spawned.len() == (if player_present {
            burst_size(num_enemies as nat)
        } else {
            0
        }),
        forall|i: int| 0 <= i < spawned.len() ==> (#[trigger] spawned[i]).fresh(),
{
    let count = spawn_count(player_present, num_enemies);
    let mut spawned: Vec<EnemySpawn> = Vec::new();
    while spawned.len() < count
        invariant
            spawned.len() <= count,
            forall|i: int| 0 <= i < spawned.len() ==> (#[trigger] spawned[i]).fresh(),
        decreases count - spawned.len(),
    {
        spawned.push(EnemySpawn::new());
    }
    spawned
}

/// Under the cap one trigger adds the smaller of the room that is left and
/// the burst size, and the population stays under the cap.
pub proof fn lemma_burst_fits(num_enemies: nat)
    requires
        num_enemies <= MAX_NUM_ENEMIES,
    ensures
        burst_size(num_enemies) == vstd::math::min(
            MAX_NUM_ENEMIES - num_enemies,
            ENEMY_SPAWN_AT_ONCE as int,
        ),
        num_enemies + burst_size(num_enemies) <= MAX_NUM_ENEMIES,
{
}

/// However often the trigger comes, a population that starts under the cap
/// never exceeds it: it grows by full bursts until it reaches the cap and
/// stays there.
pub proof fn lemma_population_capped(num_enemies: nat, triggers: nat)
    requires
        num_enemies <= MAX_NUM_ENEMIES,
    ensures
        population_after(num_enemies, triggers) <= MAX_NUM_ENEMIES,
        population_after(num_enemies, triggers) == vstd::math::min(
            MAX_NUM_ENEMIES as int,
            num_enemies + triggers * ENEMY_SPAWN_AT_ONCE,
        ),
    decreases triggers,
{
    if triggers > 0 {
        lemma_population_capped(num_enemies, (triggers - 1) as nat);
        assert(triggers * ENEMY_SPAWN_AT_ONCE == (triggers - 1) * ENEMY_SPAWN_AT_ONCE
            + ENEMY_SPAWN_AT_ONCE) by (nonlinear_arith);
    }
}

} // verus!
