//! The rules of a top-down arena shooter, verified with Verus.
//!
//! The library decides what each system of the simulation does on a tick:
//! which way the player heads, when the gun fires, how many enemies a spawn
//! trigger adds, which animation frame and mirror flags a sprite shows. All
//! of it is stated over integers and booleans. Positions and angles are the
//! host's: it reads the devices and the clock, hands the library plain
//! values, and applies what comes back to its entities.
//!
//! - [`constants`]: the tunable numbers of the rules.
//! - [`clock`]: the time of a tick, in the unit that the timers take.
//! - [`player`]: movement input and the player's movement state.
//! - [`gun`]: the cooldown that gates each shot.
//! - [`enemy`]: the capped, burst-wise growth of the enemy population.
//! - [`animations`]: animation timers, frames and mirror flags.
//! - [`decorations`]: what the world starts with.

pub mod animations;
pub mod clock;
pub mod constants;
pub mod decorations;
pub mod enemy;
pub mod gun;
pub mod player;
