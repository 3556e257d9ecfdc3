//! Movement input: which way the player heads on a tick, and whether it moves at all.

use vstd::prelude::*;
use crate::animations::{AnimationTimer, SpriteFrame};

verus! {

/// The cell of the sprite sheet that the player starts with.
pub const PLAYER_SPRITE_INDEX: usize = 0;

/// Whether the player moved on the last tick; selects the animation strip.
#[derive(Clone, Copy, Debug, PartialEq, Eq, Structural)]
pub enum PlayerState {
    Idle,
    Moving,
}

impl Default for PlayerState {
    fn default() -> (state: Self)
        ensures
            state == PlayerState::Idle,
    {
        PlayerState::Idle
    }
}

/// What the player is created with, its place in the world aside.
#[derive(Clone, Copy, Debug)]
pub struct PlayerSpawn {
    pub sprite: SpriteFrame,
    pub timer: AnimationTimer,
    pub state: PlayerState,
}

impl PlayerSpawn {
    /// The player starts on its first cell, unmirrored, idle, with an
    /// animation timer at the start of its period.
    pub open spec fn fresh(self) -> bool {
        &&& self.sprite == (SpriteFrame {
            index: PLAYER_SPRITE_INDEX,
            flip_x: false,
            flip_y: false,
        })
        &&& self.timer.elapsed() == 0
        &&& !self.timer.is_finished()
        &&& self.state == PlayerState::Idle
    }

    /// The player as the world starts with it.
    pub fn new() -> (player: Self)
        ensures
            player.fresh(),
    {
        PlayerSpawn {
            sprite: SpriteFrame { index: PLAYER_SPRITE_INDEX, flip_x: false, flip_y: false },
            timer: AnimationTimer::new(),
            state: PlayerState::default(),
        }
    }
}

/// The four directional flags of one tick.
#[derive(Clone, Copy, Debug, PartialEq, Eq, Structural)]
pub struct DirectionKeys {
    pub up: bool,
    pub left: bool,
    pub down: bool,
    pub right: bool,
}

/// One step along an axis: +1 for the positive key alone, -1 for the negative
/// key alone, 0 when neither or both are held.
pub open spec fn axis(positive: bool, negative: bool) -> int {
    (if positive { 1int } else { 0int }) - (if negative { 1int } else { 0int })
}

impl DirectionKeys {
    /// Horizontal component of the summed directions.
    pub open spec fn dx(self) -> int {
        axis(self.right, self.left)
    }

    /// Vertical component of the summed directions.
    pub open spec fn dy(self) -> int {
        axis(self.up, self.down)
    }

    /// Some flag is held.
    pub open spec fn any(self) -> bool {
        self.up || self.left || self.down || self.right
    }

    /// Opposite flags cancel pairwise, leaving no direction.
    pub open spec fn cancelled(self) -> bool {
        self.up == self.down && self.left == self.right
    }

    /// Folds the two key bindings of each direction into one flag: a direction
    /// is held when its letter key or its arrow key is.
    pub fn from_bindings(
        key_w: bool,
        arrow_up: bool,
        key_a: bool,
        arrow_left: bool,
        key_s: bool,
        arrow_down: bool,
        key_d: bool,
        arrow_right: bool,
    ) -> (keys: Self)
        ensures
            keys.up == (key_w || arrow_up),
            keys.left == (key_a || arrow_left),
            keys.down == (key_s || arrow_down),
            keys.right == (key_d || arrow_right),
    {
        DirectionKeys {
            up: key_w || arrow_up,
            left: key_a || arrow_left,
            down: key_s || arrow_down,
            right: key_d || arrow_right,
        }
    }
}

/// What the movement integrator decided for one tick: the summed direction,
/// still to be normalised and scaled by the player's speed, and the state that
/// the animation reads.
#[derive(Clone, Copy, Debug, PartialEq, Eq, Structural)]
pub struct PlayerStep {
    pub dx: i8,
    pub dy: i8,
    pub state: PlayerState,
}

/// Sums the held directions. The player is `Moving` exactly when the sum is
/// not the zero vector, so keys that cancel each other leave it `Idle` and
/// the caller never normalises a zero-length vector.
pub fn handle_player_input(keys: DirectionKeys) -> (step: PlayerStep)
    ensures
        step.dx == keys.dx(),
        step.dy == keys.dy(),
        step.state == (if keys.cancelled() {
            PlayerState::Idle
        } else {
            PlayerState::Moving
        }),
{
    let mut dx: i8 = 0;
    let mut dy: i8 = 0;
    if keys.up {
        dy = dy + 1;
    }
    if keys.left {
        dx = dx - 1;
    }
    if keys.down {
        dy = dy - 1;
    }
    if keys.right {
        dx = dx + 1;
    }
    let state = if dx == 0 && dy == 0 {
        PlayerState::Idle
    } else {
        PlayerState::Moving
    };
    PlayerStep { dx, dy, state }
}

/// The summed direction is the zero vector exactly when every held key is
/// cancelled by its opposite (in particular when none is held); otherwise its
/// squared length is 1 or 2, so it has a direction to normalise.
pub proof fn lemma_summed_direction_length(keys: DirectionKeys)
    ensures
        keys.cancelled() <==> keys.dx() * keys.dx() + keys.dy() * keys.dy() == 0,
        !keys.cancelled() ==> {
            let len2 = keys.dx() * keys.dx() + keys.dy() * keys.dy();
            len2 == 1 || len2 == 2
        },
        !keys.any() ==> keys.cancelled(),
{
    let dx = keys.dx();
    let dy = keys.dy();
    assert(dx * dx == (if dx == 0 { 0int } else { 1int })) by (nonlinear_arith)
        requires
            -1 <= dx <= 1,
    ;
    assert(dy * dy == (if dy == 0 { 0int } else { 1int })) by (nonlinear_arith)
        requires
            -1 <= dy <= 1,
    ;
}

} // verus!
