//! Sprite animation: the repeating timer of each animated entity, the frame
//! it shows, and the mirror flags.

use vstd::prelude::*;
use crate::constants::{ANIMATION_PERIOD_NANOS, SPRITE_SHEET_WIDTH};
use crate::player::PlayerState;

verus! {

/// First cell of the strip shown while the player moves.
pub const PLAYER_MOVING_BAND: usize = 0;

/// First cell of the strip shown while the player stands.
pub const PLAYER_IDLE_BAND: usize = 5;

/// First cell of the enemies' strip.
pub const ENEMY_BAND: usize = 10;

/// A repeating timer with the fixed animation period. Each entity owns its
/// own. It counts the periods that each tick completes, however long the
/// tick, and carries the remainder into the next period.
#[derive(Clone, Copy, Debug)]
pub struct AnimationTimer {
    elapsed_nanos: u64,
    times_finished: u64,
}

/// The period of the animation timers, as a number.
#[verifier::inline]
pub open spec fn period() -> nat {
    ANIMATION_PERIOD_NANOS as nat
}

/// The length of an animation strip, as a number.
#[verifier::inline]
pub open spec fn strip_length() -> nat {
    SPRITE_SHEET_WIDTH as nat
}

/// How many periods a tick of `delta` nanoseconds completes, coming `elapsed`
/// nanoseconds into a period.
pub open spec fn periods_in_tick(elapsed: nat, delta: u64) -> nat {
    (elapsed + delta as nat) / period()
}

/// The time into the period after a tick: what is left over once the whole
/// periods are taken out.
pub open spec fn elapsed_after_tick(elapsed: nat, delta: u64) -> nat {
    (elapsed + delta as nat) % period()
}

impl AnimationTimer {
    #[verifier::type_invariant]
    spec fn within_period(self) -> bool {
        self.elapsed_nanos < ANIMATION_PERIOD_NANOS
    }

    /// Time into the current period, in nanoseconds.
    pub closed spec fn elapsed(self) -> nat {
        self.elapsed_nanos as nat
    }

    /// How many periods the last tick completed.
    pub closed spec fn completed(self) -> nat {
        self.times_finished as nat
    }

    /// The last tick completed a period.
    pub open spec fn is_finished(self) -> bool {
        self.completed() > 0
    }

    /// A timer at the start of its first period.
    pub fn new() -> (timer: Self)
        ensures
            timer.elapsed() == 0,
            timer.completed() == 0,
    {
        AnimationTimer { elapsed_nanos: 0, times_finished: 0 }
    }

    /// Advances the timer by one tick's time.
    pub fn tick(&mut self, delta_nanos: u64)
        ensures
            final(self).completed() == periods_in_tick(old(self).elapsed(), delta_nanos),
            final(self).elapsed() == elapsed_after_tick(old(self).elapsed(), delta_nanos),
    {
        proof {
            use_type_invariant(&*self);
        }
        let total: u128 = self.elapsed_nanos as u128 + delta_nanos as u128;
        let periods = total / (ANIMATION_PERIOD_NANOS as u128);
        let rest = total % (ANIMATION_PERIOD_NANOS as u128);
        assert(periods <= u64::MAX) by {
            assert(periods == total / 100_000_000);
            assert(total < 100_000_000 + 0x1_0000_0000_0000_0000);
        }
        self.elapsed_nanos = rest as u64;
        self.times_finished = periods as u64;
    }

    /// Whether the last tick completed a period.
    pub fn finished(&self) -> (finished: bool)
        ensures
            finished == self.is_finished(),
    {
        self.times_finished > 0
    }

    /// How many periods the last tick completed.
    pub fn times_finished(&self) -> (periods: u64)
        ensures
            periods == self.completed(),
    {
        self.times_finished
    }

    /// Time into the current period, in nanoseconds.
    pub fn elapsed_nanos(&self) -> (nanos: u64)
        ensures
            nanos == self.elapsed(),
            nanos < period(),
    {
        proof {
            use_type_invariant(self);
        }
        self.elapsed_nanos
    }
}

/// The time into the period after a run of ticks.
pub open spec fn elapsed_after_ticks(elapsed: nat, deltas: Seq<u64>) -> nat
    decreases deltas.len(),
{
    if deltas.len() == 0 {
        elapsed
    } else {
        elapsed_after_tick(elapsed_after_ticks(elapsed, deltas.drop_last()), deltas.last())
    }
}

/// How many periods the ticks of a run complete, all told.
pub open spec fn periods_in_ticks(elapsed: nat, deltas: Seq<u64>) -> nat
    decreases deltas.len(),
{
    if deltas.len() == 0 {
        0
    } else {
        let before = deltas.drop_last();
        periods_in_ticks(elapsed, before) + periods_in_tick(
            elapsed_after_ticks(elapsed, before),
            deltas.last(),
        )
    }
}

/// The time that a run of ticks spans.
pub open spec fn span_nanos(deltas: Seq<u64>) -> nat
    decreases deltas.len(),
{
    if deltas.len() == 0 {
        0
    } else {
        span_nanos(deltas.drop_last()) + deltas.last() as nat
    }
}

/// Whatever the lengths of the ticks, the timer keeps exact time: over a run
/// it completes as many periods as have elapsed, and keeps the remainder.
pub proof fn lemma_timer_counts_periods(elapsed: nat, deltas: Seq<u64>)
    requires
        elapsed < period(),
    ensures
        periods_in_ticks(elapsed, deltas) == (elapsed + span_nanos(deltas)) / period(),
        elapsed_after_ticks(elapsed, deltas) == (elapsed + span_nanos(deltas)) % period(),
    decreases deltas.len(),
{
    if deltas.len() > 0 {
        lemma_timer_counts_periods(elapsed, deltas.drop_last());
    }
}

/// Where a point lies along the x axis, seen from a reference point.
#[derive(Clone, Copy, Debug, PartialEq, Eq, Structural)]
pub enum Side {
    Left,
    Level,
    Right,
}

impl Side {
    /// The side of a point whose x was compared with the reference's: `Left`
    /// when it is smaller, `Right` when it is greater, `Level` when it is
    /// neither.
    pub fn from_comparison(smaller: bool, greater: bool) -> (side: Self)
        ensures
            side == (if smaller {
                Side::Left
            } else if greater {
                Side::Right
            } else {
                Side::Level
            }),
    {
        if smaller {
            Side::Left
        } else if greater {
            Side::Right
        } else {
            Side::Level
        }
    }
}

/// What the simulation decides of an entity's sprite: the cell of the sprite
/// sheet that it shows, and whether it is mirrored.
#[derive(Clone, Copy, Debug, PartialEq, Eq, Structural)]
pub struct SpriteFrame {
    pub index: usize,
    pub flip_x: bool,
    pub flip_y: bool,
}

/// First cell of the strip that the player's state selects.
pub open spec fn band_start(state: PlayerState) -> nat {
    match state {
        PlayerState::Idle => PLAYER_IDLE_BAND as nat,
        PlayerState::Moving => PLAYER_MOVING_BAND as nat,
    }
}

/// The cell that follows `index` in the strip that starts at `band`: one
/// step further, wrapping at the strip's length.
pub open spec fn next_frame(index: nat, band: nat) -> nat {
    band + (index + 1) % strip_length()
}

/// The cell shown once `periods` periods have been completed: unchanged
/// when there were none, otherwise that many steps further, wrapping at the
/// strip's length, in the strip that starts at `band`.
pub open spec fn frame_advanced(index: nat, band: nat, periods: nat) -> nat {
    if periods == 0 {
        index
    } else {
        band + (index + periods) % strip_length()
    }
}

/// The mirror flag that follows the cursor: set while the cursor is to the
/// left, cleared otherwise, and left as it was while there is no cursor.
pub open spec fn mirror_towards(cursor: Option<Side>, current: bool) -> bool {
    match cursor {
        Some(side) => side == Side::Left,
        None => current,
    }
}

/// The cell after `periods` completed periods, computed without leaving
/// `usize`.
fn advance(index: usize, band: usize, periods: u64) -> (next: usize)
    requires
        band <= ENEMY_BAND,
    ensures
        next == frame_advanced(index as nat, band as nat, periods as nat),
{
    if periods == 0 {
        return index;
    }
    let width = SPRITE_SHEET_WIDTH as usize;
    let steps = (periods % (SPRITE_SHEET_WIDTH as u64)) as usize;
    assert((index + periods) % 5 == (index % 5 + periods % 5) % 5);
    band + (index % width + steps) % width
}

/// One tick of the player's animation. The sprite steps once for every
/// period that the timer's last tick completed, into the strip that the
/// current movement state selects, and stays where it is when the tick
/// completed none. The sprite faces the cursor.
pub fn animate_player(
    sprite: &mut SpriteFrame,
    timer: &AnimationTimer,
    state: PlayerState,
    cursor: Option<Side>,
)
    ensures
        final(sprite).index == frame_advanced(
            old(sprite).index as nat,
            band_start(state),
            timer.completed(),
        ),
        final(sprite).flip_x == mirror_towards(cursor, old(sprite).flip_x),
        final(sprite).flip_y == old(sprite).flip_y,
{
    let band = match state {
        PlayerState::Idle => PLAYER_IDLE_BAND,
        PlayerState::Moving => PLAYER_MOVING_BAND,
    };
    sprite.index = advance(sprite.index, band, timer.times_finished());
    if let Some(side) = cursor {
        sprite.flip_x = side == Side::Left;
    }
}

/// One tick of an enemy's animation. The sprite steps once for every period
/// that the timer's last tick completed, within the enemies' strip, and
/// stays where it is when the tick completed none. The sprite is mirrored
/// exactly while the enemy is to the right of the player.
pub fn animate_enemy(sprite: &mut SpriteFrame, timer: &AnimationTimer, enemy: Side)
    ensures
        final(sprite).index == frame_advanced(
            old(sprite).index as nat,
            ENEMY_BAND as nat,
            timer.completed(),
        ),
        final(sprite).flip_x == (enemy == Side::Right),
        final(sprite).flip_y == old(sprite).flip_y,
{
    sprite.index = advance(sprite.index, ENEMY_BAND, timer.times_finished());
    sprite.flip_x = enemy == Side::Right;
}

/// Turns the gun upside down while the cursor is to its left, so that it
/// stays upright when it points backwards; without a cursor it stays as it is.
pub fn flip_gun_y(sprite: &mut SpriteFrame, cursor: Option<Side>)
    ensures
        final(sprite).flip_y == mirror_towards(cursor, old(sprite).flip_y),
        final(sprite).flip_x == old(sprite).flip_x,
        final(sprite).index == old(sprite).index,
{
    if let Some(side) = cursor {
        sprite.flip_y = side == Side::Left;
    }
}

/// The cell shown after one step per entry of `bands`, each into the strip
/// that was selected when that period elapsed, starting from `start`.
pub open spec fn frame_after(start: nat, bands: Seq<nat>) -> nat
    decreases bands.len(),
{
    if bands.len() == 0 {
        start
    } else {
        next_frame(frame_after(start, bands.drop_last()), bands.last())
    }
}

/// One strip, `periods` times over.
pub open spec fn repeated(band: nat, periods: nat) -> Seq<nat> {
    Seq::new(periods, |i: int| band)
}

/// The strips that a run of player states selects, one per elapsed period.
pub open spec fn player_bands(states: Seq<PlayerState>) -> Seq<nat> {
    Seq::new(states.len(), |i: int| band_start(states[i]))
}

/// The enemies' strip, `periods` times over.
pub open spec fn enemy_bands(periods: nat) -> Seq<nat> {
    repeated(ENEMY_BAND as nat, periods)
}

/// Every strip of the run begins at a multiple of the strip's length.
pub open spec fn aligned(bands: Seq<nat>) -> bool {
    forall|i: int| 0 <= i < bands.len() ==> #[trigger] bands[i] % strip_length() == 0
}

/// After one or more elapsed periods the frame is the start index plus the
/// number of periods, wrapped at the strip's length, in the strip selected at
/// the last of them.
pub proof fn lemma_frame_after_periods(start: nat, bands: Seq<nat>)
    requires
        bands.len() > 0,
        aligned(bands),
    ensures
        frame_after(start, bands) == bands.last() + (start + bands.len()) % strip_length(),
    decreases bands.len(),
{
    let before = bands.drop_last();
    if before.len() > 0 {
        assert forall|i: int| 0 <= i < before.len() implies #[trigger] before[i]
            % strip_length() == 0 by {
            assert(before[i] == bands[i]);
        }
        lemma_frame_after_periods(start, before);
        assert(before.last() == bands[bands.len() - 2]);
        assert(bands[bands.len() - 2] % strip_length() == 0);
    } else {
        assert(frame_after(start, before) == start);
    }
}

/// The player's frame after a run of elapsed periods: the start index plus
/// the number of periods, wrapped, in the strip of the state that held at the
/// last period, whatever the states were before.
pub proof fn lemma_player_frame_after_periods(start: nat, states: Seq<PlayerState>)
    requires
        states.len() > 0,
    ensures
        frame_after(start, player_bands(states)) == band_start(states.last()) + (start
            + states.len()) % strip_length(),
{
    lemma_frame_after_periods(start, player_bands(states));
}

/// An enemy's frame after a run of elapsed periods: the start index plus the
/// number of periods, wrapped, in the enemies' strip.
pub proof fn lemma_enemy_frame_after_periods(start: nat, periods: nat)
    requires
        periods > 0,
    ensures
        frame_after(start, enemy_bands(periods)) == ENEMY_BAND + (start + periods)
            % strip_length(),
{
    lemma_frame_after_periods(start, enemy_bands(periods));
}

/// Stepping period by period can be cut anywhere: the second part goes on
/// from the frame that the first part reached.
pub proof fn lemma_frame_after_concat(start: nat, first: Seq<nat>, second: Seq<nat>)
    ensures
        frame_after(start, first + second) == frame_after(frame_after(start, first), second),
    decreases second.len(),
{
    if second.len() == 0 {
        assert(first + second == first);
    } else {
        lemma_frame_after_concat(start, first, second.drop_last());
        assert((first + second).drop_last() == first + second.drop_last());
        assert((first + second).last() == second.last());
    }
}

/// The periods that one tick completes count one by one: the frame after
/// the tick is the frame after that many single steps within the strip.
pub proof fn lemma_frame_advanced_by_steps(index: nat, band: nat, periods: nat)
    requires
        band % strip_length() == 0,
    ensures
        frame_advanced(index, band, periods) == frame_after(index, repeated(band, periods)),
{
    if periods > 0 {
        lemma_frame_after_periods(index, repeated(band, periods));
    }
}

/// The strip in force at each period that a run of ticks completes, in
/// order. `bands` holds the strip selected on each tick; a tick that
/// completes several periods contributes its strip for each of them.
pub open spec fn finished_bands(elapsed: nat, deltas: Seq<u64>, bands: Seq<nat>) -> Seq<nat>
    decreases deltas.len(),
{
    if deltas.len() == 0 {
        Seq::empty()
    } else {
        let before = deltas.drop_last();
        finished_bands(elapsed, before, bands.drop_last()) + repeated(
            bands.last(),
            periods_in_tick(elapsed_after_ticks(elapsed, before), deltas.last()),
        )
    }
}

/// The frame shown after a run of ticks on each of which the timer is ticked
/// and the sprite animated into the strip selected on that tick.
pub open spec fn frame_after_ticks(
    start: nat,
    elapsed: nat,
    deltas: Seq<u64>,
    bands: Seq<nat>,
) -> nat
    decreases deltas.len(),
{
    if deltas.len() == 0 {
        start
    } else {
        let before = deltas.drop_last();
        frame_advanced(
            frame_after_ticks(start, elapsed, before, bands.drop_last()),
            bands.last(),
            periods_in_tick(elapsed_after_ticks(elapsed, before), deltas.last()),
        )
    }
}

/// The animation advances with the timer and with nothing else: over a run
/// of ticks the frame steps once for each period that the timer completes,
/// into the strip in force on the tick that completes it.
pub proof fn lemma_animation_follows_timer(
    start: nat,
    elapsed: nat,
    deltas: Seq<u64>,
    bands: Seq<nat>,
)
    requires
        deltas.len() == bands.len(),
        aligned(bands),
    ensures
        frame_after_ticks(start, elapsed, deltas, bands) == frame_after(
            start,
            finished_bands(elapsed, deltas, bands),
        ),
        finished_bands(elapsed, deltas, bands).len() == periods_in_ticks(elapsed, deltas),
        aligned(finished_bands(elapsed, deltas, bands)),
    decreases deltas.len(),
{
    if deltas.len() > 0 {
        let before = bands.drop_last();
        let earlier = finished_bands(elapsed, deltas.drop_last(), before);
        let periods = periods_in_tick(
            elapsed_after_ticks(elapsed, deltas.drop_last()),
            deltas.last(),
        );
        let added = repeated(bands.last(), periods);
        assert forall|i: int| 0 <= i < before.len() implies #[trigger] before[i]
            % strip_length() == 0 by {
            assert(before[i] == bands[i]);
        }
        assert(bands.last() == bands[bands.len() - 1]);
        lemma_animation_follows_timer(start, elapsed, deltas.drop_last(), before);
        lemma_frame_after_concat(start, earlier, added);
        lemma_frame_advanced_by_steps(frame_after(start, earlier), bands.last(), periods);
        assert forall|i: int| 0 <= i < (earlier + added).len() implies #[trigger] (earlier
            + added)[i] % strip_length() == 0 by {
            if i < earlier.len() {
                assert((earlier + added)[i] == earlier[i]);
            } else {
                assert((earlier + added)[i] == added[i - earlier.len()]);
            }
        }
    }
}

/// Whatever the lengths of the ticks, a sprite shows, once a period or more
/// has elapsed, the start index plus the number of elapsed periods, wrapped
/// at the strip's length, in the strip that was in force when the last of
/// them was completed.
pub proof fn lemma_frame_after_elapsed_time(
    start: nat,
    elapsed: nat,
    deltas: Seq<u64>,
    bands: Seq<nat>,
)
    requires
        elapsed < period(),
        deltas.len() == bands.len(),
        aligned(bands),
        elapsed + span_nanos(deltas) >= period(),
    ensures
        finished_bands(elapsed, deltas, bands).len() == (elapsed + span_nanos(deltas)) / period(),
        frame_after_ticks(start, elapsed, deltas, bands) == finished_bands(
            elapsed,
            deltas,
            bands,
        ).last() + (start + (elapsed + span_nanos(deltas)) / period()) % strip_length(),
{
    lemma_animation_follows_timer(start, elapsed, deltas, bands);
    lemma_timer_counts_periods(elapsed, deltas);
    lemma_frame_after_periods(start, finished_bands(elapsed, deltas, bands));
}

} // verus!
