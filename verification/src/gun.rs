//! The gun's cooldown: an accumulator of elapsed time that gates each shot.

use vstd::prelude::*;
use vstd::arithmetic::div_mod::{lemma_fundamental_div_mod, lemma_fundamental_div_mod_converse};
use crate::animations::SpriteFrame;
use crate::constants::{GUN_TIMEOUT_NANOS, SPAWN_LAYER};

verus! {

/// The gun's cell of the sprite sheet.
pub const GUN_SPRITE_INDEX: usize = 16;

/// The projectiles' cell of the sprite sheet.
pub const BULLET_SPRITE_INDEX: usize = 15;

/// Time accumulated since the last shot, in nanoseconds. It advances on every
/// tick, whether or not the trigger is held, and stops at `u64::MAX`.
#[derive(Clone, Copy, Debug, PartialEq, Eq, Structural)]
pub struct GunTimer {
    pub elapsed_nanos: u64,
}

/// The accumulator after `delta` more nanoseconds, saturating.
pub open spec fn accumulate(elapsed: u64, delta: u64) -> u64 {
    if elapsed + delta <= u64::MAX {
        (elapsed + delta) as u64
    } else {
        u64::MAX
    }
}

/// A tick fires when the trigger is held and the accumulator, this tick's
/// time included, has reached the timeout.
pub open spec fn fires(elapsed: u64, delta: u64, fire_held: bool) -> bool {
    fire_held && accumulate(elapsed, delta) >= GUN_TIMEOUT_NANOS
}

/// The accumulator at the end of a tick: back at zero after a shot.
pub open spec fn cooldown_after(elapsed: u64, delta: u64, fire_held: bool) -> u64 {
    if fires(elapsed, delta, fire_held) {
        0
    } else {
        accumulate(elapsed, delta)
    }
}

impl GunTimer {
    /// A fresh weapon: nothing accumulated yet.
    pub fn new() -> (timer: Self)
        ensures
            timer.elapsed_nanos == 0,
    {
        GunTimer { elapsed_nanos: 0 }
    }

    /// Advances the accumulator by one tick's time.
    pub fn tick(&mut self, delta_nanos: u64)
        ensures
            final(self).elapsed_nanos == accumulate(old(self).elapsed_nanos, delta_nanos),
    {
        self.elapsed_nanos = self.elapsed_nanos.saturating_add(delta_nanos);
    }

    /// Starts the cooldown over.
    pub fn reset(&mut self)
        ensures
            final(self).elapsed_nanos == 0,
    {
        self.elapsed_nanos = 0;
    }

    /// The cooldown has run out.
    pub fn ready(&self) -> (ready: bool)
        ensures
            ready == (self.elapsed_nanos >= GUN_TIMEOUT_NANOS),
    {
        self.elapsed_nanos >= GUN_TIMEOUT_NANOS
    }
}

/// What the gun is created with, its place in the world aside.
#[derive(Clone, Copy, Debug, PartialEq, Eq, Structural)]
pub struct GunSpawn {
    pub sprite: SpriteFrame,
    pub timer: GunTimer,
}

impl GunSpawn {
    /// The gun starts on its cell, unmirrored, with nothing accumulated.
    pub open spec fn fresh(self) -> bool {
        &&& self.sprite == (SpriteFrame { index: GUN_SPRITE_INDEX, flip_x: false, flip_y: false })
        &&& self.timer.elapsed_nanos == 0
    }

    /// The gun as the world starts with it.
    pub fn new() -> (gun: Self)
        ensures
            gun.fresh(),
    {
        GunSpawn {
            sprite: SpriteFrame { index: GUN_SPRITE_INDEX, flip_x: false, flip_y: false },
            timer: GunTimer::new(),
        }
    }
}

/// What a projectile is created with, its place and its direction aside.
#[derive(Clone, Copy, Debug, PartialEq, Eq, Structural)]
pub struct BulletSpawn {
    pub sprite: SpriteFrame,
    pub layer: u8,
}

impl BulletSpawn {
    /// A new projectile shows the projectiles' cell, unmirrored, on the
    /// spawn layer.
    pub open spec fn fresh(self) -> bool {
        &&& self.sprite == (SpriteFrame {
            index: BULLET_SPRITE_INDEX,
            flip_x: false,
            flip_y: false,
        })
        &&& self.layer == SPAWN_LAYER
    }

    /// One new projectile.
    pub fn new() -> (bullet: Self)
        ensures
            bullet.fresh(),
    {
        BulletSpawn {
            sprite: SpriteFrame { index: BULLET_SPRITE_INDEX, flip_x: false, flip_y: false },
            layer: SPAWN_LAYER,
        }
    }
}

/// One tick of fire gating. The accumulator advances first; a projectile is
/// created exactly when the trigger is held and the timeout has been
/// reached, and then the accumulator starts over.
pub fn handle_gun_input(
    timer: &mut GunTimer,
    delta_nanos: u64,
    fire_held: bool,
) -> (shot: Option<BulletSpawn>)
    ensures
        shot.is_some() == fires(old(timer).elapsed_nanos, delta_nanos, fire_held),
        shot matches Some(bullet) ==> bullet.fresh(),
        final(timer).elapsed_nanos == cooldown_after(
            old(timer).elapsed_nanos,
            delta_nanos,
            fire_held,
        ),
{
    timer.tick(delta_nanos);
    if !fire_held {
        return None;
    }
    if timer.ready() {
        timer.reset();
        Some(BulletSpawn::new())
    } else {
        None
    }
}

/// What one tick hands to the gun: its elapsed time and the trigger.
pub struct Tick {
    pub delta_nanos: u64,
    pub fire_held: bool,
}

/// The accumulator after a run of ticks, starting from `elapsed`.
pub open spec fn cooldown_after_ticks(elapsed: u64, ticks: Seq<Tick>) -> u64
    decreases ticks.len(),
{
    if ticks.len() == 0 {
        elapsed
    } else {
        let last = ticks.last();
        cooldown_after(
            cooldown_after_ticks(elapsed, ticks.drop_last()),
            last.delta_nanos,
            last.fire_held,
        )
    }
}

/// How many projectiles a run of ticks produces, starting from `elapsed`.
pub open spec fn shots(elapsed: u64, ticks: Seq<Tick>) -> nat
    decreases ticks.len(),
{
    if ticks.len() == 0 {
        0
    } else {
        let last = ticks.last();
        let before = ticks.drop_last();
        let fired = fires(
            cooldown_after_ticks(elapsed, before),
            last.delta_nanos,
            last.fire_held,
        );
        shots(elapsed, before) + (if fired { 1nat } else { 0nat })
    }
}

/// The time that a run of ticks spans.
pub open spec fn total_nanos(ticks: Seq<Tick>) -> nat
    decreases ticks.len(),
{
    if ticks.len() == 0 {
        0
    } else {
        total_nanos(ticks.drop_last()) + ticks.last().delta_nanos as nat
    }
}

/// `count` ticks of `step` nanoseconds each, the trigger held throughout.
pub open spec fn held_ticks(count: nat, step: u64) -> Seq<Tick> {
    Seq::new(count, |i: int| Tick { delta_nanos: step, fire_held: true })
}

/// The gun fires at most once per timeout of accumulated time: every shot
/// uses up a full timeout of the time that has passed, whatever the tick
/// lengths and however the trigger is worked.
pub proof fn lemma_shots_rate_limited(elapsed: u64, ticks: Seq<Tick>)
    ensures
        shots(elapsed, ticks) * GUN_TIMEOUT_NANOS + cooldown_after_ticks(elapsed, ticks)
            <= elapsed + total_nanos(ticks),
    decreases ticks.len(),
{
    if ticks.len() > 0 {
        lemma_shots_rate_limited(elapsed, ticks.drop_last());
        let n = shots(elapsed, ticks.drop_last());
        assert((n + 1) * GUN_TIMEOUT_NANOS == n * GUN_TIMEOUT_NANOS + GUN_TIMEOUT_NANOS)
            by (nonlinear_arith);
    }
}

/// Until a full timeout has accumulated nothing is fired, and the
/// accumulator holds all the time that has passed.
pub proof fn lemma_no_shot_before_timeout(elapsed: u64, ticks: Seq<Tick>)
    requires
        elapsed + total_nanos(ticks) < GUN_TIMEOUT_NANOS,
    ensures
        shots(elapsed, ticks) == 0,
        cooldown_after_ticks(elapsed, ticks) == elapsed + total_nanos(ticks),
    decreases ticks.len(),
{
    if ticks.len() > 0 {
        lemma_no_shot_before_timeout(elapsed, ticks.drop_last());
    }
}

/// A fresh weapon fires its first projectile on the tick that brings the
/// accumulated time up to the timeout with the trigger held: it fires
/// exactly one, and starts its cooldown over.
pub proof fn lemma_first_shot(ticks: Seq<Tick>, last: Tick)
    requires
        last.fire_held,
        total_nanos(ticks) < GUN_TIMEOUT_NANOS <= total_nanos(ticks) + last.delta_nanos,
    ensures
        shots(0, ticks) == 0,
        shots(0, ticks.push(last)) == 1,
        cooldown_after_ticks(0, ticks.push(last)) == 0,
{
    lemma_no_shot_before_timeout(0, ticks);
    assert(ticks.push(last).drop_last() == ticks);
}

/// With the trigger held from a fresh weapon and ticks of equal length, of
/// which `per_shot` make up the timeout, every `per_shot`-th tick fires and
/// no other: `count` ticks give `count / per_shot` projectiles.
pub proof fn lemma_steady_fire(step: u64, per_shot: nat, count: nat)
    requires
        per_shot * step == GUN_TIMEOUT_NANOS,
    ensures
        shots(0, held_ticks(count, step)) == count / per_shot,
        cooldown_after_ticks(0, held_ticks(count, step)) == (count % per_shot) * step,
    decreases count,
{
    assert(per_shot > 0 && step > 0) by (nonlinear_arith)
        requires
            per_shot * step > 0,
    ;
    let k = per_shot as int;
    if count == 0 {
        lemma_fundamental_div_mod_converse(0, k, 0, 0);
        assert(0 * step == 0);
    } else {
        let before = (count - 1) as nat;
        lemma_steady_fire(step, per_shot, before);
        assert(held_ticks(count, step).drop_last() == held_ticks(before, step));
        let q = before as int / k;
        let r = before as int % k;
        lemma_fundamental_div_mod(before as int, k);
        assert(k * q + r + 1 == q * k + (r + 1) && k * q + r + 1 == (q + 1) * k + (r + 1 - k))
            by (nonlinear_arith);
        assert(r * step + step == (r + 1) * step) by (nonlinear_arith);
        if r + 1 == k {
            lemma_fundamental_div_mod_converse(count as int, k, q + 1, 0);
            assert(0 * step == 0);
        } else {
            lemma_fundamental_div_mod_converse(count as int, k, q, r + 1);
            assert((r + 1) * step < k * step) by (nonlinear_arith)
                requires
                    r + 1 < k,
                    step > 0,
            ;
        }
    }
}

/// The trigger is held on every tick of the run.
pub open spec fn held_throughout(ticks: Seq<Tick>) -> bool {
    forall|i: int| 0 <= i < ticks.len() ==> (#[trigger] ticks[i]).fire_held
}

/// While the trigger stays held on a fresh weapon the shots keep coming: the
/// cooldown never reaches the timeout at the end of a tick, and no shot
/// uses up more than one timeout and one tick of the time that has passed.
pub proof fn lemma_held_trigger_keeps_firing(ticks: Seq<Tick>, longest: u64)
    requires
        held_throughout(ticks),
        forall|i: int| 0 <= i < ticks.len() ==> (#[trigger] ticks[i]).delta_nanos <= longest,
    ensures
        cooldown_after_ticks(0, ticks) < GUN_TIMEOUT_NANOS,
        total_nanos(ticks) <= shots(0, ticks) * (GUN_TIMEOUT_NANOS - 1 + longest)
            + cooldown_after_ticks(0, ticks),
    decreases ticks.len(),
{
    if ticks.len() > 0 {
        let before = ticks.drop_last();
        assert(ticks.last() == ticks[ticks.len() - 1]);
        assert forall|i: int| 0 <= i < before.len() implies (#[trigger] before[i]).fire_held
            && before[i].delta_nanos <= longest by {
            assert(before[i] == ticks[i]);
        }
        lemma_held_trigger_keeps_firing(before, longest);
        let n = shots(0, before);
        let per_shot = GUN_TIMEOUT_NANOS - 1 + longest;
        assert((n + 1) * per_shot == n * per_shot + per_shot) by (nonlinear_arith);
    }
}

/// A run of ticks can be cut anywhere: the second part goes on from the
/// accumulator that the first part left.
pub proof fn lemma_ticks_concat(elapsed: u64, first: Seq<Tick>, second: Seq<Tick>)
    ensures
        cooldown_after_ticks(elapsed, first + second) == cooldown_after_ticks(
            cooldown_after_ticks(elapsed, first),
            second,
        ),
        shots(elapsed, first + second) == shots(elapsed, first) + shots(
            cooldown_after_ticks(elapsed, first),
            second,
        ),
        total_nanos(first + second) == total_nanos(first) + total_nanos(second),
    decreases second.len(),
{
    if second.len() == 0 {
        assert(first + second == first);
    } else {
        lemma_ticks_concat(elapsed, first, second.drop_last());
        assert((first + second).drop_last() == first + second.drop_last());
        assert((first + second).last() == second.last());
    }
}

/// A fresh weapon held over ticks that add up to exactly one timeout fires
/// once, on the tick that completes the timeout, and ends with its cooldown
/// at zero.
pub proof fn lemma_one_timeout_one_shot(ticks: Seq<Tick>)
    requires
        held_throughout(ticks),
        total_nanos(ticks) == GUN_TIMEOUT_NANOS,
    ensures
        shots(0, ticks) == 1,
        cooldown_after_ticks(0, ticks) == 0,
    decreases ticks.len(),
{
    let before = ticks.drop_last();
    assert(ticks.last() == ticks[ticks.len() - 1]);
    if ticks.last().delta_nanos == 0 {
        assert forall|i: int| 0 <= i < before.len() implies (#[trigger] before[i]).fire_held by {
            assert(before[i] == ticks[i]);
        }
        lemma_one_timeout_one_shot(before);
    } else {
        lemma_no_shot_before_timeout(0, before);
    }
}

/// Holding the trigger for three timeouts gives exactly three projectiles,
/// not one and not one per tick, whenever the ticks are cut so that each
/// timeout ends on a tick boundary.
pub proof fn lemma_three_timeouts_three_shots(
    first: Seq<Tick>,
    second: Seq<Tick>,
    third: Seq<Tick>,
)
    requires
        held_throughout(first),
        held_throughout(second),
        held_throughout(third),
        total_nanos(first) == GUN_TIMEOUT_NANOS,
        total_nanos(second) == GUN_TIMEOUT_NANOS,
        total_nanos(third) == GUN_TIMEOUT_NANOS,
    ensures
        shots(0, first + second + third) == 3,
        cooldown_after_ticks(0, first + second + third) == 0,
        total_nanos(first + second + third) == 3 * GUN_TIMEOUT_NANOS,
{
    lemma_one_timeout_one_shot(first);
    lemma_one_timeout_one_shot(second);
    lemma_one_timeout_one_shot(third);
    lemma_ticks_concat(0, first, second);
    lemma_ticks_concat(0, first + second, third);
}

} // verus!
