use rust_game_1::constants::GUN_TIMEOUT_NANOS;
use rust_game_1::animations::SpriteFrame;
use rust_game_1::gun::{
    handle_gun_input, BulletSpawn, GunTimer, BULLET_SPRITE_INDEX, GUN_SPRITE_INDEX,
};

fn fires(timer: &mut GunTimer, delta_nanos: u64, fire_held: bool) -> bool {
    handle_gun_input(timer, delta_nanos, fire_held).is_some()
}

const QUARTER: u64 = 250_000_000;

fn shots_while_held(timer: &mut GunTimer, step: u64, frames: usize) -> usize {
    let mut shots = 0;
    for _ in 0..frames {
        if fires(timer, step, true) {
            shots += 1;
        }
    }
    shots
}

#[test]
fn a_fresh_gun_has_accumulated_nothing() {
    let timer = GunTimer::new();
    assert_eq!(timer.elapsed_nanos, 0);
    assert!(!timer.ready());
}

#[test]
fn the_timeout_is_one_second() {
    assert_eq!(GUN_TIMEOUT_NANOS, 1_000_000_000);
}

#[test]
fn tick_accumulates_and_saturates() {
    let mut timer = GunTimer::new();
    timer.tick(5);
    timer.tick(7);
    assert_eq!(timer.elapsed_nanos, 12);
    timer.tick(u64::MAX);
    assert_eq!(timer.elapsed_nanos, u64::MAX);
    timer.tick(1);
    assert_eq!(timer.elapsed_nanos, u64::MAX);
    assert!(timer.ready());
    timer.reset();
    assert_eq!(timer.elapsed_nanos, 0);
}

#[test]
fn the_first_shot_comes_on_the_frame_that_completes_the_timeout() {
    let mut timer = GunTimer::new();
    assert!(!fires(&mut timer, QUARTER, true));
    assert!(!fires(&mut timer, QUARTER, true));
    assert!(!fires(&mut timer, QUARTER, true));
    assert_eq!(timer.elapsed_nanos, 750_000_000);
    assert!(fires(&mut timer, QUARTER, true));
    assert_eq!(timer.elapsed_nanos, 0);
    assert!(!fires(&mut timer, QUARTER, true));
    assert_eq!(timer.elapsed_nanos, QUARTER);
}

#[test]
fn the_timeout_is_reached_not_exceeded() {
    let mut timer = GunTimer::new();
    assert!(!fires(&mut timer, 999_999_999, true));
    assert_eq!(timer.elapsed_nanos, 999_999_999);
    assert!(fires(&mut timer, 1, true));
    assert_eq!(timer.elapsed_nanos, 0);
    assert!(fires(&mut timer, 1_000_000_000, true));
    assert_eq!(timer.elapsed_nanos, 0);
}

#[test]
fn three_timeouts_held_give_three_shots() {
    let mut timer = GunTimer::new();
    assert_eq!(shots_while_held(&mut timer, QUARTER, 12), 3);
    assert_eq!(timer.elapsed_nanos, 0);
    let mut fine = GunTimer::new();
    assert_eq!(shots_while_held(&mut fine, 1_000_000, 3000), 3);
    assert_eq!(fine.elapsed_nanos, 0);
}

#[test]
fn frames_that_overshoot_the_timeout_delay_the_next_shot() {
    let mut timer = GunTimer::new();
    assert_eq!(shots_while_held(&mut timer, 300_000_000, 10), 2);
    assert_eq!(timer.elapsed_nanos, 600_000_000);
}

#[test]
fn the_cooldown_runs_while_the_trigger_is_released() {
    let mut timer = GunTimer::new();
    for _ in 0..8 {
        assert!(!fires(&mut timer, QUARTER, false));
    }
    assert_eq!(timer.elapsed_nanos, 2_000_000_000);
    assert!(fires(&mut timer, 0, true));
    assert_eq!(timer.elapsed_nanos, 0);
    assert!(!fires(&mut timer, 0, true));
}

#[test]
fn a_frame_of_no_time_changes_nothing() {
    let mut timer = GunTimer { elapsed_nanos: 400 };
    assert!(!fires(&mut timer, 0, true));
    assert_eq!(timer.elapsed_nanos, 400);
}

#[test]
fn a_saturated_cooldown_still_fires_once() {
    let mut timer = GunTimer { elapsed_nanos: u64::MAX };
    assert!(fires(&mut timer, u64::MAX, true));
    assert_eq!(timer.elapsed_nanos, 0);
    assert!(!fires(&mut timer, 1, true));
}

#[test]
fn gun_and_bullet_have_their_cells() {
    assert_eq!(GUN_SPRITE_INDEX, 16);
    assert_eq!(BULLET_SPRITE_INDEX, 15);
}

#[test]
fn a_shot_creates_a_projectile_on_the_spawn_layer() {
    let mut timer = GunTimer { elapsed_nanos: 1_000_000_000 };
    let expected = BulletSpawn {
        sprite: SpriteFrame { index: 15, flip_x: false, flip_y: false },
        layer: 1,
    };
    assert_eq!(handle_gun_input(&mut timer, 0, true), Some(expected));
    assert_eq!(handle_gun_input(&mut timer, 0, true), None);
    assert_eq!(BulletSpawn::new(), expected);
}
