use rust_game_1::animations::{
    animate_enemy, animate_player, flip_gun_y, AnimationTimer, Side, SpriteFrame, ENEMY_BAND,
    PLAYER_IDLE_BAND, PLAYER_MOVING_BAND,
};
use rust_game_1::constants::{ANIMATION_PERIOD_NANOS, SPRITE_SHEET_WIDTH};
use rust_game_1::player::PlayerState;

fn frame(index: usize) -> SpriteFrame {
    SpriteFrame { index, flip_x: false, flip_y: false }
}

fn finished_timer() -> AnimationTimer {
    let mut timer = AnimationTimer::new();
    timer.tick(ANIMATION_PERIOD_NANOS);
    timer
}

#[test]
fn the_animation_constants() {
    assert_eq!(ANIMATION_PERIOD_NANOS, 100_000_000);
    assert_eq!(SPRITE_SHEET_WIDTH, 5);
    assert_eq!(PLAYER_MOVING_BAND, 0);
    assert_eq!(PLAYER_IDLE_BAND, 5);
    assert_eq!(ENEMY_BAND, 10);
}

fn timer_after(delta_nanos: u64) -> AnimationTimer {
    let mut timer = AnimationTimer::new();
    timer.tick(delta_nanos);
    timer
}

#[test]
fn a_new_timer_is_at_the_start_of_its_period() {
    let timer = AnimationTimer::new();
    assert!(!timer.finished());
    assert_eq!(timer.times_finished(), 0);
    assert_eq!(timer.elapsed_nanos(), 0);
}

#[test]
fn the_timer_counts_the_periods_that_a_tick_completes() {
    let mut timer = AnimationTimer::new();
    timer.tick(99_999_999);
    assert_eq!(timer.times_finished(), 0);
    timer.tick(1);
    assert_eq!(timer.times_finished(), 1);
    timer.tick(300_000_000);
    assert_eq!(timer.times_finished(), 3);
    assert!(timer.finished());
    assert_eq!(timer.elapsed_nanos(), 0);
    timer.tick(60_000_000);
    assert_eq!(timer.times_finished(), 0);
    assert!(!timer.finished());
    timer.tick(250_000_000);
    assert_eq!(timer.times_finished(), 3);
    assert_eq!(timer.elapsed_nanos(), 10_000_000);
}

#[test]
fn a_tick_of_three_periods_steps_the_idle_player_three_cells() {
    let timer = timer_after(300_000_000);
    let mut sprite = frame(5);
    animate_player(&mut sprite, &timer, PlayerState::Idle, None);
    assert_eq!(sprite.index, 8);
}

#[test]
fn a_tick_of_several_periods_steps_that_many_cells_and_wraps() {
    let mut enemy = frame(10);
    animate_enemy(&mut enemy, &timer_after(300_000_000), Side::Left);
    assert_eq!(enemy.index, 13);
    animate_enemy(&mut enemy, &timer_after(700_000_000), Side::Left);
    assert_eq!(enemy.index, 10);
    animate_enemy(&mut enemy, &timer_after(500_000_000), Side::Left);
    assert_eq!(enemy.index, 10);

    let mut player = frame(9);
    animate_player(&mut player, &timer_after(200_000_000), PlayerState::Moving, None);
    assert_eq!(player.index, 1);
    animate_player(&mut player, &timer_after(1_200_000_000), PlayerState::Idle, None);
    assert_eq!(player.index, 8);
}

#[test]
fn long_and_short_ticks_over_the_same_time_reach_the_same_frame() {
    let mut timer = AnimationTimer::new();
    let mut fine = frame(12);
    for _ in 0..70 {
        timer.tick(10_000_000);
        animate_enemy(&mut fine, &timer, Side::Left);
    }
    let mut coarse = frame(12);
    animate_enemy(&mut coarse, &timer_after(700_000_000), Side::Left);
    assert_eq!(fine.index, 10 + (12 + 7) % 5);
    assert_eq!(coarse.index, fine.index);

    let mut uneven_timer = AnimationTimer::new();
    let mut uneven = frame(12);
    for delta in [250_000_000u64, 30_000_000, 0, 410_000_000, 10_000_000] {
        uneven_timer.tick(delta);
        animate_enemy(&mut uneven, &uneven_timer, Side::Left);
    }
    assert_eq!(uneven.index, fine.index);
    assert_eq!(uneven_timer.elapsed_nanos(), 0);
}

#[test]
fn the_largest_tick_steps_by_the_periods_it_holds() {
    let timer = timer_after(u64::MAX);
    let periods = u64::MAX / 100_000_000;
    assert_eq!(timer.times_finished(), periods);
    let mut enemy = frame(10);
    animate_enemy(&mut enemy, &timer, Side::Left);
    assert_eq!(enemy.index, 10 + ((10 + periods) % 5) as usize);
}

#[test]
fn the_timer_finishes_when_the_period_is_complete() {
    let mut timer = AnimationTimer::new();
    timer.tick(50_000_000);
    assert!(!timer.finished());
    assert_eq!(timer.elapsed_nanos(), 50_000_000);
    timer.tick(49_999_999);
    assert!(!timer.finished());
    assert_eq!(timer.elapsed_nanos(), 99_999_999);
    timer.tick(1);
    assert!(timer.finished());
    assert_eq!(timer.elapsed_nanos(), 0);
}

#[test]
fn the_timer_is_finished_for_one_tick_only() {
    let mut timer = finished_timer();
    assert!(timer.finished());
    timer.tick(10);
    assert!(!timer.finished());
    assert_eq!(timer.elapsed_nanos(), 10);
    timer.tick(0);
    assert!(!timer.finished());
    assert_eq!(timer.elapsed_nanos(), 10);
}

#[test]
fn the_timer_carries_the_remainder_over() {
    let mut timer = AnimationTimer::new();
    timer.tick(70_000_000);
    timer.tick(70_000_000);
    assert!(timer.finished());
    assert_eq!(timer.elapsed_nanos(), 40_000_000);
    assert_eq!(timer.times_finished(), 1);
    timer.tick(250_000_000);
    assert!(timer.finished());
    assert_eq!(timer.times_finished(), 2);
    assert_eq!(timer.elapsed_nanos(), 90_000_000);
}

#[test]
fn the_timer_takes_the_longest_tick() {
    let mut timer = AnimationTimer::new();
    timer.tick(99_999_999);
    timer.tick(u64::MAX);
    assert!(timer.finished());
    let total = 99_999_999u128 + u128::from(u64::MAX);
    assert_eq!(u128::from(timer.elapsed_nanos()), total % 100_000_000);
    assert_eq!(u128::from(timer.times_finished()), total / 100_000_000);
}

#[test]
fn fine_ticks_finish_once_per_period() {
    let mut timer = AnimationTimer::new();
    let mut finished = 0;
    for _ in 0..1000 {
        timer.tick(30_000_000);
        if timer.finished() {
            finished += 1;
        }
    }
    assert_eq!(finished, 300);
    assert_eq!(timer.elapsed_nanos(), 0);
}

#[test]
fn the_idle_player_cycles_through_the_idle_strip() {
    let timer = finished_timer();
    let mut sprite = frame(0);
    let mut seen = Vec::new();
    for _ in 0..6 {
        animate_player(&mut sprite, &timer, PlayerState::Idle, None);
        seen.push(sprite.index);
    }
    assert_eq!(seen, vec![6, 7, 8, 9, 5, 6]);
}

#[test]
fn the_moving_player_cycles_through_the_moving_strip() {
    let timer = finished_timer();
    let mut sprite = frame(0);
    let mut seen = Vec::new();
    for _ in 0..6 {
        animate_player(&mut sprite, &timer, PlayerState::Moving, None);
        seen.push(sprite.index);
    }
    assert_eq!(seen, vec![1, 2, 3, 4, 0, 1]);
}

#[test]
fn the_player_changes_strip_with_its_state_and_keeps_the_step() {
    let timer = finished_timer();
    let mut sprite = frame(7);
    animate_player(&mut sprite, &timer, PlayerState::Moving, None);
    assert_eq!(sprite.index, 3);
    animate_player(&mut sprite, &timer, PlayerState::Idle, None);
    assert_eq!(sprite.index, 9);
    animate_player(&mut sprite, &timer, PlayerState::Idle, None);
    assert_eq!(sprite.index, 5);
    animate_player(&mut sprite, &timer, PlayerState::Moving, None);
    assert_eq!(sprite.index, 1);
}

#[test]
fn an_unfinished_timer_keeps_the_frame() {
    let timer = AnimationTimer::new();
    let mut sprite = frame(7);
    animate_player(&mut sprite, &timer, PlayerState::Moving, None);
    assert_eq!(sprite.index, 7);
    animate_enemy(&mut sprite, &timer, Side::Left);
    assert_eq!(sprite.index, 7);
}

#[test]
fn enemies_cycle_through_their_strip() {
    let timer = finished_timer();
    let mut sprite = frame(10);
    let mut seen = Vec::new();
    for _ in 0..6 {
        animate_enemy(&mut sprite, &timer, Side::Left);
        seen.push(sprite.index);
    }
    assert_eq!(seen, vec![11, 12, 13, 14, 10, 11]);
}

#[test]
fn the_frame_after_some_periods_is_start_plus_periods_wrapped() {
    let timer = finished_timer();
    for start in 0..25usize {
        let mut enemy = frame(start);
        let mut player = frame(start);
        for periods in 1..=12usize {
            animate_enemy(&mut enemy, &timer, Side::Level);
            assert_eq!(enemy.index, (start + periods) % 5 + 10);
            let state = if periods % 3 == 0 { PlayerState::Moving } else { PlayerState::Idle };
            animate_player(&mut player, &timer, state, None);
            let band = if periods % 3 == 0 { 0 } else { 5 };
            assert_eq!(player.index, (start + periods) % 5 + band);
        }
    }
}

#[test]
fn the_largest_index_wraps_without_overflow() {
    let timer = finished_timer();
    let mut sprite = frame(usize::MAX);
    animate_enemy(&mut sprite, &timer, Side::Left);
    let step = ((usize::MAX as u128 + 1) % 5) as usize;
    assert_eq!(sprite.index, 10 + step);
    let mut player = frame(usize::MAX);
    animate_player(&mut player, &timer, PlayerState::Idle, None);
    assert_eq!(player.index, 5 + step);
}

#[test]
fn the_player_faces_the_cursor() {
    let timer = AnimationTimer::new();
    let mut sprite = frame(0);
    animate_player(&mut sprite, &timer, PlayerState::Idle, Some(Side::Left));
    assert!(sprite.flip_x);
    animate_player(&mut sprite, &timer, PlayerState::Idle, None);
    assert!(sprite.flip_x);
    animate_player(&mut sprite, &timer, PlayerState::Idle, Some(Side::Right));
    assert!(!sprite.flip_x);
    animate_player(&mut sprite, &timer, PlayerState::Idle, None);
    assert!(!sprite.flip_x);
    sprite.flip_x = true;
    animate_player(&mut sprite, &timer, PlayerState::Idle, Some(Side::Level));
    assert!(!sprite.flip_x);
    assert!(!sprite.flip_y);
}

#[test]
fn an_enemy_is_mirrored_while_right_of_the_player() {
    let timer = AnimationTimer::new();
    let mut sprite = frame(10);
    animate_enemy(&mut sprite, &timer, Side::Right);
    assert!(sprite.flip_x);
    animate_enemy(&mut sprite, &timer, Side::Level);
    assert!(!sprite.flip_x);
    animate_enemy(&mut sprite, &timer, Side::Right);
    animate_enemy(&mut sprite, &timer, Side::Left);
    assert!(!sprite.flip_x);
    assert!(!sprite.flip_y);
}

#[test]
fn the_gun_turns_over_while_the_cursor_is_left() {
    let mut sprite = SpriteFrame { index: 16, flip_x: true, flip_y: false };
    flip_gun_y(&mut sprite, Some(Side::Left));
    assert_eq!(sprite, SpriteFrame { index: 16, flip_x: true, flip_y: true });
    flip_gun_y(&mut sprite, None);
    assert_eq!(sprite, SpriteFrame { index: 16, flip_x: true, flip_y: true });
    flip_gun_y(&mut sprite, Some(Side::Level));
    assert_eq!(sprite, SpriteFrame { index: 16, flip_x: true, flip_y: false });
    flip_gun_y(&mut sprite, Some(Side::Left));
    flip_gun_y(&mut sprite, Some(Side::Right));
    assert_eq!(sprite, SpriteFrame { index: 16, flip_x: true, flip_y: false });
}

#[test]
fn a_side_comes_from_two_comparisons() {
    assert_eq!(Side::from_comparison(true, false), Side::Left);
    assert_eq!(Side::from_comparison(false, true), Side::Right);
    assert_eq!(Side::from_comparison(false, false), Side::Level);
    assert_eq!(Side::from_comparison(true, true), Side::Left);
}
