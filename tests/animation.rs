use dino::animation::{animate, next_frame, AnimationTimer, DinoAnimation, FRAME_INTERVAL_NANOS};

#[test]
fn next_frame_cycles_between_zero_and_one() {
    assert_eq!(next_frame(0), 1);
    assert_eq!(next_frame(1), 0);
    assert_eq!(next_frame(next_frame(0)), 0);
}

#[test]
fn next_frame_outside_cycle_counts_up() {
    assert_eq!(next_frame(2), 3);
    assert_eq!(next_frame(7), 8);
}

#[test]
fn new_animation_uses_frame_interval() {
    let a = DinoAnimation::new();
    assert_eq!(a.timer.duration_nanos(), FRAME_INTERVAL_NANOS);
    assert_eq!(a.timer.duration_nanos(), 100_000_000);
    assert_eq!(a.timer.elapsed_nanos(), 0);
}

#[test]
fn timer_accumulates_below_period() {
    let mut t = AnimationTimer::new(100);
    assert_eq!(t.tick(30), 0);
    assert_eq!(t.elapsed_nanos(), 30);
    assert_eq!(t.tick(69), 0);
    assert_eq!(t.elapsed_nanos(), 99);
}

#[test]
fn timer_fires_and_keeps_remainder() {
    let mut t = AnimationTimer::new(100);
    assert_eq!(t.tick(70), 0);
    assert_eq!(t.tick(50), 1);
    assert_eq!(t.elapsed_nanos(), 20);
    assert_eq!(t.duration_nanos(), 100);
}

#[test]
fn timer_fires_on_exact_period() {
    let mut t = AnimationTimer::new(100);
    assert_eq!(t.tick(100), 1);
    assert_eq!(t.elapsed_nanos(), 0);
}

#[test]
fn timer_long_step_keeps_remainder_past_whole_periods() {
    let mut t = AnimationTimer::new(100);
    assert_eq!(t.tick(350), 3);
    assert_eq!(t.elapsed_nanos(), 50);
}

#[test]
fn animate_flips_frame_each_interval() {
    let mut a = DinoAnimation::new();
    let mut index: usize = 0;
    let step = FRAME_INTERVAL_NANOS / 4;
    let mut seen = Vec::new();
    for _ in 0..12 {
        animate(&mut a, &mut index, step);
        seen.push(index);
    }
    assert_eq!(seen, vec![0, 0, 0, 1, 1, 1, 1, 0, 0, 0, 0, 1]);
}

#[test]
fn animate_without_full_interval_keeps_frame() {
    let mut a = DinoAnimation::new();
    let mut index: usize = 1;
    animate(&mut a, &mut index, FRAME_INTERVAL_NANOS - 1);
    assert_eq!(index, 1);
    assert_eq!(a.timer.elapsed_nanos(), FRAME_INTERVAL_NANOS - 1);
    animate(&mut a, &mut index, 1);
    assert_eq!(index, 0);
    assert_eq!(a.timer.elapsed_nanos(), 0);
}

#[test]
fn animate_long_frame_flips_once_per_period() {
    let mut a = DinoAnimation::new();
    let mut index: usize = 0;
    animate(&mut a, &mut index, 2 * FRAME_INTERVAL_NANOS + 5);
    assert_eq!(index, 0);
    assert_eq!(a.timer.elapsed_nanos(), 5);
    animate(&mut a, &mut index, 3 * FRAME_INTERVAL_NANOS);
    assert_eq!(index, 1);
    assert_eq!(a.timer.elapsed_nanos(), 5);
}

#[test]
fn animate_even_periods_keep_large_index() {
    let mut a = DinoAnimation::new();
    let mut index: usize = usize::MAX;
    animate(&mut a, &mut index, 2 * FRAME_INTERVAL_NANOS);
    assert_eq!(index, usize::MAX);
}

#[test]
fn animate_zero_delta_changes_nothing() {
    let mut a = DinoAnimation::new();
    let mut index: usize = 1;
    animate(&mut a, &mut index, 0);
    assert_eq!(index, 1);
    assert_eq!(a.timer.elapsed_nanos(), 0);
}
