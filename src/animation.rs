use std::time::Duration;

use bevy::time::{Timer, TimerMode};
use vstd::arithmetic::div_mod::lemma_fundamental_div_mod;
use vstd::arithmetic::div_mod::lemma_fundamental_div_mod_converse;
use vstd::prelude::*;

verus! {

/// Time between two frames of the running animation, in nanoseconds.
pub const FRAME_INTERVAL_NANOS: u64 = 100_000_000;

/// The frame that follows `index` in the two-frame running cycle.
pub open spec fn next_frame_spec(index: int) -> int {
    if index == 1 {
        0
    } else {
        index + 1
    }
}

/// Relies on bevy's `Timer::new`, `Timer::set_elapsed`, `Timer::tick` and
/// `Timer::times_finished_this_tick` in repeating mode: the stopwatch
/// advances by `delta`, the timer counts the whole durations that the
/// elapsed time covers and keeps only the remainder past them. `tick`
/// divides by the duration and counts whole periods in a `u32`, hence the
/// two bounds.
#[verifier::external_body]
fn repeating_timer_tick(duration_nanos: u64, elapsed_nanos: u64, delta_nanos: u64) -> (r: (u64, u32))
    requires
        duration_nanos > 0,
        (elapsed_nanos + delta_nanos) / (duration_nanos as int) <= u32::MAX,
    ensures
        r.0 == (elapsed_nanos + delta_nanos) % (duration_nanos as int),
        r.1 == (elapsed_nanos + delta_nanos) / (duration_nanos as int),
{
    let mut timer = Timer::new(Duration::from_nanos(duration_nanos), TimerMode::Repeating);
    timer.set_elapsed(Duration::from_nanos(elapsed_nanos));
    timer.tick(Duration::from_nanos(delta_nanos));
    (timer.elapsed().as_nanos() as u64, timer.times_finished_this_tick())
}

/// A repeating timer, measured in nanoseconds.
pub struct AnimationTimer {
    duration_nanos: u64,
    elapsed_nanos: u64,
}

impl AnimationTimer {
    /// Length of one period.
    pub closed spec fn duration(&self) -> nat {
        self.duration_nanos as nat
    }

    /// Time accumulated in the current period.
    pub closed spec fn elapsed(&self) -> nat {
        self.elapsed_nanos as nat
    }

    /// The period is not empty and the elapsed time lies within it.
    pub open spec fn wf(&self) -> bool {
        0 < self.duration() && self.elapsed() < self.duration()
    }

    /// A timer with the given period that has not run yet.
    pub fn new(duration_nanos: u64) -> (t: AnimationTimer)
        requires
            duration_nanos > 0,
        ensures
            t.wf(),
            t.duration() == duration_nanos,
            t.elapsed() == 0,
    {
        AnimationTimer { duration_nanos, elapsed_nanos: 0 }
    }

    pub fn duration_nanos(&self) -> (r: u64)
        ensures
            r == self.duration(),
    {
        self.duration_nanos
    }

    pub fn elapsed_nanos(&self) -> (r: u64)
        ensures
            r == self.elapsed(),
    {
        self.elapsed_nanos
    }

    /// Advances the timer by `delta_nanos`; returns how many periods ended.
    pub fn tick(&mut self, delta_nanos: u64) -> (periods: u32)
        requires
            old(self).wf(),
            (old(self).elapsed() + delta_nanos) / (old(self).duration() as int) <= u32::MAX,
        ensures
            final(self).wf(),
            final(self).duration() == old(self).duration(),
            final(self).elapsed() == (old(self).elapsed() + delta_nanos) % (old(self).duration() as int),
            periods == (old(self).elapsed() + delta_nanos) / (old(self).duration() as int),
    {
        let (elapsed, periods) = repeating_timer_tick(self.duration_nanos, self.elapsed_nanos, delta_nanos);
        self.elapsed_nanos = elapsed;
        periods
    }
}

/// The frame that follows `index` in the two-frame running cycle.
pub fn next_frame(index: usize) -> (r: usize)
    requires
        index < usize::MAX,
    ensures
        r == next_frame_spec(index as int),
{
    if index == 1 {
        0
    } else {
        index + 1
    }
}

/// Animation state of the player: the timer that paces its frames.
pub struct DinoAnimation {
    pub timer: AnimationTimer,
}

impl DinoAnimation {
    /// A running animation that changes frame once per `FRAME_INTERVAL_NANOS`.
    pub fn new() -> (a: DinoAnimation)
        ensures
            a.timer.wf(),
            a.timer.duration() == FRAME_INTERVAL_NANOS,
            a.timer.elapsed() == 0,
    {
        DinoAnimation { timer: AnimationTimer::new(FRAME_INTERVAL_NANOS) }
    }
}

/// Advances the animation by `delta_nanos`; the sprite moves on one frame for
/// each period that the timer finishes, so within the two-frame cycle it
/// ends on the other frame exactly when an odd number of periods ended.
pub fn animate(animation: &mut DinoAnimation, sprite_index: &mut usize, delta_nanos: u64)
    requires
        old(animation).timer.wf(),
        (old(animation).timer.elapsed() + delta_nanos) / (old(animation).timer.duration() as int)
            <= u32::MAX,
        ((old(animation).timer.elapsed() + delta_nanos) / (old(animation).timer.duration() as int))
            % 2 == 1 ==> *old(sprite_index) < usize::MAX,
    ensures
        final(animation).timer.wf(),
        final(animation).timer.duration() == old(animation).timer.duration(),
        final(animation).timer.elapsed() == (old(animation).timer.elapsed() + delta_nanos) % (
        old(animation).timer.duration() as int),
        *final(sprite_index) == if ((old(animation).timer.elapsed() + delta_nanos) / (old(
            animation,
        ).timer.duration() as int)) % 2 == 1 {
            next_frame_spec(*old(sprite_index) as int)
        } else {
            *old(sprite_index) as int
        },
{
    let periods = animation.timer.tick(delta_nanos);
    if periods % 2 == 1 {
        *sprite_index = next_frame(*sprite_index);
    }
}

/// Within the two-frame cycle the next frame is always the other one, and
/// two steps lead back to the start.
pub proof fn lemma_frame_alternates(index: int)
    requires
        0 <= index <= 1,
    ensures
        0 <= next_frame_spec(index) <= 1,
        next_frame_spec(index) != index,
        next_frame_spec(next_frame_spec(index)) == index,
{
}

/// Sum of a run of time steps.
pub open spec fn total(deltas: Seq<nat>) -> nat
    decreases deltas.len(),
{
    if deltas.len() == 0 {
        0
    } else {
        total(deltas.drop_last()) + deltas.last()
    }
}

/// Elapsed time of a timer of period `duration` that started at `elapsed`
/// after it has been ticked by each of `deltas` in turn.
pub open spec fn elapsed_after(elapsed: nat, duration: nat, deltas: Seq<nat>) -> nat
    decreases deltas.len(),
{
    if deltas.len() == 0 {
        elapsed
    } else {
        ((elapsed_after(elapsed, duration, deltas.drop_last()) + deltas.last()) as int % (
        duration as int)) as nat
    }
}

/// Sprite frame after `animate` has been called with each of `deltas` in
/// turn, starting from frame `index` and a timer at `elapsed`.
pub open spec fn frame_after(index: int, elapsed: nat, duration: nat, deltas: Seq<nat>) -> int
    decreases deltas.len(),
{
    if deltas.len() == 0 {
        index
    } else {
        let prev = frame_after(index, elapsed, duration, deltas.drop_last());
        if ((elapsed_after(elapsed, duration, deltas.drop_last()) + deltas.last()) as int / (
        duration as int)) % 2 == 1 {
            next_frame_spec(prev)
        } else {
            prev
        }
    }
}

/// Over any run of ticks the sprite flips between frames 0 and 1 once for
/// every whole period of time that has passed, and the timer keeps the time
/// past the last whole period.
pub proof fn lemma_frame_flips_once_per_interval(
    index: int,
    elapsed: nat,
    duration: nat,
    deltas: Seq<nat>,
)
    requires
        0 <= index <= 1,
        elapsed < duration,
    ensures
        elapsed_after(elapsed, duration, deltas) == (elapsed + total(deltas)) as int % (duration as int),
        frame_after(index, elapsed, duration, deltas) == (index + (elapsed + total(deltas)) as int / (
        duration as int)) % 2,
    decreases deltas.len(),
{
    let d = duration as int;
    if deltas.len() == 0 {
        lemma_fundamental_div_mod_converse(elapsed as int, d, 0, elapsed as int);
    } else {
        let init = deltas.drop_last();
        let step = deltas.last() as int;
        lemma_frame_flips_once_per_interval(index, elapsed, duration, init);
        let before: int = (elapsed + total(init)) as int;
        let after: int = before + step;
        lemma_fundamental_div_mod(before, d);
        let q: int = before / d;
        let r: int = before % d;
        assert(total(deltas) == total(init) + step);
        lemma_fundamental_div_mod(r + step, d);
        let q2: int = (r + step) / d;
        let r2: int = (r + step) % d;
        assert(q * d + q2 * d == (q + q2) * d) by (nonlinear_arith);
        lemma_fundamental_div_mod_converse(after, d, q + q2, r2);
    }
}

} // verus!
