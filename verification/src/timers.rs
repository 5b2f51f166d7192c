//! Repeating countdown timers that drive periodic entity spawning, in
//! whole milliseconds.

use vstd::prelude::*;

verus! {

/// The longest period a timer may be built with, in milliseconds.
pub const MAX_TIMER_MS: u64 = 1_000_000_000;

/// The longest frame delta a tick may carry, in milliseconds.
pub const MAX_FRAME_MS: u64 = 1_000_000;

/// How often a new enemy is spawned, in milliseconds.
pub const ENEMY_SPAWN_TIME_MS: u64 = 5_000;

/// How often a new star is spawned, in milliseconds.
pub const STAR_SPAWN_TIME_MS: u64 = 1_000;

/// A repeating countdown: every `duration_ms` of accumulated time it
/// finishes once and starts over, keeping the remainder.
#[derive(Clone, Copy, PartialEq, Eq, Structural, Debug)]
pub struct RepeatingTimer {
    pub duration_ms: u64,
    pub elapsed_ms: u64,
    pub just_finished: bool,
}

/// A well-formed timer: a positive, bounded period, with less than one
/// period accumulated.
pub open spec fn timer_wf(t: RepeatingTimer) -> bool {
    0 < t.duration_ms <= MAX_TIMER_MS && t.elapsed_ms < t.duration_ms
}

/// The timer `t` after a tick of `delta_ms`: it has finished exactly
/// when a period boundary was crossed, and keeps the remainder.
pub open spec fn ticked(t: RepeatingTimer, delta_ms: u64) -> RepeatingTimer {
    RepeatingTimer {
        duration_ms: t.duration_ms,
        elapsed_ms: (((t.elapsed_ms + delta_ms) % (t.duration_ms as int)) as u64),
        just_finished: t.elapsed_ms + delta_ms >= t.duration_ms,
    }
}

impl RepeatingTimer {
    /// A fresh repeating timer with the given period.
    pub fn new(duration_ms: u64) -> (t: RepeatingTimer)
        requires
            0 < duration_ms <= MAX_TIMER_MS,
        ensures
            timer_wf(t),
            t.duration_ms == duration_ms,
            t.elapsed_ms == 0,
            !t.just_finished,
    {
        RepeatingTimer { duration_ms, elapsed_ms: 0, just_finished: false }
    }

    /// Advances the timer by one frame's delta.
    pub fn tick(&mut self, delta_ms: u64)
        requires
            timer_wf(*old(self)),
            delta_ms <= MAX_FRAME_MS,
        ensures
            *final(self) == ticked(*old(self), delta_ms),
            timer_wf(*final(self)),
    {
        let total = self.elapsed_ms + delta_ms;
        self.just_finished = total >= self.duration_ms;
        self.elapsed_ms = total % self.duration_ms;
    }

    /// Whether the timer finished during the last tick.
    pub fn finished(&self) -> (r: bool)
        ensures
            r == self.just_finished,
    {
        self.just_finished
    }
}

/// The repeating timer that paces enemy spawning.
#[derive(Clone, Copy, PartialEq, Eq, Structural, Debug)]
pub struct EnemySpawnTimer {
    pub timer: RepeatingTimer,
}

impl Default for EnemySpawnTimer {
    /// A fresh enemy-spawn timer with the enemy spawn period.
    fn default() -> (r: Self)
        ensures
            timer_wf(r.timer),
            r.timer.duration_ms == ENEMY_SPAWN_TIME_MS,
            r.timer.elapsed_ms == 0,
            !r.timer.just_finished,
    {
        EnemySpawnTimer { timer: RepeatingTimer::new(ENEMY_SPAWN_TIME_MS) }
    }
}

/// The repeating timer that paces star spawning.
#[derive(Clone, Copy, PartialEq, Eq, Structural, Debug)]
pub struct StarSpawnTimer {
    pub timer: RepeatingTimer,
}

impl Default for StarSpawnTimer {
    /// A fresh star-spawn timer with the star spawn period.
    fn default() -> (r: Self)
        ensures
            timer_wf(r.timer),
            r.timer.duration_ms == STAR_SPAWN_TIME_MS,
            r.timer.elapsed_ms == 0,
            !r.timer.just_finished,
    {
        StarSpawnTimer { timer: RepeatingTimer::new(STAR_SPAWN_TIME_MS) }
    }
}

/// Advances both spawn timers by one frame's delta.
pub fn tick_timers(
    enemy_timer: &mut EnemySpawnTimer,
    star_timer: &mut StarSpawnTimer,
    delta_ms: u64,
)
    requires
        timer_wf(old(enemy_timer).timer),
        timer_wf(old(star_timer).timer),
        delta_ms <= MAX_FRAME_MS,
    ensures
        final(enemy_timer).timer == ticked(old(enemy_timer).timer, delta_ms),
        final(star_timer).timer == ticked(old(star_timer).timer, delta_ms),
        timer_wf(final(enemy_timer).timer),
        timer_wf(final(star_timer).timer),
{
    enemy_timer.timer.tick(delta_ms);
    star_timer.timer.tick(delta_ms);
}

} // verus!
