use vstd::prelude::*;
use crate::timer::SpawnTimer;

verus! {

/// Period of the spawn timer: two seconds.
pub const SPAWN_PERIOD_MICROS: u64 = 2000000;

/// What the game remembers from one frame to the next.
#[derive(Clone, Copy, Debug)]
pub struct GameState {
    pub high_score: u32,
    pub score: u32,
    /// The id that the next spawned object receives.
    pub ferris_index: u64,
    pub spawn_timer: SpawnTimer,
}

impl GameState {
    /// The high score bounds the score, and the timer is well formed.
    pub open spec fn wf(self) -> bool {
        &&& self.score <= self.high_score
        &&& self.spawn_timer.wf()
    }

    /// Counts one caught object: the score goes up by one and the high
    /// score follows it when passed. Returns whether the high score rose.
    pub fn record_hit(&mut self) -> (raised: bool)
        requires
            old(self).score < u32::MAX,
        ensures
            final(self).score == old(self).score + 1,
            final(self).high_score == if old(self).score + 1 > old(self).high_score {
                old(self).score + 1
            } else {
                old(self).high_score as int
            },
            raised == (old(self).score + 1 > old(self).high_score),
            final(self).ferris_index == old(self).ferris_index,
            final(self).spawn_timer == old(self).spawn_timer,
    {
        self.score = self.score + 1;
        if self.score > self.high_score {
            self.high_score = self.score;
            true
        } else {
            false
        }
    }

    /// Sets the score back to zero; the high score stays.
    pub fn reset(&mut self)
        ensures
            final(self).score == 0,
            final(self).high_score == old(self).high_score,
            final(self).ferris_index == old(self).ferris_index,
            final(self).spawn_timer == old(self).spawn_timer,
    {
        self.score = 0;
    }

    /// Hands out the next object id and advances the counter past it.
    pub fn take_spawn_id(&mut self) -> (id: u64)
        requires
            old(self).ferris_index < u64::MAX,
        ensures
            id == old(self).ferris_index,
            final(self).ferris_index == old(self).ferris_index + 1,
            final(self).score == old(self).score,
            final(self).high_score == old(self).high_score,
            final(self).spawn_timer == old(self).spawn_timer,
    {
        let id = self.ferris_index;
        self.ferris_index = id + 1;
        id
    }
}

impl Default for GameState {
    /// No score, no objects spawned yet, and a fresh two-second timer.
    fn default() -> (s: GameState)
        ensures
            s.wf(),
            s.score == 0,
            s.high_score == 0,
            s.ferris_index == 0,
            s.spawn_timer.duration_micros == SPAWN_PERIOD_MICROS,
            s.spawn_timer.elapsed_micros == 0,
    {
        GameState {
            high_score: 0,
            score: 0,
            ferris_index: 0,
            spawn_timer: SpawnTimer::new(SPAWN_PERIOD_MICROS),
        }
    }
}

} // verus!
