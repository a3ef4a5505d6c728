use vstd::prelude::*;

verus! {

/// A repeating countdown: it finishes each time `duration_micros` have
/// elapsed and starts over with whatever time was left past the mark.
#[derive(Clone, Copy, Debug)]
pub struct SpawnTimer {
    pub duration_micros: u64,
    pub elapsed_micros: u64,
}

impl SpawnTimer {
    /// The period is positive and the time elapsed is within the period.
    pub open spec fn wf(self) -> bool {
        &&& self.duration_micros > 0
        &&& self.elapsed_micros < self.duration_micros
    }

    /// Whether advancing by `delta` completes the current period.
    pub open spec fn fires(self, delta: u64) -> bool {
        self.elapsed_micros + delta >= self.duration_micros
    }

    /// The timer after advancing by `delta`.
    pub open spec fn ticked(self, delta: u64) -> SpawnTimer {
        SpawnTimer {
            duration_micros: self.duration_micros,
            elapsed_micros: ((self.elapsed_micros + delta) % (self.duration_micros as int)) as u64,
        }
    }

    /// A fresh timer with the given period.
    pub fn new(duration_micros: u64) -> (t: SpawnTimer)
        requires
            duration_micros > 0,
        ensures
            t.wf(),
            t.duration_micros == duration_micros,
            t.elapsed_micros == 0,
    {
        SpawnTimer { duration_micros, elapsed_micros: 0 }
    }

    /// Whether the next `tick` by `delta` will report a finished period.
    pub fn finishes_within(&self, delta: u64) -> (r: bool)
        requires
            self.wf(),
        ensures
            r == self.fires(delta),
    {
        delta >= self.duration_micros - self.elapsed_micros
    }

    /// Advances the timer by `delta` and reports whether a period was
    /// completed. Several periods completed at once are reported as one.
    pub fn tick(&mut self, delta: u64) -> (finished: bool)
        requires
            old(self).wf(),
        ensures
            final(self).wf(),
            *final(self) == old(self).ticked(delta),
            finished == old(self).fires(delta),
    {
        let d = self.duration_micros;
        let e = self.elapsed_micros;
        let remaining = d - e;
        if delta >= remaining {
            let over = delta - remaining;
            proof {
                vstd::arithmetic::div_mod::lemma_mod_sub_multiples_vanish(e + delta, d as int);
                vstd::arithmetic::div_mod::lemma_mod_pos_bound((e + delta) as int, d as int);
            }
            self.elapsed_micros = over % d;
            true
        } else {
            proof {
                vstd::arithmetic::div_mod::lemma_small_mod((e + delta) as nat, d as nat);
            }
            self.elapsed_micros = e + delta;
            false
        }
    }
}

} // verus!
