//! A spawn timer: when its delay runs out it sends its spawn signals and removes itself.
use vstd::prelude::*;
use crate::ball::SpawnBall;

verus! {

/// The signals a spawn timer sends when its delay runs out.
#[derive(Clone, Debug)]
pub struct SpawnTimer {
    pub signals: Vec<SpawnBall>,
}

/// What a spawn timer does in one frame.
pub struct TimerOutcome {
    /// The signals to send, in order.
    pub signals: Vec<SpawnBall>,
    /// Whether the timer entity is removed.
    pub despawn: bool,
}

impl SpawnTimer {
    /// One frame of the timer, where `finished` says whether its delay has run out.
    /// The timer is removed together with its signals, so a timer without
    /// signals stays in the world.
    pub fn fire(&self, finished: bool) -> (out: TimerOutcome)
        ensures
            finished ==> out.signals@ == self.signals@ && out.despawn == (self.signals@.len() > 0),
            !finished ==> out.signals@.len() == 0 && !out.despawn,
    {
        if finished {
            let mut out: Vec<SpawnBall> = Vec::new();
            let mut despawn = false;
            let mut i: usize = 0;
            while i < self.signals.len()
                invariant
                    i <= self.signals@.len(),
                    out@ == self.signals@.take(i as int),
                    despawn == (i > 0),
                decreases self.signals@.len() - i,
            {
                out.push(self.signals[i]);
                despawn = true;
                assert(self.signals@.take(i + 1) =~= self.signals@.take(i as int).push(self.signals@[i as int]));
                i = i + 1;
            }
            assert(self.signals@.take(self.signals@.len() as int) =~= self.signals@);
            TimerOutcome { signals: out, despawn }
        } else {
            TimerOutcome { signals: Vec::new(), despawn: false }
        }
    }
}

} // verus!
