//! Which pair the automatic camera follows: the closest zombie and zundamon.
//! The focus moves to a new closest pair only after that pair has stayed the
//! closest for the whole transition wait; a pair that left the world is
//! dropped at once.
use vstd::prelude::*;
use crate::ball::EntityId;

verus! {

/// A zombie and a zundamon.
pub type Pair = (EntityId, EntityId);

/// The pair followed, and the pair waiting to be followed.
#[derive(Clone, Copy, Debug)]
pub struct Interest {
    pub curr: Option<Pair>,
    pub next: Option<Pair>,
}

/// What to do with the transition wait's timer.
#[derive(Clone, Copy, PartialEq, Eq, Structural, Debug)]
pub enum WaitTimer {
    /// Leave it alone.
    Keep,
    /// Start it afresh for the new waiting pair.
    Restart,
    /// Let this frame's time pass on it.
    Tick,
}

/// What one frame of the focus rule finds: the closest pair now, whether the
/// followed pair is still in the world, and whether the transition wait would
/// be over after this frame's time passed on it.
pub struct FocusInput {
    pub closest: Pair,
    pub curr_present: bool,
    pub wait_over_after_tick: bool,
}

/// The state after one frame of the focus rule, and what to do with the timer.
pub open spec fn focus_next(s: Interest, input: FocusInput) -> (Interest, WaitTimer) {
    let t = input.closest;
    match s.curr {
        None => (Interest { curr: Some(t), next: s.next }, WaitTimer::Keep),
        Some(c) => {
            let curr1 = if input.curr_present { Some(c) } else { Some(t) };
            match s.next {
                None => if t != c {
                    (Interest { curr: curr1, next: Some(t) }, WaitTimer::Restart)
                } else {
                    (Interest { curr: curr1, next: None }, WaitTimer::Keep)
                },
                Some(n) => if t == n {
                    if input.wait_over_after_tick {
                        (Interest { curr: Some(n), next: None }, WaitTimer::Tick)
                    } else {
                        (Interest { curr: curr1, next: Some(n) }, WaitTimer::Tick)
                    }
                } else {
                    (Interest { curr: curr1, next: Some(t) }, WaitTimer::Restart)
                },
            }
        },
    }
}

fn same_pair(a: Pair, b: Pair) -> (r: bool)
    ensures
        r == (a == b),
{
    a.0.index == b.0.index && a.0.generation == b.0.generation && a.1.index == b.1.index
        && a.1.generation == b.1.generation
}

impl Interest {
    /// Nothing followed yet.
    pub fn new() -> (s: Self)
        ensures
            s.curr is None && s.next is None,
    {
        Interest { curr: None, next: None }
    }

    /// One frame of the focus rule, when zombies and zundamon are both in the
    /// world. Returns the pair to follow.
    pub fn step(&mut self, input: FocusInput) -> (r: (Pair, WaitTimer))
        ensures
            (*final(self), r.1) == focus_next(*old(self), input),
            final(self).curr == Some(r.0),
            !input.curr_present ==> r.0 == input.closest && final(self).curr == Some(input.closest),
            old(self).curr is None ==> r.0 == input.closest,
    {
        let t = input.closest;
        let order = match self.curr {
            None => {
                self.curr = Some(t);
                WaitTimer::Keep
            },
            Some(c) => {
                if !input.curr_present {
                    self.curr = Some(t);
                }
                match self.next {
                    None => {
                        if !same_pair(t, c) {
                            self.next = Some(t);
                            WaitTimer::Restart
                        } else {
                            WaitTimer::Keep
                        }
                    },
                    Some(n) => {
                        if same_pair(t, n) {
                            if input.wait_over_after_tick {
                                self.curr = Some(n);
                                self.next = None;
                            }
                            WaitTimer::Tick
                        } else {
                            self.next = Some(t);
                            WaitTimer::Restart
                        }
                    },
                }
            },
        };
        let follow = match self.curr {
            Some(p) => p,
            None => t,
        };
        (follow, order)
    }
}

/// When the followed pair has left the world, the camera follows the closest
/// pair from this frame on, whatever pair was waiting; with nothing followed
/// yet, it starts with the closest pair.
pub proof fn lemma_vanished_pair_dropped(s: Interest, input: FocusInput)
    ensures
        !input.curr_present ==> focus_next(s, input).0.curr == Some(input.closest),
        s.curr is None ==> focus_next(s, input).0.curr == Some(input.closest),
{
}

/// The focus never jumps: while the followed pair stays in the world, the
/// focus only moves to the pair that waited, and only when its wait is over;
/// and a pair only waits while it is the closest one.
pub proof fn lemma_focus_moves_after_wait(s: Interest, input: FocusInput)
    requires
        s.curr is Some,
        input.curr_present,
    ensures
        ({
            let (s2, order) = focus_next(s, input);
            &&& s2.curr != s.curr ==> s.next == Some(input.closest) && input.wait_over_after_tick
                && s2.curr == s.next && s2.next is None && order == WaitTimer::Tick
            &&& s2.next is Some ==> s2.next == Some(input.closest)
        }),
{
}

} // verus!
