//! A splitter gate: every ball that enters it is removed and turned into a
//! list of spawn signals. With a limited budget, once it is used up only the
//! first signal is sent.
use vstd::prelude::*;
use crate::ball::SpawnBall;

verus! {

/// A splitter: the signals it sends for each ball, and how many more full
/// splits it may perform (`None`: no limit).
#[derive(Clone, Debug)]
pub struct GateSplitter {
    signals: Vec<SpawnBall>,
    remaining: Option<u32>,
}

/// What one ball entering the splitter causes.
pub struct SplitOutcome {
    /// The signals to send, in order.
    pub signals: Vec<SpawnBall>,
    /// Whether the splitter is drawn faded (its budget is used up).
    pub faded: bool,
}

/// The signals sent for one ball by a splitter with these signals and this budget.
pub open spec fn split_signals(signals: Seq<SpawnBall>, remaining: Option<u32>) -> Seq<SpawnBall> {
    match remaining {
        Some(r) => if r > 0 { signals } else { signals.take(1) },
        None => signals,
    }
}

/// The budget after one ball.
pub open spec fn split_remaining(remaining: Option<u32>) -> Option<u32> {
    match remaining {
        Some(r) => if r > 0 { Some((r - 1) as u32) } else { Some(0) },
        None => None,
    }
}

/// A splitter can take a ball unless its budget is used up and it has no signal to send.
pub open spec fn can_split(signals: Seq<SpawnBall>, remaining: Option<u32>) -> bool {
    remaining == Some(0u32) ==> signals.len() > 0
}

impl GateSplitter {
    pub closed spec fn spec_signals(&self) -> Seq<SpawnBall> {
        self.signals@
    }

    pub closed spec fn spec_remaining(&self) -> Option<u32> {
        self.remaining
    }

    /// A splitter with these signals and this budget.
    pub fn new(signals: Vec<SpawnBall>, remaining: Option<u32>) -> (s: Self)
        ensures
            s.spec_signals() == signals@,
            s.spec_remaining() == remaining,
    {
        GateSplitter { signals, remaining }
    }

    /// The signals sent for each ball.
    pub fn signals(&self) -> (r: &Vec<SpawnBall>)
        ensures
            r@ == self.spec_signals(),
    {
        &self.signals
    }

    /// How many more full splits remain.
    pub fn remaining(&self) -> (r: Option<u32>)
        ensures
            r == self.spec_remaining(),
    {
        self.remaining
    }

    /// A ball has entered the splitter: spend one unit of the budget, or,
    /// when it is used up, send the first signal only and fade the splitter.
    pub fn split(&mut self) -> (out: SplitOutcome)
        requires
            can_split(old(self).spec_signals(), old(self).spec_remaining()),
        ensures
            out.signals@ == split_signals(old(self).spec_signals(), old(self).spec_remaining()),
            out.faded == (old(self).spec_remaining() == Some(0u32)),
            final(self).spec_signals() == old(self).spec_signals(),
            final(self).spec_remaining() == split_remaining(old(self).spec_remaining()),
    {
        let mut out = self.signals.clone();
        let mut faded = false;
        match self.remaining {
            Some(r) => {
                if r > 0 {
                    self.remaining = Some(r - 1);
                } else {
                    let first = self.signals[0];
                    out = Vec::new();
                    out.push(first);
                    faded = true;
                    assert(out@ =~= self.signals@.take(1));
                }
            },
            None => {},
        }
        SplitOutcome { signals: out, faded }
    }
}

/// The budget after `n` balls.
pub open spec fn remaining_after(remaining: Option<u32>, n: nat) -> Option<u32>
    decreases n,
{
    if n == 0 { remaining } else { remaining_after(split_remaining(remaining), (n - 1) as nat) }
}

/// How many signals `n` balls cause in all.
pub open spec fn signals_sent(signals: Seq<SpawnBall>, remaining: Option<u32>, n: nat) -> nat
    decreases n,
{
    if n == 0 {
        0
    } else {
        split_signals(signals, remaining).len() + signals_sent(signals, split_remaining(remaining), (n - 1) as nat)
    }
}

/// A splitter with a budget of `r` splits the first `r` balls into all its
/// signals and every later ball into its first signal only; its budget then
/// stays at zero. Without a budget, every ball is split into all signals.
pub proof fn lemma_split_budget(signals: Seq<SpawnBall>, remaining: Option<u32>, n: nat)
    requires
        signals.len() > 0,
    ensures
        remaining matches Some(r) ==> {
            let full: nat = if n < r { n } else { r as nat };
            &&& signals_sent(signals, remaining, n) == full * signals.len() + (n - full)
            &&& remaining_after(remaining, n) == Some((r - full) as u32)
        },
        remaining is None ==> signals_sent(signals, remaining, n) == n * signals.len()
            && remaining_after(remaining, n) is None,
    decreases n,
{
    if n > 0 {
        lemma_split_budget(signals, split_remaining(remaining), (n - 1) as nat);
        match remaining {
            Some(r) => {
                let n1 = (n - 1) as nat;
                if r > 0 {
                    let r1 = (r - 1) as nat;
                    let full1: nat = if n1 < r1 { n1 } else { r1 };
                    assert((full1 + 1) * signals.len() == full1 * signals.len() + signals.len()) by (nonlinear_arith);
                } else {
                    assert(signals.take(1).len() == 1);
                }
            },
            None => {
                assert(n * signals.len() == (n - 1) * signals.len() + signals.len()) by (nonlinear_arith)
                    requires n > 0;
            },
        }
    }
}

} // verus!
