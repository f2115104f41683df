//! The generic gate: it queues the balls that spawn signals ask for, and
//! releases them one at a time, the most recently queued first.
use vstd::prelude::*;
use crate::ball::{BallType, SpawnBall};

verus! {

/// The queue of balls a generic gate still has to release.
#[derive(Clone, Debug)]
pub struct GateGeneric {
    pub remain: Vec<BallType>,
}

/// The balls of `events` addressed to entity index `gate`, in order.
pub open spec fn balls_for(events: Seq<SpawnBall>, gate: u32) -> Seq<BallType>
    decreases events.len(),
{
    if events.len() == 0 {
        Seq::empty()
    } else {
        let rest = balls_for(events.drop_last(), gate);
        if events.last().0 == gate { rest.push(events.last().1) } else { rest }
    }
}

/// Whether a signal is addressed to entity index `gate`.
pub open spec fn addressed_to(gate: u32) -> spec_fn(SpawnBall) -> bool {
    |ev: SpawnBall| ev.0 == gate
}

/// The ball kind a signal asks for.
pub open spec fn kind_asked() -> spec_fn(SpawnBall) -> BallType {
    |ev: SpawnBall| ev.1
}

/// The balls queued for a gate are one per signal addressed to it: as many as
/// there are such signals, the kinds they ask for, in their order.
pub proof fn lemma_one_ball_per_signal(events: Seq<SpawnBall>, gate: u32)
    ensures
        balls_for(events, gate) == events.filter(addressed_to(gate)).map_values(kind_asked()),
        balls_for(events, gate).len() == events.filter(addressed_to(gate)).len(),
    decreases events.len(),
{
    reveal(Seq::filter);
    let f = events.filter(addressed_to(gate));
    if events.len() == 0 {
        assert(f.map_values(kind_asked()) =~= Seq::<BallType>::empty());
    } else {
        lemma_one_ball_per_signal(events.drop_last(), gate);
        let g = events.drop_last().filter(addressed_to(gate));
        if events.last().0 == gate {
            assert(f == g.push(events.last()));
            assert(g.push(events.last()).map_values(kind_asked()) =~= g.map_values(kind_asked()).push(events.last().1));
        } else {
            assert(f == g);
        }
    }
}

/// Every event of `events` is addressed to one of `gates`.
pub open spec fn all_addressed(gates: Seq<(u32, GateGeneric)>, events: Seq<SpawnBall>) -> bool {
    forall|k: int| 0 <= k < events.len() ==>
        exists|j: int| 0 <= j < gates.len() && #[trigger] gates[j].0 == (#[trigger] events[k]).0
}

impl GateGeneric {
    /// An empty gate.
    pub fn new() -> (g: Self)
        ensures
            g.remain@ == Seq::<BallType>::empty(),
    {
        GateGeneric { remain: Vec::new() }
    }

    /// Queue one more ball.
    pub fn receive(&mut self, ball: BallType)
        ensures
            final(self).remain@ == old(self).remain@.push(ball),
    {
        self.remain.push(ball);
    }

    /// One frame of this spawner: when balls are queued and `fire` holds (the
    /// gate's chance came up), release the most recently queued one.
    pub fn release(&mut self, fire: bool) -> (r: Option<BallType>)
        ensures
            old(self).remain@.len() > 0 && fire ==> {
                &&& r == Some(old(self).remain@.last())
                &&& final(self).remain@ == old(self).remain@.drop_last()
            },
            !(old(self).remain@.len() > 0 && fire) ==> {
                &&& r is None
                &&& final(self).remain@ == old(self).remain@
            },
    {
        if self.remain.len() > 0 && fire {
            self.remain.pop()
        } else {
            None
        }
    }
}

/// Releasing right after receiving gives back the ball just received and
/// leaves the queue as it was before: the most recent ball leaves first.
pub proof fn lemma_receive_release(queue: Seq<BallType>, ball: BallType)
    ensures
        queue.push(ball).len() > 0,
        queue.push(ball).last() == ball,
        queue.push(ball).drop_last() == queue,
{
    assert(queue.push(ball).drop_last() =~= queue);
}

/// Deliver each spawn signal to the spawner it names (by entity index), in order.
/// Every signal must name a gate of `gates`.
pub fn deliver(gates: &mut Vec<(u32, GateGeneric)>, events: &Vec<SpawnBall>)
    requires
        all_addressed(old(gates)@, events@),
        forall|i: int, j: int| 0 <= i < j < old(gates)@.len() ==> old(gates)@[i].0 != old(gates)@[j].0,
    ensures
        final(gates)@.len() == old(gates)@.len(),
        forall|i: int| 0 <= i < old(gates)@.len() ==> {
            &&& (#[trigger] final(gates)@[i]).0 == old(gates)@[i].0
            &&& final(gates)@[i].1.remain@ == old(gates)@[i].1.remain@ + balls_for(events@, old(gates)@[i].0)
            &&& final(gates)@[i].1.remain@ == old(gates)@[i].1.remain@
                + events@.filter(addressed_to(old(gates)@[i].0)).map_values(kind_asked())
            &&& final(gates)@[i].1.remain@.len() == old(gates)@[i].1.remain@.len()
                + events@.filter(addressed_to(old(gates)@[i].0)).len()
        },
{
    let ghost g0 = gates@;
    let mut k: usize = 0;
    while k < events.len()
        invariant
            k <= events@.len(),
            all_addressed(g0, events@),
            forall|i: int, j: int| 0 <= i < j < g0.len() ==> g0[i].0 != g0[j].0,
            gates@.len() == g0.len(),
            forall|i: int| 0 <= i < g0.len() ==> {
                &&& (#[trigger] gates@[i]).0 == g0[i].0
                &&& gates@[i].1.remain@ == g0[i].1.remain@ + balls_for(events@.take(k as int), g0[i].0)
            },
        decreases events@.len() - k,
    {
        let ev = events[k];
        let ghost pre = gates@;
        assert(events@.take(k + 1).drop_last() =~= events@.take(k as int));
        assert(events@.take(k + 1).last() == ev);
        let mut j: usize = 0;
        while j < gates.len()
            invariant
                j <= gates@.len(),
                gates@.len() == g0.len(),
                forall|i: int| 0 <= i < g0.len() ==> (#[trigger] gates@[i]).0 == g0[i].0,
                forall|i: int, i2: int| 0 <= i < i2 < g0.len() ==> g0[i].0 != g0[i2].0,
                forall|i: int| 0 <= i < g0.len() ==> {
                    (#[trigger] gates@[i]).1.remain@ == if i < j && g0[i].0 == ev.0 {
                        pre[i].1.remain@.push(ev.1)
                    } else {
                        pre[i].1.remain@
                    }
                },
            decreases gates@.len() - j,
        {
            if gates[j].0 == ev.0 {
                let mut entry = gates.remove(j);
                entry.1.receive(ev.1);
                gates.insert(j, entry);
            }
            j = j + 1;
        }
        proof {
            assert(exists|m: int| 0 <= m < g0.len() && #[trigger] g0[m].0 == events@[k as int].0);
            assert forall|i: int| 0 <= i < g0.len() implies
                (#[trigger] gates@[i]).1.remain@ == g0[i].1.remain@ + balls_for(events@.take(k + 1), g0[i].0) by {
                if g0[i].0 == ev.0 {
                    assert(g0[i].1.remain@ + balls_for(events@.take(k as int), g0[i].0).push(ev.1)
                        =~= (g0[i].1.remain@ + balls_for(events@.take(k as int), g0[i].0)).push(ev.1));
                }
            }
        }
        k = k + 1;
    }
    assert(events@.take(events@.len() as int) =~= events@);
    assert forall|i: int| 0 <= i < g0.len() implies
        (#[trigger] gates@[i]).1.remain@ == g0[i].1.remain@ + events@.filter(addressed_to(g0[i].0)).map_values(kind_asked())
        && gates@[i].1.remain@.len() == g0[i].1.remain@.len() + events@.filter(addressed_to(g0[i].0)).len() by {
        lemma_one_ball_per_signal(events@, g0[i].0);
    }
}

} // verus!
