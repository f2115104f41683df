//! A shredder follows its polyline point by point; it moves toward its
//! current target point and advances to the next one once close enough.
use vstd::prelude::*;

verus! {

/// Where a shredder is on its polyline: the index of the point it heads for,
/// and how many points the polyline has.
#[derive(Clone, Copy, Debug)]
pub struct Shredder {
    pub target_point: usize,
    pub point_count: usize,
}

/// How the shredder moves this frame.
#[derive(Clone, Copy, PartialEq, Eq, Structural, Debug)]
pub enum ShredderMove {
    /// Head for the point with this index at the shredder's speed.
    Toward(usize),
    /// The target was reached; keep the current velocity, the next point is the new target.
    Advance,
    /// The route is done: stand still.
    Stop,
}

/// The target index after one frame.
pub open spec fn next_target(target: int, count: int, near_target: bool) -> int {
    if target + 1 < count && near_target { target + 1 } else { target }
}

/// The move made in one frame.
pub open spec fn shredder_move(target: int, count: int, near_target: bool) -> ShredderMove {
    if target + 1 < count {
        if near_target { ShredderMove::Advance } else { ShredderMove::Toward(target as usize) }
    } else {
        ShredderMove::Stop
    }
}

impl Shredder {
    /// One frame of the shredder (after its start delay), where `near_target`
    /// says whether it is within reach of its target point.
    pub fn step(&mut self, near_target: bool) -> (m: ShredderMove)
        requires
            old(self).point_count > 0,
        ensures
            final(self).point_count == old(self).point_count,
            final(self).target_point == next_target(old(self).target_point as int, old(self).point_count as int, near_target),
            m == shredder_move(old(self).target_point as int, old(self).point_count as int, near_target),
    {
        if self.target_point < self.point_count - 1 {
            if near_target {
                self.target_point = self.target_point + 1;
                ShredderMove::Advance
            } else {
                ShredderMove::Toward(self.target_point)
            }
        } else {
            ShredderMove::Stop
        }
    }
}

/// The target index after frames in which the shredder was near its target as `nears` says.
pub open spec fn target_after(target: int, count: int, nears: Seq<bool>) -> int
    decreases nears.len(),
{
    if nears.len() == 0 {
        target
    } else {
        target_after(next_target(target, count, nears[0]), count, nears.drop_first())
    }
}

/// How many of the frames found the shredder near its target.
pub open spec fn arrivals(nears: Seq<bool>) -> int
    decreases nears.len(),
{
    if nears.len() == 0 { 0 } else { (if nears[0] { 1int } else { 0int }) + arrivals(nears.drop_first()) }
}

/// Along its route the shredder advances one point per arrival and stops at
/// the last point of the polyline: it never heads for that last point, and
/// its target never goes back.
pub proof fn lemma_shredder_route(target: int, count: int, nears: Seq<bool>)
    requires
        0 <= target < count,
    ensures
        target_after(target, count, nears) == if target + arrivals(nears) < count - 1 {
            target + arrivals(nears)
        } else {
            count - 1
        },
        forall|near: bool| (#[trigger] shredder_move(target, count, near)) matches ShredderMove::Toward(i) ==> i + 1 < count,
    decreases nears.len(),
{
    if nears.len() > 0 {
        lemma_arrivals_nonneg(nears.drop_first());
        lemma_shredder_route(next_target(target, count, nears[0]), count, nears.drop_first());
    }
}

proof fn lemma_arrivals_nonneg(nears: Seq<bool>)
    ensures
        arrivals(nears) >= 0,
    decreases nears.len(),
{
    if nears.len() > 0 {
        lemma_arrivals_nonneg(nears.drop_first());
    }
}

} // verus!
