//! Gates with a fixed stock of balls (the general gate and the zombie gate):
//! each frame in which its chance comes up it releases one ball, and
//! once the stock is spent it removes itself.
use vstd::prelude::*;

verus! {

/// What a stocked gate does in one frame.
#[derive(Clone, Copy, PartialEq, Eq, Structural, Debug)]
pub enum GateAction {
    /// Release one ball.
    Spawn,
    /// Do nothing this frame.
    Wait,
    /// The stock is spent: remove this spawner.
    Despawn,
}

/// One frame of a gate holding `remain` balls, where `fire` says whether its chance came up.
pub fn countdown_step(remain: &mut i32, fire: bool) -> (a: GateAction)
    ensures
        *old(remain) > 0 && fire ==> a == GateAction::Spawn && *final(remain) == *old(remain) - 1,
        *old(remain) > 0 && !fire ==> a == GateAction::Wait && *final(remain) == *old(remain),
        *old(remain) <= 0 ==> a == GateAction::Despawn && *final(remain) == *old(remain),
{
    if *remain > 0 {
        if fire {
            *remain = *remain - 1;
            GateAction::Spawn
        } else {
            GateAction::Wait
        }
    } else {
        GateAction::Despawn
    }
}

/// The general gate's stock.
#[derive(Clone, Copy, Debug)]
pub struct GateGeneral {
    pub remain: i32,
}

/// The zombie gate's stock.
#[derive(Clone, Copy, Debug)]
pub struct GateZombie {
    pub remain: i32,
}

impl GateGeneral {
    /// One frame of this spawner.
    pub fn step(&mut self, fire: bool) -> (a: GateAction)
        ensures
            old(self).remain > 0 && fire ==> a == GateAction::Spawn && final(self).remain == old(self).remain - 1,
            old(self).remain > 0 && !fire ==> a == GateAction::Wait && final(self).remain == old(self).remain,
            old(self).remain <= 0 ==> a == GateAction::Despawn && final(self).remain == old(self).remain,
    {
        countdown_step(&mut self.remain, fire)
    }
}

impl GateZombie {
    /// One frame of this spawner, once its start delay has passed.
    pub fn step(&mut self, fire: bool) -> (a: GateAction)
        ensures
            old(self).remain > 0 && fire ==> a == GateAction::Spawn && final(self).remain == old(self).remain - 1,
            old(self).remain > 0 && !fire ==> a == GateAction::Wait && final(self).remain == old(self).remain,
            old(self).remain <= 0 ==> a == GateAction::Despawn && final(self).remain == old(self).remain,
    {
        countdown_step(&mut self.remain, fire)
    }
}

/// The stock left after frames whose chances came up as `fires` say, from a stock of `remain`.
pub open spec fn stock_after(remain: int, fires: Seq<bool>) -> int
    decreases fires.len(),
{
    if fires.len() == 0 {
        remain
    } else if remain > 0 && fires[0] {
        stock_after(remain - 1, fires.drop_first())
    } else {
        stock_after(remain, fires.drop_first())
    }
}

/// How many balls are released over those frames.
pub open spec fn released(remain: int, fires: Seq<bool>) -> nat
    decreases fires.len(),
{
    if fires.len() == 0 {
        0
    } else if remain > 0 && fires[0] {
        1 + released(remain - 1, fires.drop_first())
    } else {
        released(remain, fires.drop_first())
    }
}

/// How many of the frames had their chance come up.
pub open spec fn chances(fires: Seq<bool>) -> nat
    decreases fires.len(),
{
    if fires.len() == 0 {
        0
    } else {
        (if fires[0] { 1nat } else { 0nat }) + chances(fires.drop_first())
    }
}

/// A gate with a stock of `remain` balls releases exactly as many balls as
/// there were frames whose chance came up, but never more than its stock, and
/// its stock goes down by the number it released.
pub proof fn lemma_stock_released(remain: int, fires: Seq<bool>)
    requires
        remain >= 0,
    ensures
        released(remain, fires) == if chances(fires) < remain { chances(fires) as int } else { remain },
        stock_after(remain, fires) == remain - released(remain, fires),
    decreases fires.len(),
{
    if fires.len() > 0 {
        if remain > 0 && fires[0] {
            lemma_stock_released(remain - 1, fires.drop_first());
        } else {
            lemma_stock_released(remain, fires.drop_first());
            if remain == 0 {
                lemma_none_from_empty(fires.drop_first());
            }
        }
    }
}

/// An empty gate releases nothing.
proof fn lemma_none_from_empty(fires: Seq<bool>)
    ensures
        released(0, fires) == 0,
        stock_after(0, fires) == 0,
    decreases fires.len(),
{
    if fires.len() > 0 {
        lemma_none_from_empty(fires.drop_first());
    }
}

} // verus!
