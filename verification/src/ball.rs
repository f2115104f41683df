//! Kinds of ball a gate can release, and the signal that asks a gate to release one.
use vstd::prelude::*;

verus! {

/// The kind of ball a gate spawns.
#[derive(Clone, Copy, PartialEq, Eq, Structural, Debug)]
pub enum BallType {
    Zundamon,
    Zombie,
    Type1P1,
    Type1P2,
    Type2P1,
    Type2P2,
    Type3P1,
    Type3P2,
    Type4P1,
    Type4P2,
}

/// A request for the spawner whose entity index is the first field to spawn a ball of the given kind.
#[derive(Clone, Copy, PartialEq, Eq, Structural, Debug)]
pub struct SpawnBall(pub u32, pub BallType);

/// An entity of the world, by index and generation.
#[derive(Clone, Copy, PartialEq, Eq, Structural, Debug)]
pub struct EntityId {
    pub index: u32,
    pub generation: u32,
}

} // verus!
