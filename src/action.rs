use vstd::prelude::*;

use crate::components::Velocity;
use crate::tick::Tick;

verus! {

/// A command that changes the simulation when its tick is processed.
#[derive(Clone, Copy, Debug, PartialEq, Eq, Hash, Structural)]
pub enum Action {
    /// Spawns a ball at the origin with the given velocity and no acceleration.
    SpawnBall { velocity: Velocity },
    /// Pushes every entity that has a position and an acceleration away from
    /// the origin, by `strength` on each axis where its position is not zero.
    OutwardForce { strength: i64 },
}

/// An action together with the tick at which it must be applied.
#[derive(Clone, Copy, Debug, PartialEq, Eq, Hash, Structural)]
pub struct ActionPacket {
    pub tick: Tick,
    pub action: Action,
}

impl ActionPacket {
    pub fn new(tick: Tick, action: Action) -> (r: ActionPacket)
        ensures
            r == (ActionPacket { tick, action }),
    {
        ActionPacket { tick, action }
    }
}

/// The actions loaded into the simulation state for the tick being processed.
#[derive(Debug, Default)]
pub struct Actions(pub Vec<Action>);

} // verus!
