use vstd::prelude::*;

verus! {

/// A simulation step number. It grows by exactly one per completed step.
#[derive(Clone, Copy, Debug, Default, PartialEq, Eq, Hash, Structural)]
pub struct Tick(pub u64);

impl Tick {
    /// The tick that follows this one.
    pub fn next(self) -> (r: Tick)
        requires
            self.0 < u64::MAX,
        ensures
            r.0 == self.0 + 1,
    {
        Tick(self.0 + 1)
    }
}

} // verus!
