use vstd::prelude::*;

verus! {

/// One tick's snapshot of the directional keys: the only input surface
/// the simulation consumes.
#[derive(Clone, Copy, PartialEq, Eq, Structural, Debug)]
pub struct InputSnapshot {
    /// The "up" (flap) key is held.
    pub up: bool,
    /// The "left" key is held.
    pub left: bool,
    /// The "right" key is held.
    pub right: bool,
}

impl InputSnapshot {
    /// True when some directional key is held this tick.
    pub open spec fn any_held(self) -> bool {
        self.up || self.left || self.right
    }

    /// The snapshot of a tick on which no key is held.
    pub fn released() -> (r: InputSnapshot)
        ensures
            r == (InputSnapshot { up: false, left: false, right: false }),
    {
        InputSnapshot { up: false, left: false, right: false }
    }
}

} // verus!
