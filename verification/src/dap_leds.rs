use vstd::prelude::*;

verus! {

/// The status LEDs of the probe. The board has none that the probe drives,
/// so host status reports change nothing.
#[derive(PartialEq, Eq, Structural, Clone, Copy, Debug)]
pub struct DapLeds();

impl DapLeds {
    pub fn new() -> (r: Self)
        ensures
            r == DapLeds(),
    {
        DapLeds()
    }
}

} // verus!
