//! What a hook does when it cannot go on.

use vstd::prelude::*;

verus! {

/// The one thing a hook may do after a fault.
#[derive(Clone, Copy, Debug, PartialEq, Eq, Structural)]
pub enum Halt {
    /// Stay where it is and hand nothing back.
    Spin,
}

/// The reaction to a fault inside a hook: it has no verdict to give, so it
/// stays put.
pub fn panic() -> (h: Halt)
    ensures
        h == Halt::Spin,
{
    Halt::Spin
}

} // verus!
