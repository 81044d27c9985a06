use vstd::prelude::*;

verus! {

/// A control message delivered to the dispatch loop through its instruction
/// channel, by the loop itself or by a controller.
#[derive(Clone, Copy, Debug, PartialEq, Eq, Structural)]
pub enum Instruction {
    /// Stop the dispatch loop.
    Shutdown,
    /// Bring the child's terminal geometry up to date.
    Resize,
}

} // verus!
