use vstd::prelude::*;

verus! {

/// Where the dispatch loop stands in its life.
///
/// A loop starts `Running`. A shutdown moves it to `ShuttingDown`, and it is
/// `Stopped` once the readiness poll has handed control back. Nothing leads
/// back to `Running`.
#[derive(Clone, Copy, Debug, PartialEq, Eq, Structural)]
pub enum LoopState {
    Running,
    ShuttingDown,
    Stopped,
}

impl LoopState {
    /// The state after a shutdown was asked for.
    pub open spec fn after_shutdown(self) -> LoopState {
        if self is Running {
            LoopState::ShuttingDown
        } else {
            self
        }
    }

    /// The state after the readiness poll has released control.
    pub open spec fn after_release(self) -> LoopState {
        if self is ShuttingDown {
            LoopState::Stopped
        } else {
            self
        }
    }

    /// Asks for a shutdown: a running loop starts to shut down, any other
    /// state stays as it is.
    pub fn shutdown(self) -> (next: LoopState)
        ensures
            next == self.after_shutdown(),
    {
        match self {
            LoopState::Running => LoopState::ShuttingDown,
            LoopState::ShuttingDown => LoopState::ShuttingDown,
            LoopState::Stopped => LoopState::Stopped,
        }
    }

    /// Records that the readiness poll has released control: a loop that was
    /// shutting down is stopped, any other state stays as it is.
    pub fn release(self) -> (next: LoopState)
        ensures
            next == self.after_release(),
    {
        match self {
            LoopState::Running => LoopState::Running,
            LoopState::ShuttingDown => LoopState::Stopped,
            LoopState::Stopped => LoopState::Stopped,
        }
    }

    /// Whether the loop still services events.
    pub fn is_running(self) -> (running: bool)
        ensures
            running == (self is Running),
    {
        match self {
            LoopState::Running => true,
            LoopState::ShuttingDown => false,
            LoopState::Stopped => false,
        }
    }
}

} // verus!
