//! Decisions of the main event loop and the errors of the drag.

use vstd::prelude::*;

verus! {

/// Errors of the drag.
#[derive(Clone, Copy, Debug, PartialEq, Eq, Structural)]
pub enum GtError {
    /// Writing to the virtual pointer failed.
    SinkIO,
    /// The delay controller ended while the loop still ran.
    ControllerExited,
    /// The control channel closed unexpectedly.
    ChannelClosed,
    /// The virtual pointer's handle could not be duplicated.
    FDExhaustion,
}

/// Why the main loop woke.
#[derive(Clone, Copy, Debug, PartialEq, Eq, Structural)]
pub enum Wake {
    /// The pad had events; all of them were translated. Carries whether the
    /// delay controller's task has finished meanwhile.
    Readable { controller_finished: bool },
    /// The periodic tick. Carries whether shutdown was requested.
    Tick { exit_requested: bool },
}

/// What the main loop does after a wake.
#[derive(Clone, Copy, Debug, PartialEq, Eq, Structural)]
pub enum LoopStep {
    KeepRunning,
    /// Leave the loop for the clean shutdown path.
    Shutdown,
    /// Stop with this error.
    Fail(GtError),
}

pub open spec fn loop_step_of(w: Wake) -> LoopStep {
    match w {
        Wake::Readable { controller_finished } => {
            if controller_finished { LoopStep::Fail(GtError::ControllerExited) } else { LoopStep::KeepRunning }
        },
        Wake::Tick { exit_requested } => {
            if exit_requested { LoopStep::Shutdown } else { LoopStep::KeepRunning }
        },
    }
}

/// Decides what the main loop does after waking for `w`.
pub fn after_wake(w: Wake) -> (r: LoopStep)
    ensures
        r == loop_step_of(w),
{
    match w {
        Wake::Readable { controller_finished } => {
            if controller_finished {
                LoopStep::Fail(GtError::ControllerExited)
            } else {
                LoopStep::KeepRunning
            }
        },
        Wake::Tick { exit_requested } => {
            if exit_requested {
                LoopStep::Shutdown
            } else {
                LoopStep::KeepRunning
            }
        },
    }
}

} // verus!
