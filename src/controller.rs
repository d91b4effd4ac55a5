//! The delay controller: the trailing-release protocol as a state machine.
//!
//! The task that runs it waits for a signal while idle, and races the
//! release timer against the next signal while armed; each thing that
//! happens is handed to `DelayController::handle`, which says what to do.

use vstd::prelude::*;
use crate::translator::ControlSignal;

verus! {

/// Whether the release timer is running.
#[derive(Clone, Copy, Debug, PartialEq, Eq, Structural)]
pub enum TimerState {
    /// No timer: waiting for a signal.
    Idle,
    /// The timer runs; a release is pending.
    Armed,
    /// The controller has shut down.
    Stopped,
}

/// What the controller's task observed.
#[derive(Clone, Copy, Debug, PartialEq, Eq, Structural)]
pub enum ControllerEvent {
    Received(ControlSignal),
    /// The sending side of the channel is gone.
    ChannelClosed,
    /// The armed timer ran out before any signal came.
    TimerElapsed,
}

/// What the controller's task must do next.
#[derive(Clone, Copy, Debug, PartialEq, Eq, Structural)]
pub enum ControllerAction {
    /// Nothing: wait for the next event.
    Wait,
    /// Start the timer afresh, for the full delay.
    ArmTimer,
    /// Release the button now.
    Release,
    /// End the task.
    Exit,
}

/// The controller: the delay it waits and whether its timer runs.
#[derive(Clone, Copy, Debug, PartialEq, Eq, Structural)]
pub struct DelayController {
    /// Trailing-release delay, in milliseconds.
    pub delay: u64,
    pub timer: TimerState,
}

/// One step of the protocol: the timer's next state and the action.
pub open spec fn controller_next(s: TimerState, ev: ControllerEvent) -> (TimerState, ControllerAction) {
    match (s, ev) {
        (TimerState::Stopped, _) => (TimerState::Stopped, ControllerAction::Exit),
        (_, ControllerEvent::ChannelClosed) => (TimerState::Stopped, ControllerAction::Exit),
        (_, ControllerEvent::Received(ControlSignal::TerminateThread)) => (TimerState::Stopped, ControllerAction::Exit),
        (_, ControllerEvent::Received(ControlSignal::RestartTimer)) => (TimerState::Armed, ControllerAction::ArmTimer),
        (_, ControllerEvent::Received(ControlSignal::CancelTimer)) => (TimerState::Idle, ControllerAction::Release),
        (_, ControllerEvent::Received(ControlSignal::CancelMouseUp)) => (TimerState::Idle, ControllerAction::Wait),
        (TimerState::Armed, ControllerEvent::TimerElapsed) => (TimerState::Idle, ControllerAction::Release),
        (TimerState::Idle, ControllerEvent::TimerElapsed) => (TimerState::Idle, ControllerAction::Wait),
    }
}

impl DelayController {
    /// An idle controller that waits `delay` milliseconds before releasing.
    pub fn new(delay: u64) -> (r: DelayController)
        ensures
            r.delay == delay,
            r.timer == TimerState::Idle,
    {
        DelayController { delay, timer: TimerState::Idle }
    }

    /// Whether the task should race the timer against the channel.
    pub fn is_armed(&self) -> (r: bool)
        ensures
            r == (self.timer == TimerState::Armed),
    {
        match self.timer {
            TimerState::Armed => true,
            _ => false,
        }
    }

    /// Takes one event of the controller's task and says what to do.
    pub fn handle(&mut self, ev: ControllerEvent) -> (r: ControllerAction)
        ensures
            (final(self).timer, r) == controller_next(old(self).timer, ev),
            final(self).delay == old(self).delay,
    {
        if let TimerState::Stopped = self.timer {
            return ControllerAction::Exit;
        }
        let (timer, action) = match ev {
            ControllerEvent::ChannelClosed => (TimerState::Stopped, ControllerAction::Exit),
            ControllerEvent::Received(sig) => match sig {
                ControlSignal::TerminateThread => (TimerState::Stopped, ControllerAction::Exit),
                ControlSignal::RestartTimer => (TimerState::Armed, ControllerAction::ArmTimer),
                ControlSignal::CancelTimer => (TimerState::Idle, ControllerAction::Release),
                ControlSignal::CancelMouseUp => (TimerState::Idle, ControllerAction::Wait),
            },
            ControllerEvent::TimerElapsed => match self.timer {
                TimerState::Armed => (TimerState::Idle, ControllerAction::Release),
                _ => (TimerState::Idle, ControllerAction::Wait),
            },
        };
        self.timer = timer;
        action
    }
}

} // verus!
