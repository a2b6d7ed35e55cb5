//! The task that shows that the firmware is alive, as a state machine: it
//! emits one line, sleeps for the heartbeat interval, and starts over. The
//! caller owns the status output and the timer.

use vstd::prelude::*;

verus! {

/// Milliseconds between two heartbeat lines.
pub const HEARTBEAT_MILLIS: u64 = 1000;

/// What the heartbeat task does next.
#[derive(Clone, Copy, Debug, PartialEq, Eq, Structural)]
pub enum HeartbeatPhase {
    /// Emit the heartbeat line.
    Emit,
    /// Sleep until the next line is due.
    Wait,
}

/// What the heartbeat task asks its caller to do.
#[derive(Clone, Copy, Debug, PartialEq, Eq, Structural)]
pub enum HeartbeatAction {
    /// Emit the heartbeat line on the status output.
    EmitLine,
    /// Sleep for `millis` milliseconds.
    Sleep { millis: u64 },
}

/// The heartbeat task.
#[derive(Clone, Copy, Debug, PartialEq, Eq, Structural)]
pub struct HeartbeatTask {
    pub phase: HeartbeatPhase,
}

/// The line that the heartbeat task emits.
pub fn heartbeat_line() -> (line: &'static str)
    ensures
        line@ == "Hello world from embassy!"@,
{
    "Hello world from embassy!"
}

impl HeartbeatTask {
    /// The action that the task hands out in its current phase.
    pub open spec fn pending(self) -> HeartbeatAction {
        match self.phase {
            HeartbeatPhase::Emit => HeartbeatAction::EmitLine,
            HeartbeatPhase::Wait => HeartbeatAction::Sleep { millis: HEARTBEAT_MILLIS },
        }
    }

    /// The task after it handed out the action of its current phase.
    pub open spec fn advanced(self) -> HeartbeatTask {
        match self.phase {
            HeartbeatPhase::Emit => HeartbeatTask { phase: HeartbeatPhase::Wait },
            HeartbeatPhase::Wait => HeartbeatTask { phase: HeartbeatPhase::Emit },
        }
    }

    /// A task that emits first.
    pub fn new() -> (task: HeartbeatTask)
        ensures
            task == (HeartbeatTask { phase: HeartbeatPhase::Emit }),
    {
        HeartbeatTask { phase: HeartbeatPhase::Emit }
    }

    /// Hands out the next action and moves on to the phase after it.
    pub fn next(&mut self) -> (action: HeartbeatAction)
        ensures
            action == old(self).pending(),
            *final(self) == old(self).advanced(),
    {
        match self.phase {
            HeartbeatPhase::Emit => {
                self.phase = HeartbeatPhase::Wait;
                HeartbeatAction::EmitLine
            },
            HeartbeatPhase::Wait => {
                self.phase = HeartbeatPhase::Emit;
                HeartbeatAction::Sleep { millis: HEARTBEAT_MILLIS }
            },
        }
    }
}

} // verus!
