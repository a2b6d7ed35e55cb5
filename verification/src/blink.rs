//! The task that blinks one LED, as a state machine. The caller owns the
//! output pin, the status output and the timer, and performs the actions in
//! the order in which the task hands them out.
//!
//! One round is: drive the output to the other level, report the new level,
//! sleep for the blink interval.

use vstd::prelude::*;

verus! {

/// Milliseconds between two toggles.
pub const BLINK_MILLIS: u64 = 500;

/// The level of a digital output.
#[derive(Clone, Copy, Debug, PartialEq, Eq, Structural)]
pub enum Level {
    Low,
    High,
}

/// What a blink task does next.
#[derive(Clone, Copy, Debug, PartialEq, Eq, Structural)]
pub enum BlinkPhase {
    /// Drive the output to the other level.
    Toggle,
    /// Report the level that the output now has.
    Report,
    /// Sleep until the next toggle is due.
    Wait,
}

/// What a blink task asks its caller to do.
#[derive(Clone, Copy, Debug, PartialEq, Eq, Structural)]
pub enum BlinkAction {
    /// Drive the output to `level`.
    Drive { level: Level },
    /// Emit `level` on the status output.
    Report { level: Level },
    /// Sleep for `millis` milliseconds.
    Sleep { millis: u64 },
}

/// The task of one LED. `level` is the level of the output, which nobody else
/// drives.
#[derive(Clone, Copy, Debug, PartialEq, Eq, Structural)]
pub struct BlinkTask {
    pub level: Level,
    pub phase: BlinkPhase,
}

/// The other level.
pub open spec fn toggled(level: Level) -> Level {
    match level {
        Level::Low => Level::High,
        Level::High => Level::Low,
    }
}

impl Level {
    /// The other level.
    pub fn toggle(self) -> (other: Level)
        ensures
            other == toggled(self),
    {
        match self {
            Level::Low => Level::High,
            Level::High => Level::Low,
        }
    }
}

impl BlinkTask {
    /// The action that the task hands out in its current phase.
    pub open spec fn pending(self) -> BlinkAction {
        match self.phase {
            BlinkPhase::Toggle => BlinkAction::Drive { level: toggled(self.level) },
            BlinkPhase::Report => BlinkAction::Report { level: self.level },
            BlinkPhase::Wait => BlinkAction::Sleep { millis: BLINK_MILLIS },
        }
    }

    /// The task after it handed out the action of its current phase.
    pub open spec fn advanced(self) -> BlinkTask {
        match self.phase {
            BlinkPhase::Toggle => BlinkTask {
                level: toggled(self.level),
                phase: BlinkPhase::Report,
            },
            BlinkPhase::Report => BlinkTask { level: self.level, phase: BlinkPhase::Wait },
            BlinkPhase::Wait => BlinkTask { level: self.level, phase: BlinkPhase::Toggle },
        }
    }

    /// The task after it handed out `n` actions.
    pub open spec fn advanced_by(self, n: nat) -> BlinkTask
        decreases n,
    {
        if n == 0 {
            self
        } else {
            self.advanced_by((n - 1) as nat).advanced()
        }
    }

    /// A task for an output that is at `level`; it toggles first.
    pub fn new(level: Level) -> (task: BlinkTask)
        ensures
            task == (BlinkTask { level, phase: BlinkPhase::Toggle }),
    {
        BlinkTask { level, phase: BlinkPhase::Toggle }
    }

    /// Hands out the next action and moves on to the phase after it.
    pub fn next(&mut self) -> (action: BlinkAction)
        ensures
            action == old(self).pending(),
            *final(self) == old(self).advanced(),
    {
        match self.phase {
            BlinkPhase::Toggle => {
                self.level = self.level.toggle();
                self.phase = BlinkPhase::Report;
                BlinkAction::Drive { level: self.level }
            },
            BlinkPhase::Report => {
                self.phase = BlinkPhase::Wait;
                BlinkAction::Report { level: self.level }
            },
            BlinkPhase::Wait => {
                self.phase = BlinkPhase::Toggle;
                BlinkAction::Sleep { millis: BLINK_MILLIS }
            },
        }
    }

    /// A round is three actions long and leaves the output at the other
    /// level, so two rounds bring the task back to where it was: the output
    /// alternates between on and off, one change per interval.
    pub proof fn lemma_rounds_alternate(self)
        ensures
            self.advanced_by(3) == (BlinkTask { level: toggled(self.level), phase: self.phase }),
            self.advanced_by(6) == self,
    {
        reveal_with_fuel(BlinkTask::advanced_by, 7);
    }
}

} // verus!
