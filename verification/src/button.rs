//! The task behind one push button, as a state machine. The caller owns the
//! input pin, the timer and the status output: it performs the action that the
//! task asks for and reports what happened as an event.
//!
//! One round is: wait for a rising edge, add the task's delta to the shared
//! counter, emit the counter's value, sleep for the debounce delay. Edges that
//! arrive before the round is over are dropped, not queued. The delay starts
//! after the edge was handled, so a contact that bounces for longer than the
//! delay can still be counted twice.

use vstd::prelude::*;
#[allow(unused_imports)]
use crate::counter::{
    lemma_interleaving_is_irrelevant, lemma_total_of_concat, total, value_after, wrap_i32,
};

verus! {

/// Milliseconds that a task sleeps after it handled an edge.
pub const DEBOUNCE_MILLIS: u64 = 300;

/// What a task is busy with.
#[derive(Clone, Copy, Debug, PartialEq, Eq, Structural)]
pub enum ButtonPhase {
    /// Armed: the next rising edge is accepted.
    WaitEdge,
    /// An edge was accepted; the delta is being added to the counter.
    ApplyDelta,
    /// The counter was read back as `value`, which is being emitted.
    Emit { value: i32 },
    /// Sleeping before the input is armed again.
    Debounce,
}

/// What the caller reports to a task.
#[derive(Clone, Copy, Debug, PartialEq, Eq, Structural)]
pub enum ButtonEvent {
    /// The input went from low to high.
    RisingEdge,
    /// The delta was added; the counter then read `value`.
    CounterRead { value: i32 },
    /// The value went out on the status channel (or was lost on the way:
    /// emitting is best effort).
    Emitted,
    /// The debounce delay is over.
    DelayElapsed,
}

/// What a task asks its caller to do.
#[derive(Clone, Copy, Debug, PartialEq, Eq, Structural)]
pub enum ButtonAction {
    /// Wait for the next rising edge of the input.
    AwaitEdge,
    /// Add `delta` to the shared counter in one atomic step, then read it.
    AddToCounter { delta: i32 },
    /// Emit `value` as the status line.
    Emit { value: i32 },
    /// Sleep for `millis` milliseconds.
    Sleep { millis: u64 },
}

/// The task of one button. `mode` is fixed when the task is made: `true`
/// counts up, `false` counts down.
#[derive(Clone, Copy, Debug, PartialEq, Eq, Structural)]
pub struct ButtonTask {
    pub mode: bool,
    pub phase: ButtonPhase,
}

/// The delta of a task with the given mode.
pub open spec fn delta_of(mode: bool) -> int {
    if mode {
        1
    } else {
        -1
    }
}

/// The delta that a task with the given mode adds per accepted edge.
pub fn delta(mode: bool) -> (d: i32)
    ensures
        d == delta_of(mode),
{
    if mode {
        1
    } else {
        -1
    }
}

impl ButtonTask {
    /// Whether the task, in its current phase, takes `event`. It takes only
    /// the event that ends the phase; every other event is dropped.
    pub open spec fn accepts(self, event: ButtonEvent) -> bool {
        match (self.phase, event) {
            (ButtonPhase::WaitEdge, ButtonEvent::RisingEdge) => true,
            (ButtonPhase::ApplyDelta, ButtonEvent::CounterRead { .. }) => true,
            (ButtonPhase::Emit { .. }, ButtonEvent::Emitted) => true,
            (ButtonPhase::Debounce, ButtonEvent::DelayElapsed) => true,
            _ => false,
        }
    }

    /// The task after `event` was reported to it.
    pub open spec fn after(self, event: ButtonEvent) -> ButtonTask {
        match (self.phase, event) {
            (ButtonPhase::WaitEdge, ButtonEvent::RisingEdge) => ButtonTask {
                mode: self.mode,
                phase: ButtonPhase::ApplyDelta,
            },
            (ButtonPhase::ApplyDelta, ButtonEvent::CounterRead { value }) => ButtonTask {
                mode: self.mode,
                phase: ButtonPhase::Emit { value },
            },
            (ButtonPhase::Emit { .. }, ButtonEvent::Emitted) => ButtonTask {
                mode: self.mode,
                phase: ButtonPhase::Debounce,
            },
            (ButtonPhase::Debounce, ButtonEvent::DelayElapsed) => ButtonTask {
                mode: self.mode,
                phase: ButtonPhase::WaitEdge,
            },
            _ => self,
        }
    }

    /// The action that belongs to the task's current phase.
    pub open spec fn pending(self) -> ButtonAction {
        match self.phase {
            ButtonPhase::WaitEdge => ButtonAction::AwaitEdge,
            ButtonPhase::ApplyDelta => ButtonAction::AddToCounter {
                delta: delta_of(self.mode) as i32,
            },
            ButtonPhase::Emit { value } => ButtonAction::Emit { value },
            ButtonPhase::Debounce => ButtonAction::Sleep { millis: DEBOUNCE_MILLIS },
        }
    }

    /// The task after all of `events` were reported to it, first to last.
    pub open spec fn run(self, events: Seq<ButtonEvent>) -> ButtonTask
        decreases events.len(),
    {
        if events.len() == 0 {
            self
        } else {
            self.run(events.drop_last()).after(events.last())
        }
    }

    /// The deltas that the task asked to be added while `events` were
    /// reported to it, in order: one for each event after which its next
    /// action was to add to the counter.
    pub open spec fn issued_deltas(self, events: Seq<ButtonEvent>) -> Seq<int>
        decreases events.len(),
    {
        if events.len() == 0 {
            Seq::empty()
        } else {
            let earlier = self.issued_deltas(events.drop_last());
            let before = self.run(events.drop_last());
            if before.accepts(events.last()) {
                match before.after(events.last()).pending() {
                    ButtonAction::AddToCounter { delta } => earlier.push(delta as int),
                    _ => earlier,
                }
            } else {
                earlier
            }
        }
    }

    /// How many debounce delays the task sat out while `events` were reported
    /// to it.
    pub open spec fn finished_delays(self, events: Seq<ButtonEvent>) -> nat
        decreases events.len(),
    {
        if events.len() == 0 {
            0
        } else {
            let earlier = self.finished_delays(events.drop_last());
            if self.run(events.drop_last()).phase is Debounce && events.last() is DelayElapsed {
                earlier + 1
            } else {
                earlier
            }
        }
    }

    /// A task that waits for its first edge.
    pub fn new(mode: bool) -> (task: ButtonTask)
        ensures
            task == (ButtonTask { mode, phase: ButtonPhase::WaitEdge }),
    {
        ButtonTask { mode, phase: ButtonPhase::WaitEdge }
    }

    /// What the caller has to do now.
    pub fn action(&self) -> (action: ButtonAction)
        ensures
            action == self.pending(),
    {
        match self.phase {
            ButtonPhase::WaitEdge => ButtonAction::AwaitEdge,
            ButtonPhase::ApplyDelta => ButtonAction::AddToCounter { delta: delta(self.mode) },
            ButtonPhase::Emit { value } => ButtonAction::Emit { value },
            ButtonPhase::Debounce => ButtonAction::Sleep { millis: DEBOUNCE_MILLIS },
        }
    }

    /// Reports `event` to the task. The event that ends the current phase
    /// moves the task on, and the next action is returned. Any other event is
    /// dropped: the task stays as it is and `None` is returned. So a rising
    /// edge counts only while the task waits for one.
    pub fn step(&mut self, event: ButtonEvent) -> (next: Option<ButtonAction>)
        ensures
            *final(self) == old(self).after(event),
            next == if old(self).accepts(event) {
                Some(final(self).pending())
            } else {
                None
            },
            !(old(self).phase is WaitEdge) && event is RisingEdge ==> *final(self) == *old(self)
                && next is None,
    {
        let moved = match (self.phase, event) {
            (ButtonPhase::WaitEdge, ButtonEvent::RisingEdge) => Some(ButtonPhase::ApplyDelta),
            (ButtonPhase::ApplyDelta, ButtonEvent::CounterRead { value }) => Some(
                ButtonPhase::Emit { value },
            ),
            (ButtonPhase::Emit { .. }, ButtonEvent::Emitted) => Some(ButtonPhase::Debounce),
            (ButtonPhase::Debounce, ButtonEvent::DelayElapsed) => Some(ButtonPhase::WaitEdge),
            _ => None,
        };
        match moved {
            Some(phase) => {
                self.phase = phase;
                Some(self.action())
            },
            None => None,
        }
    }

    /// An addition is asked for only when a rising edge was accepted, and a
    /// rising edge is accepted only while the task waits for one.
    pub proof fn lemma_addition_needs_an_accepted_edge(self, event: ButtonEvent)
        requires
            self.accepts(event),
            self.after(event).pending() is AddToCounter,
        ensures
            event is RisingEdge,
            self.phase is WaitEdge,
            self.after(event).pending() == (ButtonAction::AddToCounter {
                delta: delta_of(self.mode) as i32,
            }),
    {
    }

    /// Between two additions lies a whole debounce delay: a task that started
    /// armed has asked for as many additions as it sat out delays, and for one
    /// more exactly while a round is under way.
    pub proof fn lemma_one_edge_per_delay(self, events: Seq<ButtonEvent>)
        requires
            self.phase is WaitEdge,
        ensures
            self.finished_delays(events) <= self.issued_deltas(events).len()
                <= self.finished_delays(events) + 1,
            self.issued_deltas(events).len() == self.finished_delays(events)
                <==> self.run(events).phase is WaitEdge,
            self.run(events).mode == self.mode,
        decreases events.len(),
    {
        if events.len() > 0 {
            self.lemma_one_edge_per_delay(events.drop_last());
        }
    }

    /// Every addition that the task asks for is of its own delta, so the
    /// deltas issued add up to the delta times their number.
    pub proof fn lemma_one_delta_per_edge(self, events: Seq<ButtonEvent>)
        ensures
            forall|i: int|
                0 <= i < self.issued_deltas(events).len() ==> self.issued_deltas(events)[i]
                    == delta_of(self.mode),
            total(self.issued_deltas(events)) == delta_of(self.mode) * self.issued_deltas(
                events,
            ).len(),
            self.run(events).mode == self.mode,
        decreases events.len(),
    {
        if events.len() > 0 {
            self.lemma_one_delta_per_edge(events.drop_last());
            let earlier = self.issued_deltas(events.drop_last());
            assert(earlier.push(delta_of(self.mode)).drop_last() =~= earlier);
            assert(delta_of(self.mode) * (earlier.len() + 1) == delta_of(self.mode)
                * earlier.len() + delta_of(self.mode)) by (nonlinear_arith);
        }
    }
}

/// Two buttons on one counter, one counting up and one counting down: in
/// whatever order their additions reach the counter, it ends at the start
/// value plus the edges that the first accepted minus the edges that the
/// second accepted (wrapped into `i32`).
pub proof fn lemma_counter_after_two_buttons(
    start: int,
    up: ButtonTask,
    up_events: Seq<ButtonEvent>,
    down: ButtonTask,
    down_events: Seq<ButtonEvent>,
    applied: Seq<int>,
)
    requires
        i32::MIN <= start <= i32::MAX,
        up.mode,
        !down.mode,
        applied.to_multiset() == up.issued_deltas(up_events).to_multiset().add(
            down.issued_deltas(down_events).to_multiset(),
        ),
    ensures
        value_after(start, applied) == wrap_i32(
            start + up.issued_deltas(up_events).len() - down.issued_deltas(down_events).len(),
        ),
{
    let ups = up.issued_deltas(up_events);
    let downs = down.issued_deltas(down_events);
    vstd::seq_lib::lemma_multiset_commutative(ups, downs);
    lemma_interleaving_is_irrelevant(start, ups + downs, applied);
    lemma_total_of_concat(ups, downs);
    up.lemma_one_delta_per_edge(up_events);
    down.lemma_one_delta_per_edge(down_events);
}

} // verus!
