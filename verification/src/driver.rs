//! The protocol that brings up the display driver chip and feeds it frames,
//! as a state machine. The caller owns the two-wire bus and the timer: it
//! performs the action that the driver asks for and reports what happened as
//! an event.
//!
//! Start-up is: switch the oscillator on, let it settle, switch the display
//! on without blinking, set full brightness. Only then are frames accepted.
//! A write that fails is fatal: the driver halts and stays halted.

use vstd::prelude::*;
#[allow(unused_imports)]
use crate::frame::{frame_array, frame_from_buffer, lemma_frame_array_view, swap, wire_frame};

verus! {

/// The chip's 7-bit bus address.
pub const DISPLAY_ADDRESS: u8 = 0x70;

/// Command: switch the chip's oscillator on.
pub const OSCILLATOR_ON: u8 = 0x21;

/// Command: display on, no blinking.
pub const DISPLAY_ON: u8 = 0x81;

/// Command: full brightness.
pub const BRIGHTNESS_MAX: u8 = 0xEF;

/// Milliseconds that the oscillator is given to settle.
pub const SETTLE_MILLIS: u64 = 1;

/// What the driver is busy with.
#[derive(Clone, Copy, Debug, PartialEq, Eq)]
pub enum DriverPhase {
    /// The oscillator command is on the bus.
    StartOscillator,
    /// The oscillator is settling.
    Settle,
    /// The display-on command is on the bus.
    EnableDisplay,
    /// The brightness command is on the bus.
    SetBrightness,
    /// Start-up is done and the bus is free: a frame can be shown.
    Ready,
    /// `frame` is on the bus.
    WriteFrame { frame: [u8; 17] },
    /// A write failed. Nothing is accepted any more.
    Halted,
}

/// What the caller reports to the driver.
#[derive(Clone, Copy, Debug, PartialEq, Eq)]
pub enum DriverEvent {
    /// The write or the delay that was asked for is done.
    Done,
    /// The write that was asked for failed.
    WriteFailed,
    /// The pixel buffer changed and is to be shown.
    Show { buffer: [u8; 16] },
}

/// What the driver asks its caller to do.
#[derive(Clone, Copy, Debug, PartialEq, Eq)]
pub enum BusAction {
    /// Write the single byte `command` to the device at `address`.
    WriteCommand { address: u8, command: u8 },
    /// Write the seventeen bytes of `frame` to the device at `address`.
    WriteFrame { address: u8, frame: [u8; 17] },
    /// Wait for at least `millis` milliseconds.
    Delay { millis: u64 },
    /// Nothing to do until there is a buffer to show.
    Idle,
    /// Stop: a write failed and there is no way to recover.
    Halt,
}

/// The driver of one display.
#[derive(Clone, Copy, Debug, PartialEq, Eq)]
pub struct DisplayDriver {
    pub phase: DriverPhase,
}

/// The start-up sequence, in the order in which it goes out.
pub open spec fn init_sequence() -> Seq<BusAction> {
    seq![
        BusAction::WriteCommand { address: DISPLAY_ADDRESS, command: OSCILLATOR_ON },
        BusAction::Delay { millis: SETTLE_MILLIS },
        BusAction::WriteCommand { address: DISPLAY_ADDRESS, command: DISPLAY_ON },
        BusAction::WriteCommand { address: DISPLAY_ADDRESS, command: BRIGHTNESS_MAX },
    ]
}

/// Whether `action` puts the wire frame of some buffer on the bus, at the
/// chip's address.
pub open spec fn is_frame_write(action: BusAction) -> bool {
    action matches BusAction::WriteFrame { address, frame } && address == DISPLAY_ADDRESS
        && exists|buffer: [u8; 16]| frame@ == #[trigger] wire_frame(buffer@)
}

/// Whether `action` keeps the bus or the timer busy.
pub open spec fn is_bus_work(action: BusAction) -> bool {
    action is WriteCommand || action is WriteFrame || action is Delay
}

impl DisplayDriver {
    /// A driver that is about to start the oscillator.
    pub open spec fn fresh() -> DisplayDriver {
        DisplayDriver { phase: DriverPhase::StartOscillator }
    }

    /// Whether the driver, in its current phase, takes `event`. While
    /// something is on the bus or the timer runs it takes only the end of
    /// that; when ready it takes only a buffer to show; when halted, nothing.
    pub open spec fn accepts(self, event: DriverEvent) -> bool {
        match (self.phase, event) {
            (DriverPhase::StartOscillator, DriverEvent::Done) => true,
            (DriverPhase::StartOscillator, DriverEvent::WriteFailed) => true,
            (DriverPhase::Settle, DriverEvent::Done) => true,
            (DriverPhase::EnableDisplay, DriverEvent::Done) => true,
            (DriverPhase::EnableDisplay, DriverEvent::WriteFailed) => true,
            (DriverPhase::SetBrightness, DriverEvent::Done) => true,
            (DriverPhase::SetBrightness, DriverEvent::WriteFailed) => true,
            (DriverPhase::Ready, DriverEvent::Show { .. }) => true,
            (DriverPhase::WriteFrame { .. }, DriverEvent::Done) => true,
            (DriverPhase::WriteFrame { .. }, DriverEvent::WriteFailed) => true,
            _ => false,
        }
    }

    /// The driver after `event` was reported to it. Showing a buffer puts its
    /// wire frame on the bus; an event that is not accepted changes nothing.
    pub open spec fn after(self, event: DriverEvent) -> DisplayDriver {
        let phase = match (self.phase, event) {
            (DriverPhase::StartOscillator, DriverEvent::Done) => DriverPhase::Settle,
            (DriverPhase::Settle, DriverEvent::Done) => DriverPhase::EnableDisplay,
            (DriverPhase::EnableDisplay, DriverEvent::Done) => DriverPhase::SetBrightness,
            (DriverPhase::SetBrightness, DriverEvent::Done) => DriverPhase::Ready,
            (DriverPhase::WriteFrame { .. }, DriverEvent::Done) => DriverPhase::Ready,
            (DriverPhase::StartOscillator, DriverEvent::WriteFailed) => DriverPhase::Halted,
            (DriverPhase::EnableDisplay, DriverEvent::WriteFailed) => DriverPhase::Halted,
            (DriverPhase::SetBrightness, DriverEvent::WriteFailed) => DriverPhase::Halted,
            (DriverPhase::WriteFrame { .. }, DriverEvent::WriteFailed) => DriverPhase::Halted,
            (DriverPhase::Ready, DriverEvent::Show { buffer }) => DriverPhase::WriteFrame {
                frame: frame_array(wire_frame(buffer@)),
            },
            (phase, _) => phase,
        };
        DisplayDriver { phase }
    }

    /// The action that belongs to the driver's current phase.
    pub open spec fn pending(self) -> BusAction {
        match self.phase {
            DriverPhase::StartOscillator => BusAction::WriteCommand {
                address: DISPLAY_ADDRESS,
                command: OSCILLATOR_ON,
            },
            DriverPhase::Settle => BusAction::Delay { millis: SETTLE_MILLIS },
            DriverPhase::EnableDisplay => BusAction::WriteCommand {
                address: DISPLAY_ADDRESS,
                command: DISPLAY_ON,
            },
            DriverPhase::SetBrightness => BusAction::WriteCommand {
                address: DISPLAY_ADDRESS,
                command: BRIGHTNESS_MAX,
            },
            DriverPhase::Ready => BusAction::Idle,
            DriverPhase::WriteFrame { frame } => BusAction::WriteFrame {
                address: DISPLAY_ADDRESS,
                frame,
            },
            DriverPhase::Halted => BusAction::Halt,
        }
    }

    /// The driver after all of `events` were reported to it, first to last.
    pub open spec fn run(self, events: Seq<DriverEvent>) -> DisplayDriver
        decreases events.len(),
    {
        if events.len() == 0 {
            self
        } else {
            self.run(events.drop_last()).after(events.last())
        }
    }

    /// The bus work that the driver asked for while `events` were reported
    /// to it, in order: the next action after each event that it accepted,
    /// unless that action is to idle or to halt.
    pub open spec fn requested(self, events: Seq<DriverEvent>) -> Seq<BusAction>
        decreases events.len(),
    {
        if events.len() == 0 {
            Seq::empty()
        } else {
            let earlier = self.requested(events.drop_last());
            let before = self.run(events.drop_last());
            let next = before.after(events.last()).pending();
            if before.accepts(events.last()) && is_bus_work(next) {
                earlier.push(next)
            } else {
                earlier
            }
        }
    }

    /// All the bus work of a driver from its creation on, while `events`
    /// were reported to it.
    pub open spec fn bus_log(events: Seq<DriverEvent>) -> Seq<BusAction> {
        seq![DisplayDriver::fresh().pending()] + DisplayDriver::fresh().requested(events)
    }

    /// A driver that is about to start the oscillator.
    pub fn new() -> (driver: DisplayDriver)
        ensures
            driver == DisplayDriver::fresh(),
    {
        DisplayDriver { phase: DriverPhase::StartOscillator }
    }

    /// What the caller has to do now.
    pub fn action(&self) -> (action: BusAction)
        ensures
            action == self.pending(),
    {
        match self.phase {
            DriverPhase::StartOscillator => BusAction::WriteCommand {
                address: DISPLAY_ADDRESS,
                command: OSCILLATOR_ON,
            },
            DriverPhase::Settle => BusAction::Delay { millis: SETTLE_MILLIS },
            DriverPhase::EnableDisplay => BusAction::WriteCommand {
                address: DISPLAY_ADDRESS,
                command: DISPLAY_ON,
            },
            DriverPhase::SetBrightness => BusAction::WriteCommand {
                address: DISPLAY_ADDRESS,
                command: BRIGHTNESS_MAX,
            },
            DriverPhase::Ready => BusAction::Idle,
            DriverPhase::WriteFrame { frame } => BusAction::WriteFrame {
                address: DISPLAY_ADDRESS,
                frame,
            },
            DriverPhase::Halted => BusAction::Halt,
        }
    }

    /// Reports `event` to the driver. An event that the current phase takes
    /// moves the driver on, and the next action is returned. Any other event
    /// is dropped: the driver stays as it is and `None` is returned.
    pub fn step(&mut self, event: DriverEvent) -> (next: Option<BusAction>)
        ensures
            *final(self) == old(self).after(event),
            next == if old(self).accepts(event) {
                Some(final(self).pending())
            } else {
                None
            },
    {
        let moved = match (self.phase, event) {
            (DriverPhase::StartOscillator, DriverEvent::Done) => Some(DriverPhase::Settle),
            (DriverPhase::Settle, DriverEvent::Done) => Some(DriverPhase::EnableDisplay),
            (DriverPhase::EnableDisplay, DriverEvent::Done) => Some(DriverPhase::SetBrightness),
            (DriverPhase::SetBrightness, DriverEvent::Done) => Some(DriverPhase::Ready),
            (DriverPhase::WriteFrame { .. }, DriverEvent::Done) => Some(DriverPhase::Ready),
            (DriverPhase::StartOscillator, DriverEvent::WriteFailed) => Some(DriverPhase::Halted),
            (DriverPhase::EnableDisplay, DriverEvent::WriteFailed) => Some(DriverPhase::Halted),
            (DriverPhase::SetBrightness, DriverEvent::WriteFailed) => Some(DriverPhase::Halted),
            (DriverPhase::WriteFrame { .. }, DriverEvent::WriteFailed) => Some(
                DriverPhase::Halted,
            ),
            (DriverPhase::Ready, DriverEvent::Show { buffer }) => {
                let frame = swap(&frame_from_buffer(&buffer));
                assert(frame =~= frame_array(wire_frame(buffer@)));
                Some(DriverPhase::WriteFrame { frame })
            },
            _ => None,
        };
        match moved {
            Some(phase) => {
                self.phase = phase;
                Some(self.action())
            },
            None => None,
        }
    }
}

/// What the bus log of a driver in `phase` looks like: the start-up sequence
/// as far as it has got, then nothing but frames.
spec fn log_fits_phase(phase: DriverPhase, log: Seq<BusAction>) -> bool {
    &&& forall|i: int| 0 <= i < log.len() && i < 4 ==> log[i] == init_sequence()[i]
    &&& forall|i: int| 4 <= i < log.len() ==> is_frame_write(#[trigger] log[i])
    &&& match phase {
        DriverPhase::StartOscillator => log.len() == 1,
        DriverPhase::Settle => log.len() == 2,
        DriverPhase::EnableDisplay => log.len() == 3,
        DriverPhase::SetBrightness => log.len() == 4,
        DriverPhase::Ready => log.len() >= 4,
        DriverPhase::WriteFrame { .. } => log.len() >= 5,
        DriverPhase::Halted => log.len() >= 1,
    }
}

proof fn lemma_log_fits_phase(events: Seq<DriverEvent>)
    ensures
        log_fits_phase(DisplayDriver::fresh().run(events).phase, DisplayDriver::bus_log(events)),
    decreases events.len(),
{
    if events.len() > 0 {
        lemma_log_fits_phase(events.drop_last());
        let before = DisplayDriver::fresh().run(events.drop_last());
        let next = before.after(events.last()).pending();
        if before.accepts(events.last()) && is_bus_work(next) {
            assert(DisplayDriver::bus_log(events) =~= DisplayDriver::bus_log(
                events.drop_last(),
            ).push(next));
            if let DriverEvent::Show { buffer } = events.last() {
                lemma_frame_array_view(wire_frame(buffer@));
            }
        }
    }
}

/// Whatever is reported to a driver, and in whatever order: the first four
/// pieces of bus work that it asks for are the start-up sequence (oscillator
/// on, the settling delay, display on, full brightness, every write to the
/// chip's address), and all bus work after them is frame writes. No pixel
/// data goes out before start-up is complete.
pub proof fn lemma_start_up_precedes_frames(events: Seq<DriverEvent>)
    ensures
        forall|i: int|
            0 <= i < DisplayDriver::bus_log(events).len() && i < 4 ==> DisplayDriver::bus_log(
                events,
            )[i] == init_sequence()[i],
        forall|i: int|
            4 <= i < DisplayDriver::bus_log(events).len() ==> is_frame_write(
                #[trigger] DisplayDriver::bus_log(events)[i],
            ),
{
    lemma_log_fits_phase(events);
}

} // verus!
