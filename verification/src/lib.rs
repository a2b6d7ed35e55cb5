//! The logic of a small firmware: two push buttons that count a shared
//! counter up and down, a blinking LED, a heartbeat line, and an 8x16 LED
//! matrix behind a display driver chip on a two-wire bus.
//!
//! Nothing in here touches hardware. The tasks and the display driver are
//! state machines that hand out actions and take events; the pixel buffer and
//! the wire frame are plain byte arrays. The firmware around this library
//! owns the pins, the bus, the timer and the scheduler.

pub mod blink;
pub mod button;
pub mod counter;
pub mod display;
pub mod driver;
pub mod frame;
pub mod heartbeat;
