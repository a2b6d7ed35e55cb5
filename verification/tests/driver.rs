use embassy_hello_world::driver::{
    BusAction, DisplayDriver, DriverEvent, DriverPhase, BRIGHTNESS_MAX, DISPLAY_ADDRESS,
    DISPLAY_ON, OSCILLATOR_ON, SETTLE_MILLIS,
};
use embassy_hello_world::frame::checkerboard;

/// What a transport saw.
#[derive(Debug, PartialEq, Eq, Clone)]
enum Seen {
    Write(u8, Vec<u8>),
    Delay(u64),
}

/// A transport that records what it is asked to do. The write with the
/// index `fail_at`, counted over writes only, fails.
struct MockTransport {
    seen: Vec<Seen>,
    writes: usize,
    fail_at: Option<usize>,
}

impl MockTransport {
    fn new(fail_at: Option<usize>) -> MockTransport {
        MockTransport { seen: Vec::new(), writes: 0, fail_at }
    }

    fn write(&mut self, address: u8, bytes: &[u8]) -> DriverEvent {
        self.seen.push(Seen::Write(address, bytes.to_vec()));
        let failed = self.fail_at == Some(self.writes);
        self.writes += 1;
        if failed {
            DriverEvent::WriteFailed
        } else {
            DriverEvent::Done
        }
    }

    /// Does what the driver asks for until it idles or halts, and gives the
    /// action at which it stopped.
    fn drive(&mut self, driver: &mut DisplayDriver) -> BusAction {
        loop {
            let event = match driver.action() {
                BusAction::WriteCommand { address, command } => self.write(address, &[command]),
                BusAction::WriteFrame { address, frame } => self.write(address, &frame),
                BusAction::Delay { millis } => {
                    self.seen.push(Seen::Delay(millis));
                    DriverEvent::Done
                }
                stop => return stop,
            };
            assert_eq!(driver.step(event), Some(driver.action()));
        }
    }
}

fn init_as_seen() -> Vec<Seen> {
    vec![
        Seen::Write(0x70, vec![0x21]),
        Seen::Delay(1),
        Seen::Write(0x70, vec![0x81]),
        Seen::Write(0x70, vec![0xEF]),
    ]
}

#[test]
fn driver_constants() {
    assert_eq!(DISPLAY_ADDRESS, 0x70);
    assert_eq!(OSCILLATOR_ON, 0x21);
    assert_eq!(DISPLAY_ON, 0x81);
    assert_eq!(BRIGHTNESS_MAX, 0xEF);
    assert_eq!(SETTLE_MILLIS, 1);
}

#[test]
fn driver_init_sequence_on_a_mock_transport() {
    let mut transport = MockTransport::new(None);
    let mut driver = DisplayDriver::new();
    assert_eq!(transport.drive(&mut driver), BusAction::Idle);
    assert_eq!(driver.phase, DriverPhase::Ready);
    assert_eq!(transport.seen, init_as_seen());
}

#[test]
fn driver_writes_the_frame_after_the_init_sequence() {
    let mut transport = MockTransport::new(None);
    let mut driver = DisplayDriver::new();
    transport.drive(&mut driver);

    let shown = driver.step(DriverEvent::Show { buffer: checkerboard() });
    let frame = [
        0x00, 0x55, 0x55, 0xAA, 0xAA, 0x55, 0x55, 0xAA, 0xAA, 0x55, 0x55, 0xAA, 0xAA, 0x55, 0x55,
        0xAA, 0xAA,
    ];
    assert_eq!(shown, Some(BusAction::WriteFrame { address: 0x70, frame }));
    assert_eq!(transport.drive(&mut driver), BusAction::Idle);

    let mut expected = init_as_seen();
    expected.push(Seen::Write(0x70, frame.to_vec()));
    assert_eq!(transport.seen, expected);
    assert_eq!(transport.seen.len(), 5);
}

#[test]
fn driver_step_by_step() {
    let mut driver = DisplayDriver::new();
    assert_eq!(
        driver.action(),
        BusAction::WriteCommand { address: 0x70, command: 0x21 }
    );
    assert_eq!(
        driver.step(DriverEvent::Done),
        Some(BusAction::Delay { millis: 1 })
    );
    assert_eq!(
        driver.step(DriverEvent::Done),
        Some(BusAction::WriteCommand { address: 0x70, command: 0x81 })
    );
    assert_eq!(
        driver.step(DriverEvent::Done),
        Some(BusAction::WriteCommand { address: 0x70, command: 0xEF })
    );
    assert_eq!(driver.step(DriverEvent::Done), Some(BusAction::Idle));
    assert_eq!(driver.step(DriverEvent::Done), None);
    assert_eq!(driver.phase, DriverPhase::Ready);
}

#[test]
fn driver_takes_no_frame_before_it_is_ready() {
    let mut driver = DisplayDriver::new();
    for _ in 0..4 {
        let before = driver;
        assert_eq!(driver.step(DriverEvent::Show { buffer: [0xFF; 16] }), None);
        assert_eq!(driver, before);
        assert!(driver.step(DriverEvent::Done).is_some());
    }
    assert_eq!(driver.phase, DriverPhase::Ready);
    assert!(driver.step(DriverEvent::Show { buffer: [0xFF; 16] }).is_some());
}

#[test]
fn driver_takes_no_second_frame_while_one_is_on_the_bus() {
    let mut transport = MockTransport::new(None);
    let mut driver = DisplayDriver::new();
    transport.drive(&mut driver);
    assert!(driver.step(DriverEvent::Show { buffer: [1; 16] }).is_some());
    let busy = driver;
    assert_eq!(driver.step(DriverEvent::Show { buffer: [2; 16] }), None);
    assert_eq!(driver, busy);
    assert_eq!(driver.step(DriverEvent::Done), Some(BusAction::Idle));
    assert!(driver.step(DriverEvent::Show { buffer: [2; 16] }).is_some());
}

#[test]
fn driver_halts_when_a_write_fails() {
    for fail_at in 0..4 {
        let mut transport = MockTransport::new(Some(fail_at));
        let mut driver = DisplayDriver::new();
        let mut stopped = transport.drive(&mut driver);
        if stopped == BusAction::Idle {
            assert_eq!(fail_at, 3);
            driver.step(DriverEvent::Show { buffer: checkerboard() });
            stopped = transport.drive(&mut driver);
        }
        assert_eq!(stopped, BusAction::Halt);
        assert_eq!(driver.phase, DriverPhase::Halted);
        assert_eq!(transport.writes, fail_at + 1);
    }
}

#[test]
fn driver_stays_halted() {
    let mut driver = DisplayDriver::new();
    assert_eq!(driver.step(DriverEvent::WriteFailed), Some(BusAction::Halt));
    assert_eq!(driver.step(DriverEvent::Done), None);
    assert_eq!(driver.step(DriverEvent::WriteFailed), None);
    assert_eq!(driver.step(DriverEvent::Show { buffer: [0; 16] }), None);
    assert_eq!(driver.phase, DriverPhase::Halted);
    assert_eq!(driver.action(), BusAction::Halt);
}

#[test]
fn driver_delay_cannot_fail() {
    let mut driver = DisplayDriver::new();
    driver.step(DriverEvent::Done);
    assert_eq!(driver.phase, DriverPhase::Settle);
    assert_eq!(driver.step(DriverEvent::WriteFailed), None);
    assert_eq!(driver.phase, DriverPhase::Settle);
}

#[test]
fn driver_ignores_a_failure_while_idle() {
    let mut transport = MockTransport::new(None);
    let mut driver = DisplayDriver::new();
    transport.drive(&mut driver);
    assert_eq!(driver.step(DriverEvent::WriteFailed), None);
    assert_eq!(driver.phase, DriverPhase::Ready);
}

fn next_draw(state: &mut u32) -> u32 {
    *state = state.wrapping_mul(1664525).wrapping_add(1013904223);
    *state >> 16
}

#[test]
fn driver_start_up_precedes_frames_on_any_event_stream() {
    for seed in 1..40u32 {
        let mut state = seed;
        let mut driver = DisplayDriver::new();
        let mut log = vec![driver.action()];
        for _ in 0..60 {
            let event = match next_draw(&mut state) % 8 {
                0 => DriverEvent::WriteFailed,
                1 | 2 => DriverEvent::Show { buffer: [(state >> 8) as u8; 16] },
                _ => DriverEvent::Done,
            };
            match driver.step(event) {
                Some(BusAction::Idle) | Some(BusAction::Halt) | None => {}
                Some(work) => log.push(work),
            }
        }
        let init = [
            BusAction::WriteCommand { address: 0x70, command: 0x21 },
            BusAction::Delay { millis: 1 },
            BusAction::WriteCommand { address: 0x70, command: 0x81 },
            BusAction::WriteCommand { address: 0x70, command: 0xEF },
        ];
        for (i, action) in log.iter().enumerate() {
            if i < 4 {
                assert_eq!(*action, init[i]);
            } else {
                assert!(matches!(action, BusAction::WriteFrame { address: 0x70, frame } if frame[0] == 0x00));
            }
        }
    }
}
