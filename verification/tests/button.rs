use embassy_hello_world::button::{
    delta, ButtonAction, ButtonEvent, ButtonPhase, ButtonTask, DEBOUNCE_MILLIS,
};
use embassy_hello_world::counter::SharedCounter;

/// Reports a rising edge and, if the task takes it, does what the task asks
/// for until it sleeps. Gives the value that was emitted.
fn press(task: &mut ButtonTask, counter: &mut SharedCounter) -> Option<i32> {
    let mut emitted = None;
    let mut next = task.step(ButtonEvent::RisingEdge);
    while let Some(action) = next {
        next = match action {
            ButtonAction::AddToCounter { delta } => {
                counter.add(delta);
                task.step(ButtonEvent::CounterRead { value: counter.load() })
            }
            ButtonAction::Emit { value } => {
                emitted = Some(value);
                task.step(ButtonEvent::Emitted)
            }
            ButtonAction::Sleep { millis } => {
                assert_eq!(millis, 300);
                None
            }
            ButtonAction::AwaitEdge => unreachable!(),
        };
    }
    emitted
}

/// Lets the debounce delay of the task run out.
fn wake(task: &mut ButtonTask) {
    assert_eq!(task.step(ButtonEvent::DelayElapsed), Some(ButtonAction::AwaitEdge));
}

#[test]
fn button_delta_follows_the_mode() {
    assert_eq!(delta(true), 1);
    assert_eq!(delta(false), -1);
}

#[test]
fn button_new_task_waits_for_an_edge() {
    let task = ButtonTask::new(true);
    assert_eq!(task.phase, ButtonPhase::WaitEdge);
    assert!(task.mode);
    assert_eq!(task.action(), ButtonAction::AwaitEdge);
    assert!(!ButtonTask::new(false).mode);
}

#[test]
fn button_round_goes_through_every_phase() {
    let mut task = ButtonTask::new(false);
    assert_eq!(
        task.step(ButtonEvent::RisingEdge),
        Some(ButtonAction::AddToCounter { delta: -1 })
    );
    assert_eq!(task.phase, ButtonPhase::ApplyDelta);
    assert_eq!(
        task.step(ButtonEvent::CounterRead { value: 41 }),
        Some(ButtonAction::Emit { value: 41 })
    );
    assert_eq!(task.phase, ButtonPhase::Emit { value: 41 });
    assert_eq!(task.action(), ButtonAction::Emit { value: 41 });
    assert_eq!(
        task.step(ButtonEvent::Emitted),
        Some(ButtonAction::Sleep { millis: 300 })
    );
    assert_eq!(task.phase, ButtonPhase::Debounce);
    assert_eq!(task.step(ButtonEvent::DelayElapsed), Some(ButtonAction::AwaitEdge));
    assert_eq!(task, ButtonTask::new(false));
    assert_eq!(DEBOUNCE_MILLIS, 300);
}

#[test]
fn button_two_up_one_down_gives_one() {
    let mut counter = SharedCounter::new();
    let mut plus = ButtonTask::new(true);
    let mut minus = ButtonTask::new(false);

    assert_eq!(press(&mut plus, &mut counter), Some(1));
    wake(&mut plus);
    assert_eq!(press(&mut plus, &mut counter), Some(2));
    wake(&mut plus);
    assert_eq!(press(&mut minus, &mut counter), Some(1));
    wake(&mut minus);

    assert_eq!(counter.load(), 1);
}

#[test]
fn button_presses_of_two_tasks_interleave() {
    let mut counter = SharedCounter::new();
    let mut plus = ButtonTask::new(true);
    let mut minus = ButtonTask::new(false);

    assert_eq!(press(&mut minus, &mut counter), Some(-1));
    assert_eq!(press(&mut plus, &mut counter), Some(0));
    wake(&mut plus);
    assert_eq!(press(&mut plus, &mut counter), Some(1));
    wake(&mut minus);
    wake(&mut plus);

    assert_eq!(counter.load(), 1);
}

#[test]
fn button_edge_during_debounce_is_dropped() {
    let mut counter = SharedCounter::new();
    let mut task = ButtonTask::new(true);

    assert_eq!(press(&mut task, &mut counter), Some(1));
    assert_eq!(task.phase, ButtonPhase::Debounce);

    let asleep = task;
    assert_eq!(task.step(ButtonEvent::RisingEdge), None);
    assert_eq!(press(&mut task, &mut counter), None);
    assert_eq!(task, asleep);
    assert_eq!(counter.load(), 1);

    wake(&mut task);
    assert_eq!(press(&mut task, &mut counter), Some(2));
    assert_eq!(counter.load(), 2);
}

#[test]
fn button_edge_is_dropped_in_every_phase_but_waiting() {
    let phases = [
        ButtonPhase::ApplyDelta,
        ButtonPhase::Emit { value: 9 },
        ButtonPhase::Debounce,
    ];
    for phase in phases {
        let mut task = ButtonTask { mode: true, phase };
        assert_eq!(task.step(ButtonEvent::RisingEdge), None);
        assert_eq!(task.phase, phase);
    }
}

#[test]
fn button_events_out_of_turn_are_dropped() {
    let mut task = ButtonTask::new(true);
    assert_eq!(task.step(ButtonEvent::DelayElapsed), None);
    assert_eq!(task.step(ButtonEvent::Emitted), None);
    assert_eq!(task.step(ButtonEvent::CounterRead { value: 3 }), None);
    assert_eq!(task, ButtonTask::new(true));

    task.step(ButtonEvent::RisingEdge);
    assert_eq!(task.step(ButtonEvent::DelayElapsed), None);
    assert_eq!(task.step(ButtonEvent::Emitted), None);
    assert_eq!(task.phase, ButtonPhase::ApplyDelta);
}

#[test]
fn button_emits_what_the_counter_read() {
    let mut task = ButtonTask::new(true);
    task.step(ButtonEvent::RisingEdge);
    assert_eq!(
        task.step(ButtonEvent::CounterRead { value: i32::MIN }),
        Some(ButtonAction::Emit { value: i32::MIN })
    );
}

/// A small linear congruential generator, so that the event streams below
/// are the same on every run.
fn next_random(state: &mut u32) -> u32 {
    *state = state.wrapping_mul(1664525).wrapping_add(1013904223);
    *state >> 16
}

#[test]
fn button_one_addition_per_debounce_delay() {
    let mut seed = 7u32;
    for mode in [true, false] {
        let mut task = ButtonTask::new(mode);
        let mut additions = 0u32;
        let mut delays = 0u32;
        let mut sum = 0i64;
        for _ in 0..2000 {
            let event = match next_random(&mut seed) % 4 {
                0 => ButtonEvent::RisingEdge,
                1 => ButtonEvent::CounterRead { value: 0 },
                2 => ButtonEvent::Emitted,
                _ => ButtonEvent::DelayElapsed,
            };
            let asleep = task.phase == ButtonPhase::Debounce;
            match task.step(event) {
                Some(ButtonAction::AddToCounter { delta }) => {
                    assert_eq!(event, ButtonEvent::RisingEdge);
                    additions += 1;
                    sum += delta as i64;
                }
                Some(ButtonAction::AwaitEdge) => {
                    assert!(asleep);
                    delays += 1;
                }
                _ => {}
            }
            assert!(delays <= additions && additions <= delays + 1);
            assert_eq!(additions == delays, task.phase == ButtonPhase::WaitEdge);
        }
        assert!(additions > 10);
        assert_eq!(sum, if mode { additions as i64 } else { -(additions as i64) });
    }
}
