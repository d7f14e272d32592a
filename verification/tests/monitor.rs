use laundry_monitor::debounce::RawLevel;
use laundry_monitor::debounce::RawLevel::{High, Low};
use laundry_monitor::machine::ActivityState;
use laundry_monitor::monitor::{finished_message, LaundryMonitor};

fn feed(monitor: &mut LaundryMonitor, readings: &[RawLevel]) -> usize {
    let mut events: usize = 0;
    for &reading in readings {
        if monitor.process_reading(reading).is_some() {
            events += 1;
        }
    }
    events
}

#[test]
fn fresh_monitor_is_idle() {
    let m = LaundryMonitor::new();
    assert_eq!(m.state(), ActivityState::Idle);
}

#[test]
fn end_to_end_one_load_one_event() {
    // [Low, Low, Low, High, Low, Low, Low] from a fresh monitor gives the
    // state trace [Idle, Idle, Idle, Active, Active, Active, Idle] and
    // exactly one finished event, at the final reading.
    let readings = [Low, Low, Low, High, Low, Low, Low];
    let expected_states = [
        ActivityState::Idle,
        ActivityState::Idle,
        ActivityState::Idle,
        ActivityState::Active,
        ActivityState::Active,
        ActivityState::Active,
        ActivityState::Idle,
    ];
    let mut m = LaundryMonitor::new();
    let mut events: Vec<bool> = Vec::new();
    let mut states: Vec<ActivityState> = Vec::new();
    for &reading in readings.iter() {
        events.push(m.process_reading(reading).is_some());
        states.push(m.state());
    }
    assert_eq!(states, expected_states);
    assert_eq!(events, [false, false, false, false, false, false, true]);
}

#[test]
fn three_lows_finish_only_on_the_third() {
    let mut m = LaundryMonitor::new();
    assert!(m.process_reading(High).is_none());
    assert_eq!(m.state(), ActivityState::Active);
    assert!(m.process_reading(Low).is_none());
    assert!(m.process_reading(Low).is_none());
    assert!(m.process_reading(Low).is_some());
    assert_eq!(m.state(), ActivityState::Idle);
}

#[test]
fn high_readings_never_finish_a_load() {
    let mut m = LaundryMonitor::new();
    assert!(m.process_reading(High).is_none());
    assert_eq!(m.state(), ActivityState::Active);
    for _ in 0..50 {
        assert!(m.process_reading(High).is_none());
        assert_eq!(m.state(), ActivityState::Active);
    }
}

#[test]
fn replay_after_finish_emits_no_second_event() {
    // Once the load has finished, replaying the same all-low tail emits
    // nothing further until an active period intervenes.
    let mut m = LaundryMonitor::new();
    assert_eq!(feed(&mut m, &[Low, Low, Low, High, Low, Low, Low]), 1);
    assert_eq!(m.state(), ActivityState::Idle);
    assert_eq!(feed(&mut m, &[Low, Low, Low]), 0);
    assert_eq!(feed(&mut m, &[Low, Low, Low]), 0);
    assert_eq!(m.state(), ActivityState::Idle);
    // A new active period permits exactly one more event.
    assert_eq!(feed(&mut m, &[High, Low, Low, Low]), 1);
    assert_eq!(m.state(), ActivityState::Idle);
}

#[test]
fn quiet_moment_mid_wash_does_not_finish() {
    // Two low readings while active leave a High in the window, so the
    // conservative finish condition does not fire.
    let mut m = LaundryMonitor::new();
    assert_eq!(feed(&mut m, &[High, Low, Low, High, Low, Low]), 0);
    assert_eq!(m.state(), ActivityState::Active);
}

#[test]
fn notification_text_is_fixed() {
    assert_eq!(finished_message(), "Your laundry is ready for you to pick up!");
}
