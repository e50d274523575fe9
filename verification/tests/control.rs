use carbleurator::control_loop::{
    ControlLoop, LOOP_SLEEP_MAX_MILLIS, LOOP_SLEEP_MIN_MILLIS, MAX_TIME_TX_DELAY_MS,
};
use carbleurator::gamepad::{Gamepad, GamepadEvent};
use carbleurator::motor_control::input_to_message_analog;
use carbleurator::signaling::{
    update_signal_failure, update_signal_progress, update_signal_success, SignalState, LED_OFF,
    LED_ON,
};

#[test]
fn tick_message_encodes_fresh_readings_and_repeats_stale_ones() {
    let mut c = ControlLoop::new();
    assert_eq!(c.tick_message(Some((30, 30))), input_to_message_analog(30, 30));
    assert_eq!(c.tick_message(None), 0);
    c.note_sent(0b001_001);
    assert_eq!(c.tick_message(None), 0b001_001);
}

#[test]
fn changed_command_sends_immediately() {
    let c = ControlLoop::new();
    assert!(c.should_send(1, 0));
    assert!(!c.should_send(0, 0));
}

#[test]
fn keepalive_sends_exactly_once_at_the_threshold() {
    let mut c = ControlLoop::new();
    c.note_sent(0b000_001);
    // The command never changes; only the clock advances.
    let msg = 0b000_001;
    let mut sends = 0;
    let mut elapsed: u64 = 0;
    for _ in 0..4 {
        if c.should_send(msg, elapsed) {
            c.note_sent(msg);
            sends += 1;
            elapsed = 0;
        } else {
            c.note_idle();
        }
        elapsed += c.loop_sleep_period;
    }
    // Three idle ticks grow the sleeps to 50, 75 and 100 ms, carrying the
    // clock to 225 ms; the fourth tick crosses the threshold and is the
    // single keep-alive send in the window, which also resets the backoff.
    assert_eq!(sends, 1);
    assert_eq!(c.loop_sleep_period, LOOP_SLEEP_MIN_MILLIS);
}

#[test]
fn keepalive_threshold_is_strict() {
    let c = ControlLoop::new();
    assert!(!c.should_send(0, MAX_TIME_TX_DELAY_MS));
    assert!(c.should_send(0, MAX_TIME_TX_DELAY_MS + 1));
}

#[test]
fn idle_backoff_grows_additively_and_caps() {
    let mut c = ControlLoop::new();
    let mut seen = vec![c.loop_sleep_period];
    for _ in 0..6 {
        c.note_idle();
        seen.push(c.loop_sleep_period);
    }
    assert_eq!(seen, vec![25, 50, 75, 100, 100, 100, 100]);
    for w in seen.windows(2) {
        assert!(w[0] <= w[1], "backoff shrank from {} to {}", w[0], w[1]);
    }
    assert!(seen.iter().all(|&p| p <= LOOP_SLEEP_MAX_MILLIS));
}

#[test]
fn any_send_resets_the_backoff_to_minimum() {
    let mut c = ControlLoop::new();
    for _ in 0..5 {
        c.note_idle();
    }
    assert_eq!(c.loop_sleep_period, LOOP_SLEEP_MAX_MILLIS);
    // An actual command change forces a send, which resets the interval.
    let msg = 0b010_010;
    assert!(c.should_send(msg, 0));
    c.note_sent(msg);
    assert_eq!(c.loop_sleep_period, LOOP_SLEEP_MIN_MILLIS);
    assert_eq!(c.last_msg, msg);
}

#[test]
fn gamepad_folds_events_in_order() {
    let mut g = Gamepad::new();
    assert_eq!(g.read(&vec![]), None);
    assert_eq!(g.read(&vec![GamepadEvent::DPadRightPressed]), Some((127, 0)));
    assert_eq!(
        g.read(&vec![GamepadEvent::AxisY(-100), GamepadEvent::Unhandled]),
        Some((127, -100)),
    );
    // A later event in the same batch overwrites an earlier one.
    assert_eq!(
        g.read(&vec![GamepadEvent::AxisX(5), GamepadEvent::AxisX(-5)]),
        Some((-5, -100)),
    );
}

#[test]
fn gamepad_reports_nothing_when_the_batch_nets_no_change() {
    let mut g = Gamepad::new();
    assert_eq!(g.read(&vec![GamepadEvent::DPadLeftPressed, GamepadEvent::DPadLeftReleased]), None);
    assert_eq!(g.read(&vec![GamepadEvent::Unhandled]), None);
    assert_eq!(g.d_x, 0);
    assert_eq!(g.d_y, 0);
}

#[test]
fn gamepad_dpad_maps_to_extremes() {
    let mut g = Gamepad::new();
    assert_eq!(g.read(&vec![GamepadEvent::DPadLeftPressed]), Some((-128, 0)));
    assert_eq!(g.read(&vec![GamepadEvent::DPadUpPressed]), Some((-128, -128)));
    assert_eq!(g.read(&vec![GamepadEvent::DPadUpReleased, GamepadEvent::DPadDownPressed]), Some((-128, 127)));
    assert_eq!(g.read(&vec![GamepadEvent::DPadLeftReleased]), Some((0, 127)));
}

#[test]
fn failure_blinks_red_and_darkens_green() {
    let s = SignalState { red: LED_OFF, green: LED_ON };
    let s = update_signal_failure(s);
    assert_eq!((s.red, s.green), (LED_ON, LED_OFF));
    let s = update_signal_failure(s);
    assert_eq!((s.red, s.green), (LED_OFF, LED_OFF));
}

#[test]
fn progress_blinks_green_and_darkens_red() {
    let s = SignalState { red: LED_ON, green: LED_OFF };
    let s = update_signal_progress(s);
    assert_eq!((s.red, s.green), (LED_OFF, LED_ON));
    let s = update_signal_progress(s);
    assert_eq!((s.red, s.green), (LED_OFF, LED_OFF));
}

#[test]
fn success_holds_green_on() {
    let s = update_signal_success(SignalState { red: LED_ON, green: LED_OFF });
    assert_eq!((s.red, s.green), (LED_OFF, LED_ON));
    let s = update_signal_success(s);
    assert_eq!((s.red, s.green), (LED_OFF, LED_ON));
}

#[test]
fn end_to_end_hard_right_no_throttle_sends_stop() {
    // A full tick of the pipeline on a hard-right, zero-throttle reading:
    // the gamepad folds to (127, 0), the encoder collapses the pure turn
    // to stop, and the loop sends it because the command changed from a
    // moving one.
    let mut g = Gamepad::new();
    let reading = g.read(&vec![GamepadEvent::DPadRightPressed]);
    assert_eq!(reading, Some((127, 0)));
    let mut c = ControlLoop::new();
    c.note_sent(0b001_001);
    let msg = c.tick_message(reading);
    assert_eq!(msg, 0x00);
    assert!(c.should_send(msg, 0));
}
