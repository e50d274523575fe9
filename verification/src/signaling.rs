//! Status signaling over two indicator LEDs.
//!
//! The bridge reports progress, failure and success through a red and a
//! green LED. The decisions — which LED to toggle or force — live here as
//! pure transitions on the pair of brightness values; reading and writing
//! the actual LED devices is the surrounding program's job.

use vstd::prelude::*;

verus! {

pub const LED_OFF: u8 = 0;
pub const LED_ON: u8 = 255;

/// The brightness of the two indicator LEDs.
#[derive(Debug, Clone, Copy, PartialEq, Eq, Structural)]
pub struct SignalState {
    pub red: u8,
    pub green: u8,
}

/// A full-on LED goes dark, anything else goes full on.
pub open spec fn toggled(level: u8) -> u8 {
    if level == LED_ON {
        LED_OFF
    } else {
        LED_ON
    }
}

/// Failure blinks red: the red LED toggles and the green one goes out.
pub fn update_signal_failure(s: SignalState) -> (t: SignalState)
    ensures
        t.red == toggled(s.red),
        t.green == LED_OFF,
{
    let new_red: u8 = if s.red == LED_ON {
        LED_OFF
    } else {
        LED_ON
    };
    SignalState { red: new_red, green: LED_OFF }
}

/// Progress blinks green: the green LED toggles and the red one goes out.
pub fn update_signal_progress(s: SignalState) -> (t: SignalState)
    ensures
        t.green == toggled(s.green),
        t.red == LED_OFF,
{
    let new_green: u8 = if s.green == LED_ON {
        LED_OFF
    } else {
        LED_ON
    };
    SignalState { red: LED_OFF, green: new_green }
}

/// Success holds green on steadily and red off.
pub fn update_signal_success(s: SignalState) -> (t: SignalState)
    ensures
        t.red == LED_OFF,
        t.green == LED_ON,
{
    let _ = s;
    SignalState { red: LED_OFF, green: LED_ON }
}

} // verus!
