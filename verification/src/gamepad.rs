//! Folding normalized gamepad events into the current stick reading.
//!
//! The hardware backend turns raw device events into [`GamepadEvent`]
//! values — directional-pad edges and already-scaled axis positions — and
//! hands each tick's batch to [`Gamepad::read`], which folds them over the
//! held reading, in order, and reports the new reading only when it
//! changed. Axis directions follow the wire convention: positive `y` is
//! backward, negative `y` forward.

use vstd::prelude::*;

verus! {

/// One normalized input event.
#[derive(Debug, Clone, Copy, PartialEq, Eq, Structural)]
pub enum GamepadEvent {
    DPadLeftPressed,
    DPadLeftReleased,
    DPadRightPressed,
    DPadRightReleased,
    DPadUpPressed,
    DPadUpReleased,
    DPadDownPressed,
    DPadDownReleased,
    /// A lateral stick or pad axis, scaled to the signed byte range.
    AxisX(i8),
    /// A longitudinal stick or pad axis, scaled to the signed byte range.
    AxisY(i8),
    /// Anything the bridge does not react to.
    Unhandled,
}

/// The stick reading a single event leaves behind: pad edges pin an axis
/// to an extreme or release it to center, axis events overwrite an axis,
/// unhandled events change nothing.
pub open spec fn apply_event_spec(x: i8, y: i8, e: GamepadEvent) -> (i8, i8) {
    match e {
        GamepadEvent::DPadLeftPressed => (-128i8, y),
        GamepadEvent::DPadLeftReleased => (0i8, y),
        GamepadEvent::DPadRightPressed => (127i8, y),
        GamepadEvent::DPadRightReleased => (0i8, y),
        GamepadEvent::DPadUpPressed => (x, -128i8),
        GamepadEvent::DPadUpReleased => (x, 0i8),
        GamepadEvent::DPadDownPressed => (x, 127i8),
        GamepadEvent::DPadDownReleased => (x, 0i8),
        GamepadEvent::AxisX(v) => (v, y),
        GamepadEvent::AxisY(v) => (x, v),
        GamepadEvent::Unhandled => (x, y),
    }
}

/// The reading after folding a whole batch of events, in order.
pub open spec fn fold_events_spec(x: i8, y: i8, evs: Seq<GamepadEvent>) -> (i8, i8)
    decreases evs.len(),
{
    if evs.len() == 0 {
        (x, y)
    } else {
        let next = apply_event_spec(x, y, evs[0]);
        fold_events_spec(next.0, next.1, evs.drop_first())
    }
}

/// The held stick reading.
#[derive(Debug, Clone, Copy, PartialEq, Eq, Structural)]
pub struct Gamepad {
    pub d_x: i8,
    pub d_y: i8,
}

impl Gamepad {
    /// A centered stick.
    pub fn new() -> (g: Self)
        ensures
            g.d_x == 0,
            g.d_y == 0,
    {
        Gamepad { d_x: 0, d_y: 0 }
    }

    /// Folds this tick's events over the held reading. Returns the new
    /// reading when it differs from the held one, updating the state;
    /// returns `None` — and holds the state — when the batch leaves the
    /// reading where it was.
    pub fn read(&mut self, events: &Vec<GamepadEvent>) -> (r: Option<(i8, i8)>)
        ensures
            ({
                let folded = fold_events_spec(old(self).d_x, old(self).d_y, events@);
                &&& final(self).d_x == folded.0
                &&& final(self).d_y == folded.1
                &&& r == (if folded == (old(self).d_x, old(self).d_y) {
                    None::<(i8, i8)>
                } else {
                    Some(folded)
                })
            }),
    {
        let mut new_x = self.d_x;
        let mut new_y = self.d_y;
        proof {
            assert(events@.skip(0) =~= events@);
        }
        let mut i: usize = 0;
        while i < events.len()
            invariant
                i <= events.len(),
                fold_events_spec(self.d_x, self.d_y, events@) == fold_events_spec(
                    new_x,
                    new_y,
                    events@.skip(i as int),
                ),
            decreases events.len() - i,
        {
            proof {
                assert(events@.skip(i as int)[0] == events@[i as int]);
                assert(events@.skip(i as int).drop_first() =~= events@.skip(i as int + 1));
            }
            let e = events[i];
            let next = apply_event(new_x, new_y, e);
            new_x = next.0;
            new_y = next.1;
            i = i + 1;
        }
        if new_x == self.d_x && new_y == self.d_y {
            None
        } else {
            self.d_x = new_x;
            self.d_y = new_y;
            Some((new_x, new_y))
        }
    }
}

/// Applies one event to a reading.
fn apply_event(x: i8, y: i8, e: GamepadEvent) -> (r: (i8, i8))
    ensures
        r == apply_event_spec(x, y, e),
{
    match e {
        GamepadEvent::DPadLeftPressed => (-128, y),
        GamepadEvent::DPadLeftReleased => (0, y),
        GamepadEvent::DPadRightPressed => (127, y),
        GamepadEvent::DPadRightReleased => (0, y),
        GamepadEvent::DPadUpPressed => (x, -128),
        GamepadEvent::DPadUpReleased => (x, 0),
        GamepadEvent::DPadDownPressed => (x, 127),
        GamepadEvent::DPadDownReleased => (x, 0),
        GamepadEvent::AxisX(v) => (v, y),
        GamepadEvent::AxisY(v) => (x, v),
        GamepadEvent::Unhandled => (x, y),
    }
}

} // verus!
