//! The per-tick send decisions of the control loop.
//!
//! Each tick the loop encodes the current stick reading and decides whether
//! to transmit: it sends when the command changed or when the keep-alive
//! threshold has elapsed since the last send, so the vehicle never sees
//! long radio silence. While nothing is sent the loop grows its sleep
//! interval by a fixed increment up to a fixed cap, and every send resets
//! it to the minimum. The surrounding program supplies the clock (elapsed
//! milliseconds since the last send) and performs the sends and sleeps.

use crate::motor_control::{encode_spec, input_to_message_analog};
use vstd::prelude::*;

verus! {

/// The keep-alive threshold: the longest time the loop lets pass between
/// transmissions even without an input change, in milliseconds.
pub const MAX_TIME_TX_DELAY_MS: u64 = 200;

pub const LOOP_SLEEP_INCREMENT_MILLIS: u64 = 25;

pub const LOOP_SLEEP_MIN_MILLIS: u64 = 25;

pub const LOOP_SLEEP_MAX_MILLIS: u64 = 100;

/// How long the supervisor cools down after a failed run before starting
/// the next one, in milliseconds.
pub const SUPERVISOR_COOLDOWN_MS: u64 = 3000;

/// The state the loop carries from tick to tick: the last command sent
/// and the current idle sleep interval.
#[derive(Debug, Clone, Copy, PartialEq, Eq, Structural)]
pub struct ControlLoop {
    pub last_msg: u8,
    pub loop_sleep_period: u64,
}

impl ControlLoop {
    /// The sleep interval stays between its configured minimum and
    /// maximum.
    pub open spec fn wf(self) -> bool {
        LOOP_SLEEP_MIN_MILLIS <= self.loop_sleep_period <= LOOP_SLEEP_MAX_MILLIS
    }

    /// Transmit exactly when the command changed or the keep-alive
    /// threshold has elapsed.
    pub open spec fn should_send_spec(self, msg: u8, elapsed_ms: u64) -> bool {
        msg != self.last_msg || elapsed_ms > MAX_TIME_TX_DELAY_MS
    }

    /// The state after a successful send: the command is remembered and
    /// the sleep interval resets to its minimum.
    pub open spec fn after_send(self, msg: u8) -> ControlLoop {
        ControlLoop { last_msg: msg, loop_sleep_period: LOOP_SLEEP_MIN_MILLIS }
    }

    /// The state after a tick that sent nothing: the sleep interval grows
    /// by the fixed increment, capped at the maximum.
    pub open spec fn after_idle(self) -> ControlLoop {
        let grown = self.loop_sleep_period + LOOP_SLEEP_INCREMENT_MILLIS;
        ControlLoop {
            last_msg: self.last_msg,
            loop_sleep_period: if grown > LOOP_SLEEP_MAX_MILLIS {
                LOOP_SLEEP_MAX_MILLIS
            } else {
                grown as u64
            },
        }
    }

    /// A fresh run: last command stop, sleep interval at the minimum. The
    /// surrounding program starts the elapsed clock past the keep-alive
    /// threshold, so the first tick always transmits.
    pub fn new() -> (c: Self)
        ensures
            c.last_msg == 0,
            c.loop_sleep_period == LOOP_SLEEP_MIN_MILLIS,
            c.wf(),
    {
        ControlLoop { last_msg: 0, loop_sleep_period: LOOP_SLEEP_MIN_MILLIS }
    }

    /// This tick's command byte: the encoded fresh reading, or the last
    /// command again when no new reading arrived.
    pub fn tick_message(&self, reading: Option<(i8, i8)>) -> (m: u8)
        ensures
            (match reading {
                Some((x, y)) => m == encode_spec(x as int, y as int),
                None => m == self.last_msg,
            }),
    {
        match reading {
            Some((x, y)) => input_to_message_analog(x, y),
            None => self.last_msg,
        }
    }

    /// Whether this tick transmits.
    pub fn should_send(&self, msg: u8, elapsed_ms: u64) -> (b: bool)
        ensures
            b == self.should_send_spec(msg, elapsed_ms),
    {
        msg != self.last_msg || elapsed_ms > MAX_TIME_TX_DELAY_MS
    }

    /// Records a successful send of `msg`.
    pub fn note_sent(&mut self, msg: u8)
        ensures
            *final(self) == old(self).after_send(msg),
            final(self).wf(),
    {
        self.last_msg = msg;
        self.loop_sleep_period = LOOP_SLEEP_MIN_MILLIS;
    }

    /// Records a tick that sent nothing.
    pub fn note_idle(&mut self)
        requires
            old(self).wf(),
        ensures
            *final(self) == old(self).after_idle(),
            final(self).wf(),
    {
        let grown = self.loop_sleep_period + LOOP_SLEEP_INCREMENT_MILLIS;
        self.loop_sleep_period = if grown > LOOP_SLEEP_MAX_MILLIS {
            LOOP_SLEEP_MAX_MILLIS
        } else {
            grown
        };
    }
}

/// The state after `n` consecutive idle ticks.
pub open spec fn idle_n(c: ControlLoop, n: nat) -> ControlLoop
    decreases n,
{
    if n == 0 {
        c
    } else {
        idle_n(c, (n - 1) as nat).after_idle()
    }
}

/// Idle ticks keep the state well formed and never change the command.
pub proof fn lemma_idle_wf(c: ControlLoop, n: nat)
    requires
        c.wf(),
    ensures
        idle_n(c, n).wf(),
        idle_n(c, n).last_msg == c.last_msg,
    decreases n,
{
    if n > 0 {
        lemma_idle_wf(c, (n - 1) as nat);
    }
}

/// Idle backoff: over any stretch of ticks without a send, the sleep
/// interval is non-decreasing and never exceeds the configured maximum.
pub proof fn lemma_idle_backoff(c: ControlLoop, i: nat, j: nat)
    requires
        c.wf(),
        i <= j,
    ensures
        idle_n(c, i).loop_sleep_period <= idle_n(c, j).loop_sleep_period,
        idle_n(c, j).loop_sleep_period <= LOOP_SLEEP_MAX_MILLIS,
    decreases j,
{
    lemma_idle_wf(c, j);
    if j > 0 && i < j {
        lemma_idle_backoff(c, i, (j - 1) as nat);
        lemma_idle_wf(c, (j - 1) as nat);
    }
}

/// Every send resets the sleep interval to the configured minimum,
/// however far the backoff had grown.
pub proof fn lemma_backoff_reset(c: ControlLoop, msg: u8)
    ensures
        c.after_send(msg).loop_sleep_period == LOOP_SLEEP_MIN_MILLIS,
        c.after_send(msg).wf(),
{
}

/// Keep-alive cadence: while the command is unchanged, a tick transmits
/// exactly when the threshold has elapsed; and right after that send, the
/// same unchanged command does not transmit again within the threshold.
pub proof fn lemma_keepalive(c: ControlLoop, msg: u8, elapsed1: u64, elapsed2: u64)
    requires
        msg == c.last_msg,
        elapsed2 <= MAX_TIME_TX_DELAY_MS,
    ensures
        c.should_send_spec(msg, elapsed1) == (elapsed1 > MAX_TIME_TX_DELAY_MS),
        !c.after_send(msg).should_send_spec(msg, elapsed2),
{
}

} // verus!
