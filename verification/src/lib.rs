//! Bridges a handheld game controller to a small differential-drive vehicle
//! over a BLE serial-style link.
//!
//! The crate holds the decision logic of the bridge: the drive encoder that
//! packs a two-axis stick reading into a single command byte, the BLE session
//! state machine that discovers, connects to and caches the target peripheral,
//! the control loop that decides when to transmit, and the LED signal states.
//! All I/O (the BLE radio, the gamepad device, timers and LEDs) is performed
//! by the surrounding program, which drives these state machines and carries
//! their requests out.

pub mod bleserial;
pub mod control_loop;
pub mod errors;
pub mod gamepad;
pub mod motor_control;
pub mod signaling;
