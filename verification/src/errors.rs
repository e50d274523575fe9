//! Error taxonomy of the bridge.

use vstd::prelude::*;

verus! {

/// Everything that can go wrong while setting up the gamepad or while
/// driving the BLE session.
///
/// Gamepad initialization failures are fatal at startup; the link errors
/// (missing adapter, discovery timeout, missing characteristic) end one run
/// of the control loop and are handled by the supervisor, which cools down
/// and restarts the session.
#[derive(Debug)]
pub enum CarbleuratorError {
    /// The gamepad backend is not supported on this platform.
    UsbNotSupportedError,
    /// The gamepad device could not be initialized.
    UsbDeviceInitializationError,
    /// The gamepad backend failed with its own error, kept as text.
    UsbInitializationError(String),
    /// No gamepad is plugged in.
    MissingGamepad,
    /// The machine has no BLE adapter.
    MissingBleAdapter,
    /// The target peripheral was not seen within the bounded retries.
    BleAdapterDiscoveryTimeout,
    /// The connected peripheral does not expose the serial characteristic.
    BleAdapterMissingCharacteristic,
}

} // verus!
