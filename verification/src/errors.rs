//! The ways an operation of this library can fail.

use vstd::prelude::*;

verus! {

/// Why an operation was refused.
#[derive(Clone, Copy, Debug, PartialEq, Eq, Structural, Hash)]
pub enum ButtplugError {
    /// A feature descriptor sets both its actuator and its sensor, or sets
    /// neither where its feature type needs one.
    ConfigurationError,
    /// A step limit does not lie within the step range it narrows.
    RangeError,
    /// A transport could not start or stop scanning.
    ScanError,
    /// A scan had no device to announce. This is a report and no failure:
    /// such a scan succeeds and announces nothing.
    NoDevicesAvailable,
    /// No device is registered under an index, or no definition is known
    /// for the identity of a device.
    UnknownDevice,
}

} // verus!
