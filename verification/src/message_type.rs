//! The command kinds a device feature can accept, and the transport
//! endpoints a raw feature can address.

use vstd::prelude::*;

verus! {

/// One kind of device command.
#[derive(Clone, Copy, Debug, PartialEq, Eq, Structural, Hash)]
pub enum ButtplugDeviceMessageType {
    VibrateCmd,
    LinearCmd,
    RotateCmd,
    StopDeviceCmd,
    RawWriteCmd,
    RawReadCmd,
    RawSubscribeCmd,
    RawUnsubscribeCmd,
    BatteryLevelCmd,
    RSSILevelCmd,
    ScalarCmd,
    SensorReadCmd,
    SensorSubscribeCmd,
    SensorUnsubscribeCmd,
}

/// One transport endpoint of a device.
#[derive(Clone, Copy, Debug, PartialEq, Eq, Structural, Hash)]
pub enum Endpoint {
    Command,
    Firmware,
    Rx,
    RxAccel,
    RxBLEBattery,
    RxBLEModel,
    RxPressure,
    RxTouch,
    Tx,
    TxMode,
    TxShock,
    TxVibrate,
    TxVendorControl,
    Whitelist,
}

} // verus!
