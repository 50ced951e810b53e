//! The error taxonomy shared by the codec and the acquisition machine.

use vstd::prelude::*;

verus! {

/// A field value that the command codec refuses, with the offending value.
#[derive(Clone, Copy, Debug, PartialEq, Eq, Structural)]
pub enum InvalidValue {
    /// Brightness level above 100.
    Brightness(u8),
    /// Effect speed above 100.
    EffectSpeed(u8),
    /// Hour above 23.
    Hour(u8),
    /// Minute above 59.
    Minute(u8),
    /// Second above 59.
    Second(u8),
    /// Day of week outside 1..=7 (1 is Monday).
    DayOfWeek(u8),
    /// Days bitmask above 0x7F.
    Days(u8),
    /// A byte string that is not nine bytes long, or does not start with
    /// 0x7E, or does not end with 0xEF.
    MalformedFrame,
}

/// The scan operation that the transport failed to carry out.
#[derive(Clone, Copy, Debug, PartialEq, Eq, Structural)]
pub enum ScanStage {
    Start,
    Stop,
}

/// Everything that can go wrong while acquiring or commanding a controller.
///
/// Variants that stem from the transport carry the transport's own error
/// text, untouched.
#[derive(Clone, Debug, PartialEq, Eq)]
pub enum BledomError {
    /// The transport failed outside of any more specific step.
    BluetoothManagerError(String),
    /// The host has no Bluetooth adapter.
    NoAdaptersFound,
    /// Starting or stopping the broadcast scan failed.
    ScanError(ScanStage, String),
    /// No matching controller showed up within the scan attempts.
    DeviceNotFound,
    /// Every connection attempt failed; holds the last transport error.
    ConnectionFailed(String),
    /// Service discovery failed on the connected controller.
    ServiceDiscoveryError(String),
    /// The controller does not expose the light-control characteristic.
    CharacteristicNotFound,
    /// The codec refused a field value.
    InvalidParameter(InvalidValue),
    /// A peripheral was listed but its properties could not be had.
    PropertiesUnavailable,
}

} // verus!
