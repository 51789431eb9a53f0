//! What can go wrong.

use vstd::prelude::*;

verus! {

/// The reason that the USB layer gives when an operation fails.
#[derive(Clone, Copy, Debug, PartialEq, Eq, Structural)]
pub enum UsbFault {
    Io,
    InvalidParam,
    Access,
    NoDevice,
    NotFound,
    Busy,
    Timeout,
    Overflow,
    Pipe,
    Interrupted,
    NoMem,
    NotSupported,
    BadDescriptor,
    Other,
}

/// The failures that this library reports.
#[derive(Clone, Copy, Debug, PartialEq, Eq, Structural)]
pub enum BlinkStickError {
    /// The USB layer failed where no more specific failure applies.
    UsbError(UsbFault),
    /// No attached device is a BlinkStick.
    NoDeviceFound,
    /// The descriptor of an attached device could not be read.
    DeviceDescriptorError,
    /// The device could not be opened.
    OpenDeviceError,
    /// The interface could not be claimed.
    ClaimInterfaceError,
    /// The configuration could not be set.
    SetConfigurationError,
    /// A feature report was not transferred.
    ControlTransferError,
    /// The device returned no serial number.
    SerialNumberError,
    /// The serial number that the device returned is not valid UTF-16.
    SerialDecodeError,
    /// A text is neither a color name nor a color in hexadecimal notation.
    InvalidColor,
    /// An effect was asked for with parameters that it cannot run with.
    InvalidEffectParameters,
}

} // verus!
