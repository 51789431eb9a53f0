//! USB control transfers, described as plain values for the caller to
//! perform.

use vstd::prelude::*;
use crate::error::{BlinkStickError, UsbFault};

verus! {

/// Which way the data of a transfer goes.
#[derive(Clone, Copy, Debug, PartialEq, Eq, Structural)]
pub enum Direction {
    /// From the device to the host.
    In,
    /// From the host to the device.
    Out,
}

/// Who defines a request.
#[derive(Clone, Copy, Debug, PartialEq, Eq, Structural)]
pub enum RequestType {
    /// The USB standard.
    Standard,
    /// A device class, here HID.
    Class,
}

/// What a request is addressed to.
#[derive(Clone, Copy, Debug, PartialEq, Eq, Structural)]
pub enum Recipient {
    /// The device as a whole.
    Device,
    /// One interface of the device.
    Interface,
}

/// The `SET_REPORT` request of the HID class.
pub const SET_REPORT: u8 = 0x09;

/// The `GET_REPORT` request of the HID class.
pub const GET_REPORT: u8 = 0x01;

/// The standard `GET_DESCRIPTOR` request.
pub const GET_DESCRIPTOR: u8 = 0x06;

/// The descriptor type of a string descriptor.
pub const DESCRIPTOR_TYPE_STRING: u8 = 0x03;

/// The report type "feature", as the high byte of `wValue`.
pub const REPORT_TYPE_FEATURE: u16 = 0x0300;

/// The index of the string descriptor that holds the serial number.
pub const SERIAL_STRING_INDEX: u8 = 3;

/// How long a transfer may take, in milliseconds.
pub const TRANSFER_TIMEOUT_MS: u64 = 1000;

/// The bits of `bmRequestType` that hold the type of the request.
pub const REQUEST_TYPE_MASK: u8 = 0x60;

/// What those bits hold for a request that a device class defines.
pub const REQUEST_TYPE_CLASS: u8 = 0x20;

/// The bit of `bmRequestType` that gives the direction.
pub open spec fn direction_bits(direction: Direction) -> u8 {
    match direction {
        Direction::Out => 0x00,
        Direction::In => 0x80,
    }
}

/// The bits of `bmRequestType` that give the type of the request.
pub open spec fn type_bits(kind: RequestType) -> u8 {
    match kind {
        RequestType::Standard => 0x00,
        RequestType::Class => 0x20,
    }
}

/// The bits of `bmRequestType` that give the recipient.
pub open spec fn recipient_bits(recipient: Recipient) -> u8 {
    match recipient {
        Recipient::Device => 0x00,
        Recipient::Interface => 0x01,
    }
}

/// The `bmRequestType` byte of a control transfer.
pub open spec fn request_type_byte(
    direction: Direction,
    kind: RequestType,
    recipient: Recipient,
) -> u8 {
    direction_bits(direction) | type_bits(kind) | recipient_bits(recipient)
}

/// Calls `rusb::request_type`, which joins with a bitwise or the bit for the
/// direction, the two bits for the type and the bits for the recipient.
#[verifier::external_body]
pub(crate) fn request_type(direction: Direction, kind: RequestType, recipient: Recipient) -> (value:
    u8)
    ensures
        value == request_type_byte(direction, kind, recipient),
{
    let direction = match direction {
        Direction::In => rusb::Direction::In,
        Direction::Out => rusb::Direction::Out,
    };
    let kind = match kind {
        RequestType::Standard => rusb::RequestType::Standard,
        RequestType::Class => rusb::RequestType::Class,
    };
    let recipient = match recipient {
        Recipient::Device => rusb::Recipient::Device,
        Recipient::Interface => rusb::Recipient::Interface,
    };
    rusb::request_type(direction, kind, recipient)
}

/// A control transfer for the caller to perform.
#[derive(Debug, PartialEq, Eq)]
pub struct ControlTransfer {
    /// Which way the data goes; the top bit of `request_type` says the same.
    pub direction: Direction,
    /// `bmRequestType`.
    pub request_type: u8,
    /// `bRequest`.
    pub request: u8,
    /// `wValue`.
    pub value: u16,
    /// `wIndex`.
    pub index: u16,
    /// The bytes to send, or the buffer to receive into as it is handed to
    /// the device.
    pub data: Vec<u8>,
    /// How long the transfer may take, in milliseconds.
    pub timeout_ms: u64,
}

/// A control transfer as a mathematical value.
pub struct TransferModel {
    pub direction: Direction,
    pub request_type: u8,
    pub request: u8,
    pub value: u16,
    pub index: u16,
    pub data: Seq<u8>,
    pub timeout_ms: u64,
}

/// Whether `bmRequestType` marks a request that a device class defines.
pub open spec fn is_class_request(request_type: u8) -> bool {
    request_type & REQUEST_TYPE_MASK == REQUEST_TYPE_CLASS
}

/// The failure that is reported when `transfer` fails for the reason
/// `fault`. The requests of the HID class carry the feature reports, and a
/// report that is not transferred is one failure whatever the reason; any
/// other request passes the reason on.
pub open spec fn transfer_failure(transfer: TransferModel, fault: UsbFault) -> BlinkStickError {
    if is_class_request(transfer.request_type) {
        BlinkStickError::ControlTransferError
    } else {
        BlinkStickError::UsbError(fault)
    }
}

impl ControlTransfer {
    /// The failure to report when the transfer fails for the reason `fault`.
    pub fn failure(&self, fault: UsbFault) -> (error: BlinkStickError)
        ensures
            error == transfer_failure(self@, fault),
    {
        if self.request_type & REQUEST_TYPE_MASK == REQUEST_TYPE_CLASS {
            BlinkStickError::ControlTransferError
        } else {
            BlinkStickError::UsbError(fault)
        }
    }
}

/// The `bmRequestType` bytes of the three kinds of transfer that a session
/// makes, and which of them are requests of a device class.
pub proof fn lemma_request_types()
    ensures
        request_type_byte(Direction::Out, RequestType::Class, Recipient::Interface) == 0x21,
        request_type_byte(Direction::In, RequestType::Class, Recipient::Interface) == 0xA1,
        request_type_byte(Direction::In, RequestType::Standard, Recipient::Device) == 0x80,
        is_class_request(0x21),
        is_class_request(0xA1),
        !is_class_request(0x80),
{
    assert(0x00u8 | 0x20u8 | 0x01u8 == 0x21u8) by (bit_vector);
    assert(0x80u8 | 0x20u8 | 0x01u8 == 0xA1u8) by (bit_vector);
    assert(0x80u8 | 0x00u8 | 0x00u8 == 0x80u8) by (bit_vector);
    assert(0x21u8 & 0x60u8 == 0x20u8) by (bit_vector);
    assert(0xA1u8 & 0x60u8 == 0x20u8) by (bit_vector);
    assert(0x80u8 & 0x60u8 != 0x20u8) by (bit_vector);
}

impl View for ControlTransfer {
    type V = TransferModel;

    open spec fn view(&self) -> TransferModel {
        TransferModel {
            direction: self.direction,
            request_type: self.request_type,
            request: self.request,
            value: self.value,
            index: self.index,
            data: self.data@,
            timeout_ms: self.timeout_ms,
        }
    }
}

} // verus!
