//! A session with one BlinkStick: the commands it takes and the control
//! transfers that carry them.

use vstd::prelude::*;
use vstd::slice::slice_subrange;
use crate::color::RgbColor;
use crate::error::{BlinkStickError, UsbFault};
use crate::report::{
    indexed_payload, multi_payload, single_color, single_payload, FeatureReport, MAX_LEDS,
    REPORT_SINGLE,
};
use crate::text::{code_units, utf16_text, utf16_units};
use crate::transfer::{
    lemma_request_types, request_type, request_type_byte, transfer_failure, ControlTransfer,
    Direction, Recipient, RequestType, TransferModel, DESCRIPTOR_TYPE_STRING, GET_DESCRIPTOR,
    GET_REPORT, REPORT_TYPE_FEATURE, SERIAL_STRING_INDEX, SET_REPORT, TRANSFER_TIMEOUT_MS,
};

verus! {

/// The interface of the device that a session claims.
pub const INTERFACE: u8 = 0;

/// The configuration that a session makes active.
pub const CONFIGURATION: u8 = 1;

/// How many bytes are asked for when the serial number is read.
pub const SERIAL_BUFFER_LEN: usize = 256;

/// The `wValue` that addresses the feature report `report_id`.
pub open spec fn report_value(report_id: u8) -> u16 {
    REPORT_TYPE_FEATURE | report_id as u16
}

/// The transfer that sends the feature report `payload` to the device.
pub open spec fn set_report_transfer(payload: Seq<u8>) -> TransferModel
    recommends
        payload.len() > 0,
{
    TransferModel {
        direction: Direction::Out,
        request_type: request_type_byte(
            Direction::Out,
            RequestType::Class,
            Recipient::Interface,
        ),
        request: SET_REPORT,
        value: report_value(payload[0]),
        index: 0,
        data: payload,
        timeout_ms: TRANSFER_TIMEOUT_MS,
    }
}

/// The transfer that reads a feature report into `buffer`, whose first byte
/// says which report is asked for and whose length is that of the report.
pub open spec fn get_report_transfer(buffer: Seq<u8>) -> TransferModel
    recommends
        buffer.len() > 0,
{
    TransferModel {
        direction: Direction::In,
        request_type: request_type_byte(Direction::In, RequestType::Class, Recipient::Interface),
        request: GET_REPORT,
        value: report_value(buffer[0]),
        index: 0,
        data: buffer,
        timeout_ms: TRANSFER_TIMEOUT_MS,
    }
}

/// The `wValue` that addresses the string descriptor of the serial number.
pub open spec fn serial_descriptor_value() -> u16 {
    (DESCRIPTOR_TYPE_STRING as u16) << 8 | SERIAL_STRING_INDEX as u16
}

/// The transfer that reads the string descriptor of the serial number.
pub open spec fn serial_transfer() -> TransferModel {
    TransferModel {
        direction: Direction::In,
        request_type: request_type_byte(Direction::In, RequestType::Standard, Recipient::Device),
        request: GET_DESCRIPTOR,
        value: serial_descriptor_value(),
        index: 0,
        data: Seq::new(SERIAL_BUFFER_LEN as nat, |i: int| 0u8),
        timeout_ms: TRANSFER_TIMEOUT_MS,
    }
}

/// The transfer that sets the first LED to `color`.
pub open spec fn color_transfer(color: RgbColor) -> TransferModel {
    set_report_transfer(single_payload(color))
}

/// The transfer that sets the LED at `index` to `color`: the first LED is
/// set by its own report.
pub open spec fn indexed_transfer(index: u8, color: RgbColor) -> TransferModel {
    if index == 0 {
        color_transfer(color)
    } else {
        set_report_transfer(indexed_payload(index, color))
    }
}

/// The transfer, if any, that sets the LEDs of `channel` to `leds`: none
/// for no LED, that of the first LED for one.
pub open spec fn leds_transfer(channel: u8, leds: Seq<RgbColor>) -> Option<TransferModel>
    recommends
        leds.len() <= MAX_LEDS,
{
    if leds.len() == 0 {
        None
    } else if leds.len() == 1 {
        Some(color_transfer(leds[0]))
    } else {
        Some(set_report_transfer(multi_payload(channel, leds)))
    }
}

/// The buffer that the color of the first LED is read into.
pub open spec fn color_buffer() -> Seq<u8> {
    seq![REPORT_SINGLE, 0u8, 0u8, 0u8]
}

/// The serial number in the bytes that the device returned for its string
/// descriptor. The first two bytes are the header of the descriptor; the
/// rest is the text in UTF-16. A descriptor of no more than its header holds
/// no serial number.
pub open spec fn serial_text(response: Seq<u8>) -> Result<Seq<char>, BlinkStickError> {
    if response.len() <= 2 {
        Err(BlinkStickError::SerialNumberError)
    } else {
        match utf16_text(utf16_units(response.skip(2))) {
            Some(text) => Ok(text),
            None => Err(BlinkStickError::SerialDecodeError),
        }
    }
}

/// What is done next to open a session.
#[derive(Clone, Copy, Debug, PartialEq, Eq, Structural)]
pub enum OpenAction {
    /// Open the device.
    OpenDevice,
    /// Ask whether a kernel driver is bound to the interface.
    QueryKernelDriver { interface: u8 },
    /// Detach the kernel driver from the interface.
    DetachKernelDriver { interface: u8 },
    /// Make the configuration active.
    SetConfiguration { configuration: u8 },
    /// Claim the interface.
    ClaimInterface { interface: u8 },
}

/// How far the opening of a session has come.
#[derive(Debug, PartialEq, Eq)]
pub enum OpenProgress {
    /// The action to perform next.
    Continue(OpenAction),
    /// The session is open.
    Opened(BlinkStick),
    /// The opening has failed and is over.
    Failed(BlinkStickError),
}

/// The place of an action in the order of opening.
pub open spec fn open_rank(action: OpenAction) -> nat {
    match action {
        OpenAction::OpenDevice => 0,
        OpenAction::QueryKernelDriver { .. } => 1,
        OpenAction::DetachKernelDriver { .. } => 2,
        OpenAction::SetConfiguration { .. } => 3,
        OpenAction::ClaimInterface { .. } => 4,
    }
}

/// The failure that is reported when `action` fails for the reason `fault`:
/// each step has its own, and the two that deal with the kernel driver pass
/// the reason on.
pub open spec fn open_failure(action: OpenAction, fault: UsbFault) -> BlinkStickError {
    match action {
        OpenAction::OpenDevice => BlinkStickError::OpenDeviceError,
        OpenAction::QueryKernelDriver { .. } => BlinkStickError::UsbError(fault),
        OpenAction::DetachKernelDriver { .. } => BlinkStickError::UsbError(fault),
        OpenAction::SetConfiguration { .. } => BlinkStickError::SetConfigurationError,
        OpenAction::ClaimInterface { .. } => BlinkStickError::ClaimInterfaceError,
    }
}

/// How the opening goes on. `done` is the action that was performed last
/// with its outcome, or nothing before the first action. The outcome of the
/// query says whether a kernel driver is bound; that of any other action
/// that succeeded says nothing.
pub open spec fn open_progress(done: Option<(OpenAction, Result<bool, UsbFault>)>) -> OpenProgress {
    match done {
        None => OpenProgress::Continue(OpenAction::OpenDevice),
        Some((action, Err(fault))) => OpenProgress::Failed(open_failure(action, fault)),
        Some((action, Ok(bound))) => match action {
            OpenAction::OpenDevice => OpenProgress::Continue(
                OpenAction::QueryKernelDriver { interface: INTERFACE },
            ),
            OpenAction::QueryKernelDriver { .. } => if bound {
                OpenProgress::Continue(OpenAction::DetachKernelDriver { interface: INTERFACE })
            } else {
                OpenProgress::Continue(OpenAction::SetConfiguration { configuration: CONFIGURATION })
            },
            OpenAction::DetachKernelDriver { .. } => OpenProgress::Continue(
                OpenAction::SetConfiguration { configuration: CONFIGURATION },
            ),
            OpenAction::SetConfiguration { .. } => OpenProgress::Continue(
                OpenAction::ClaimInterface { interface: INTERFACE },
            ),
            OpenAction::ClaimInterface { .. } => OpenProgress::Opened(BlinkStick::claimed()),
        },
    }
}

/// The opening goes on in one order: the device is opened, the kernel driver
/// asked for and, where there is one, detached, the configuration set, the
/// interface claimed. A session comes out of the claim that succeeded and
/// of nothing else, and an action that failed ends the opening.
pub proof fn lemma_open_order(action: OpenAction, outcome: Result<bool, UsbFault>)
    ensures
        open_progress(Some((action, outcome))) matches OpenProgress::Continue(next) ==> open_rank(
            next,
        ) > open_rank(action),
        open_progress(Some((action, outcome))) is Opened <==> action is ClaimInterface
            && outcome is Ok,
        open_progress(Some((action, outcome))) is Failed <==> outcome is Err,
        !(open_progress(None) is Opened),
{
}

/// On the wire: `wValue` of a feature report is `0x0300` plus its id, and
/// that of the serial number's descriptor is `0x0303`.
pub proof fn lemma_wire_values(report_id: u8)
    ensures
        report_value(report_id) == 0x0300 + report_id,
        serial_descriptor_value() == 0x0303,
{
    let id = report_id as u16;
    assert(0x0300u16 | id == 0x0300u16 + id) by (bit_vector)
        requires
            id < 0x100u16,
    ;
    assert((0x03u8 as u16) << 8 | (3u8 as u16) == 0x0303u16) by (bit_vector);
}

/// A transfer of a feature report that fails is reported as one failure,
/// whatever the reason; the transfer of the serial number that fails passes
/// the reason on.
pub proof fn lemma_transfer_failures(data: Seq<u8>, fault: UsbFault)
    ensures
        transfer_failure(set_report_transfer(data), fault)
            == BlinkStickError::ControlTransferError,
        transfer_failure(get_report_transfer(data), fault)
            == BlinkStickError::ControlTransferError,
        transfer_failure(serial_transfer(), fault) == BlinkStickError::UsbError(fault),
{
    lemma_request_types();
}

/// One LED is set by the same transfer whether it is asked for as a list of
/// one, as the LED at index 0 or as the first LED, and the report in that
/// transfer, read back, holds the color.
pub proof fn lemma_single_led(channel: u8, color: RgbColor)
    ensures
        leds_transfer(channel, seq![color]) == Some(color_transfer(color)),
        indexed_transfer(0, color) == color_transfer(color),
        color_transfer(color).data.len() == 4,
        single_color(color_transfer(color).data) == color,
{
}

/// Setting no LED takes no transfer, on any channel.
pub proof fn lemma_no_led(channel: u8)
    ensures
        leds_transfer(channel, Seq::empty()) is None,
{
}

/// A session with a device whose interface this process has claimed.
#[derive(Debug, PartialEq, Eq)]
pub struct BlinkStick {
    interface: u8,
}

impl BlinkStick {
    /// The interface that the session holds.
    pub closed spec fn held_interface(&self) -> u8 {
        self.interface
    }

    #[verifier::type_invariant]
    spec fn holds_the_interface(&self) -> bool {
        self.interface == INTERFACE
    }

    /// The session that holds the interface.
    pub closed spec fn claimed() -> BlinkStick {
        BlinkStick { interface: INTERFACE }
    }

    /// The next step of opening a session: open the device, detach the
    /// kernel driver if one is bound to the interface, make the
    /// configuration active, claim the interface. The first failure ends
    /// the opening.
    pub fn open(done: Option<(OpenAction, Result<bool, UsbFault>)>) -> (progress: OpenProgress)
        ensures
            progress == open_progress(done),
            progress matches OpenProgress::Opened(session) ==> session.held_interface()
                == INTERFACE,
    {
        match done {
            None => OpenProgress::Continue(OpenAction::OpenDevice),
            Some((action, Err(fault))) => {
                let error = match action {
                    OpenAction::OpenDevice => BlinkStickError::OpenDeviceError,
                    OpenAction::QueryKernelDriver { .. } => BlinkStickError::UsbError(fault),
                    OpenAction::DetachKernelDriver { .. } => BlinkStickError::UsbError(fault),
                    OpenAction::SetConfiguration { .. } => BlinkStickError::SetConfigurationError,
                    OpenAction::ClaimInterface { .. } => BlinkStickError::ClaimInterfaceError,
                };
                OpenProgress::Failed(error)
            },
            Some((action, Ok(bound))) => match action {
                OpenAction::OpenDevice => OpenProgress::Continue(
                    OpenAction::QueryKernelDriver { interface: INTERFACE },
                ),
                OpenAction::QueryKernelDriver { .. } => if bound {
                    OpenProgress::Continue(OpenAction::DetachKernelDriver { interface: INTERFACE })
                } else {
                    OpenProgress::Continue(
                        OpenAction::SetConfiguration { configuration: CONFIGURATION },
                    )
                },
                OpenAction::DetachKernelDriver { .. } => OpenProgress::Continue(
                    OpenAction::SetConfiguration { configuration: CONFIGURATION },
                ),
                OpenAction::SetConfiguration { .. } => OpenProgress::Continue(
                    OpenAction::ClaimInterface { interface: INTERFACE },
                ),
                OpenAction::ClaimInterface { .. } => OpenProgress::Opened(
                    BlinkStick { interface: INTERFACE },
                ),
            },
        }
    }

    /// The interface that the session holds, which is to be released when
    /// the session ends.
    pub fn interface(&self) -> (interface: u8)
        ensures
            interface == INTERFACE,
            interface == self.held_interface(),
    {
        proof {
            use_type_invariant(self);
        }
        self.interface
    }

    /// The transfer that sets the first LED to `color`.
    pub fn set_color(&self, color: &RgbColor) -> (transfer: ControlTransfer)
        ensures
            transfer@ == color_transfer(*color),
    {
        let report = FeatureReport::Single { color: *color };
        Self::send_feature_report(report.encode())
    }

    /// The transfer that sets the LED at `index` to `color`.
    pub fn set_color_indexed(&self, index: u8, color: &RgbColor) -> (transfer: ControlTransfer)
        ensures
            transfer@ == indexed_transfer(index, *color),
    {
        if index == 0 {
            return self.set_color(color);
        }
        let report = FeatureReport::Indexed { index, color: *color };
        Self::send_feature_report(report.encode())
    }

    /// The transfer, if any, that sets the LEDs of `channel` to `leds`, from
    /// the first LED on. With no LED there is nothing to transfer.
    pub fn set_colors(&self, channel: u8, leds: &[RgbColor]) -> (transfer: Option<ControlTransfer>)
        requires
            leds@.len() <= MAX_LEDS,
        ensures
            leds@.len() == 0 ==> transfer is None,
            (match leds_transfer(channel, leds@) {
                Some(model) => transfer is Some && transfer->0@ == model,
                None => transfer is None,
            }),
    {
        match FeatureReport::for_leds(channel, leds) {
            None => None,
            Some(report) => Some(Self::send_feature_report(report.encode())),
        }
    }

    /// The transfer that reads the color of the first LED.
    pub fn color_request(&self) -> (transfer: ControlTransfer)
        ensures
            transfer@ == get_report_transfer(color_buffer()),
    {
        let buffer = vec![REPORT_SINGLE, 0u8, 0u8, 0u8];
        Self::get_feature_report(buffer)
    }

    /// The color of the first LED, from the four bytes that the transfer
    /// of `color_request` has filled.
    pub fn get_color(&self, report: &[u8; 4]) -> (color: RgbColor)
        ensures
            color == single_color(report@),
    {
        FeatureReport::decode_color(report)
    }

    /// The transfer that reads the string descriptor of the serial number.
    pub fn serial_request(&self) -> (transfer: ControlTransfer)
        ensures
            transfer@ == serial_transfer(),
    {
        let mut data: Vec<u8> = Vec::new();
        while data.len() < SERIAL_BUFFER_LEN
            invariant
                data@.len() <= SERIAL_BUFFER_LEN,
                forall|i: int| 0 <= i < data@.len() ==> data@[i] == 0u8,
            decreases SERIAL_BUFFER_LEN - data@.len(),
        {
            data.push(0u8);
        }
        assert(data@ =~= serial_transfer().data);
        ControlTransfer {
            direction: Direction::In,
            request_type: request_type(Direction::In, RequestType::Standard, Recipient::Device),
            request: GET_DESCRIPTOR,
            value: (DESCRIPTOR_TYPE_STRING as u16) << 8 | SERIAL_STRING_INDEX as u16,
            index: 0,
            data,
            timeout_ms: TRANSFER_TIMEOUT_MS,
        }
    }

    /// The serial number that the device has returned in `response`, the
    /// bytes that the transfer of `serial_request` has received.
    pub fn get_serial(&self, response: &[u8]) -> (serial: Result<String, BlinkStickError>)
        ensures
            (match serial_text(response@) {
                Ok(text) => serial is Ok && serial->Ok_0@ == text,
                Err(error) => serial is Err && serial->Err_0 == error,
            }),
    {
        if response.len() <= 2 {
            return Err(BlinkStickError::SerialNumberError);
        }
        let text = slice_subrange(response, 2, response.len());
        assert(text@ == response@.skip(2));
        let units = code_units(text);
        match String::from_utf16(units.as_slice()) {
            Ok(serial) => Ok(serial),
            Err(_) => Err(BlinkStickError::SerialDecodeError),
        }
    }

    /// The transfer that sends the feature report `data`.
    fn send_feature_report(data: Vec<u8>) -> (transfer: ControlTransfer)
        requires
            data@.len() > 0,
        ensures
            transfer@ == set_report_transfer(data@),
    {
        let report_id = data[0];
        ControlTransfer {
            direction: Direction::Out,
            request_type: request_type(Direction::Out, RequestType::Class, Recipient::Interface),
            request: SET_REPORT,
            value: REPORT_TYPE_FEATURE | report_id as u16,
            index: 0,
            data,
            timeout_ms: TRANSFER_TIMEOUT_MS,
        }
    }

    /// The transfer that reads a feature report into `data`, whose first
    /// byte says which.
    fn get_feature_report(data: Vec<u8>) -> (transfer: ControlTransfer)
        requires
            data@.len() > 0,
        ensures
            transfer@ == get_report_transfer(data@),
    {
        let report_id = data[0];
        ControlTransfer {
            direction: Direction::In,
            request_type: request_type(Direction::In, RequestType::Class, Recipient::Interface),
            request: GET_REPORT,
            value: REPORT_TYPE_FEATURE | report_id as u16,
            index: 0,
            data,
            timeout_ms: TRANSFER_TIMEOUT_MS,
        }
    }
}

} // verus!
