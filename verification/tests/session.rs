use blinkstick::{
    BlinkStick, BlinkStickError, ControlTransfer, Direction, OpenAction, OpenProgress, RgbColor,
    UsbFault,
};

fn session() -> BlinkStick {
    match BlinkStick::open(Some((OpenAction::ClaimInterface { interface: 0 }, Ok(false)))) {
        OpenProgress::Opened(session) => session,
        other => panic!("no session: {:?}", other),
    }
}

#[test]
fn open_runs_through_its_steps() {
    let first = BlinkStick::open(None);
    assert_eq!(first, OpenProgress::Continue(OpenAction::OpenDevice));
    let second = BlinkStick::open(Some((OpenAction::OpenDevice, Ok(false))));
    assert_eq!(second, OpenProgress::Continue(OpenAction::QueryKernelDriver { interface: 0 }));
    let third = BlinkStick::open(Some((OpenAction::QueryKernelDriver { interface: 0 }, Ok(false))));
    assert_eq!(third, OpenProgress::Continue(OpenAction::SetConfiguration { configuration: 1 }));
    let fourth =
        BlinkStick::open(Some((OpenAction::SetConfiguration { configuration: 1 }, Ok(false))));
    assert_eq!(fourth, OpenProgress::Continue(OpenAction::ClaimInterface { interface: 0 }));
    let last = BlinkStick::open(Some((OpenAction::ClaimInterface { interface: 0 }, Ok(false))));
    match last {
        OpenProgress::Opened(session) => assert_eq!(session.interface(), 0),
        other => panic!("no session: {:?}", other),
    }
}

#[test]
fn open_detaches_a_bound_kernel_driver() {
    let bound = BlinkStick::open(Some((OpenAction::QueryKernelDriver { interface: 0 }, Ok(true))));
    assert_eq!(bound, OpenProgress::Continue(OpenAction::DetachKernelDriver { interface: 0 }));
    let detached =
        BlinkStick::open(Some((OpenAction::DetachKernelDriver { interface: 0 }, Ok(false))));
    assert_eq!(detached, OpenProgress::Continue(OpenAction::SetConfiguration { configuration: 1 }));
}

#[test]
fn open_claim_refused_is_a_claim_failure() {
    let progress =
        BlinkStick::open(Some((OpenAction::ClaimInterface { interface: 0 }, Err(UsbFault::Busy))));
    assert_eq!(progress, OpenProgress::Failed(BlinkStickError::ClaimInterfaceError));
    assert_ne!(progress, OpenProgress::Failed(BlinkStickError::OpenDeviceError));
}

#[test]
fn open_names_the_step_that_failed() {
    let fault = UsbFault::Access;
    let failed = |action| BlinkStick::open(Some((action, Err(fault))));
    assert_eq!(
        failed(OpenAction::OpenDevice),
        OpenProgress::Failed(BlinkStickError::OpenDeviceError)
    );
    assert_eq!(
        failed(OpenAction::QueryKernelDriver { interface: 0 }),
        OpenProgress::Failed(BlinkStickError::UsbError(UsbFault::Access))
    );
    assert_eq!(
        failed(OpenAction::DetachKernelDriver { interface: 0 }),
        OpenProgress::Failed(BlinkStickError::UsbError(UsbFault::Access))
    );
    assert_eq!(
        failed(OpenAction::SetConfiguration { configuration: 1 }),
        OpenProgress::Failed(BlinkStickError::SetConfigurationError)
    );
    assert_eq!(
        failed(OpenAction::ClaimInterface { interface: 0 }),
        OpenProgress::Failed(BlinkStickError::ClaimInterfaceError)
    );
}

#[test]
fn set_color_is_a_set_report_of_the_single_report() {
    let transfer = session().set_color(&RgbColor::new(10, 20, 30));
    assert_eq!(
        transfer,
        ControlTransfer {
            direction: Direction::Out,
            request_type: 0x21,
            request: 0x09,
            value: 0x0301,
            index: 0,
            data: vec![1, 10, 20, 30],
            timeout_ms: 1000,
        }
    );
}

#[test]
fn set_color_indexed_uses_the_indexed_report() {
    let transfer = session().set_color_indexed(3, &RgbColor::new(10, 20, 30));
    assert_eq!(
        transfer,
        ControlTransfer {
            direction: Direction::Out,
            request_type: 0x21,
            request: 0x09,
            value: 0x0302,
            index: 0,
            data: vec![2, 3, 10, 20, 30],
            timeout_ms: 1000,
        }
    );
}

#[test]
fn set_color_indexed_at_zero_is_set_color() {
    let color = RgbColor::new(4, 5, 6);
    let stick = session();
    assert_eq!(stick.set_color_indexed(0, &color), stick.set_color(&color));
}

#[test]
fn set_colors_of_red_and_green_on_channel_zero() {
    let leds = [RgbColor::new(255, 0, 0), RgbColor::new(0, 255, 0)];
    let transfer = session().set_colors(0, &leds).unwrap();
    assert_eq!(transfer.data, vec![3, 0, 0, 2, 255, 0, 0, 0, 255, 0]);
    assert_eq!(transfer.direction, Direction::Out);
    assert_eq!(transfer.request_type, 0x21);
    assert_eq!(transfer.request, 0x09);
    assert_eq!(transfer.value, 0x0303);
    assert_eq!(transfer.index, 0);
    assert_eq!(transfer.timeout_ms, 1000);
}

#[test]
fn set_colors_of_nothing_is_no_transfer() {
    let stick = session();
    for channel in [0u8, 1, 2, 255] {
        assert_eq!(stick.set_colors(channel, &[]), None);
    }
}

#[test]
fn set_colors_of_one_is_set_color() {
    let color = RgbColor::new(12, 34, 56);
    let stick = session();
    for channel in [0u8, 1, 2] {
        let by_list = stick.set_colors(channel, &[color]).unwrap();
        assert_eq!(by_list, stick.set_color(&color));
        assert_eq!(by_list, stick.set_color_indexed(0, &color));
        let report: [u8; 4] = [by_list.data[0], by_list.data[1], by_list.data[2], by_list.data[3]];
        assert_eq!(stick.get_color(&report), color);
    }
}

#[test]
fn set_colors_takes_as_many_as_a_byte_counts() {
    let leds = vec![RgbColor::new(1, 2, 3); 255];
    let transfer = session().set_colors(1, &leds).unwrap();
    assert_eq!(transfer.data.len(), 4 + 3 * 255);
    assert_eq!(&transfer.data[..4], &[3, 1, 0, 255]);
}

#[test]
fn color_request_asks_for_the_single_report() {
    let transfer = session().color_request();
    assert_eq!(
        transfer,
        ControlTransfer {
            direction: Direction::In,
            request_type: 0xA1,
            request: 0x01,
            value: 0x0301,
            index: 0,
            data: vec![1, 0, 0, 0],
            timeout_ms: 1000,
        }
    );
}

#[test]
fn get_color_reads_red_green_blue() {
    assert_eq!(session().get_color(&[1, 255, 128, 0]), RgbColor { r: 255, g: 128, b: 0 });
}

#[test]
fn serial_request_asks_for_string_descriptor_three() {
    let transfer = session().serial_request();
    assert_eq!(
        transfer,
        ControlTransfer {
            direction: Direction::In,
            request_type: 0x80,
            request: 0x06,
            value: 0x0303,
            index: 0,
            data: vec![0; 256],
            timeout_ms: 1000,
        }
    );
}

#[test]
fn get_serial_decodes_utf16_after_the_header() {
    let mut response = vec![26u8, 3];
    for unit in "BS012345-3.0".encode_utf16() {
        response.extend_from_slice(&unit.to_le_bytes());
    }
    assert_eq!(session().get_serial(&response), Ok(String::from("BS012345-3.0")));
}

#[test]
fn get_serial_reads_the_less_significant_byte_first() {
    assert_eq!(session().get_serial(&[4, 3, 0x41, 0x00]), Ok(String::from("A")));
    assert_eq!(session().get_serial(&[4, 3, 0xAC, 0x20]), Ok(String::from("\u{20ac}")));
    assert_eq!(
        session().get_serial(&[6, 3, 0x3D, 0xD8, 0x00, 0xDE]),
        Ok(String::from("\u{1f600}"))
    );
}

#[test]
fn get_serial_leaves_out_a_byte_without_partner() {
    assert_eq!(session().get_serial(&[5, 3, 0x41, 0x00, 0x42]), Ok(String::from("A")));
    assert_eq!(session().get_serial(&[3, 3, 0x41]), Ok(String::new()));
}

#[test]
fn get_serial_needs_more_than_the_header() {
    let stick = session();
    assert_eq!(stick.get_serial(&[]), Err(BlinkStickError::SerialNumberError));
    assert_eq!(stick.get_serial(&[2]), Err(BlinkStickError::SerialNumberError));
    assert_eq!(stick.get_serial(&[2, 3]), Err(BlinkStickError::SerialNumberError));
}

#[test]
fn get_serial_refuses_invalid_utf16() {
    let stick = session();
    assert_eq!(stick.get_serial(&[4, 3, 0x00, 0xD8]), Err(BlinkStickError::SerialDecodeError));
    assert_eq!(
        stick.get_serial(&[6, 3, 0x00, 0xDC, 0x41, 0x00]),
        Err(BlinkStickError::SerialDecodeError)
    );
}

#[test]
fn failed_report_transfer_is_one_failure() {
    let stick = session();
    let color = RgbColor::new(1, 2, 3);
    for fault in [UsbFault::Io, UsbFault::Timeout, UsbFault::Pipe, UsbFault::NoDevice] {
        assert_eq!(stick.set_color(&color).failure(fault), BlinkStickError::ControlTransferError);
        assert_eq!(
            stick.set_color_indexed(2, &color).failure(fault),
            BlinkStickError::ControlTransferError
        );
        assert_eq!(
            stick.set_colors(0, &[color, color]).unwrap().failure(fault),
            BlinkStickError::ControlTransferError
        );
        assert_eq!(stick.color_request().failure(fault), BlinkStickError::ControlTransferError);
    }
}

#[test]
fn failed_serial_transfer_passes_the_reason_on() {
    let stick = session();
    assert_eq!(
        stick.serial_request().failure(UsbFault::Timeout),
        BlinkStickError::UsbError(UsbFault::Timeout)
    );
    assert_eq!(
        stick.serial_request().failure(UsbFault::Pipe),
        BlinkStickError::UsbError(UsbFault::Pipe)
    );
}
