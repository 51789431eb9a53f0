use blinkstick::{find_blinksticks, find_first_blinkstick, BlinkStick, BlinkStickError, DeviceIds};

const STICK: Option<DeviceIds> = Some(DeviceIds { vendor_id: 0x20A0, product_id: 0x41E5 });
const MOUSE: Option<DeviceIds> = Some(DeviceIds { vendor_id: 0x046D, product_id: 0xC077 });
const SAME_VENDOR: Option<DeviceIds> = Some(DeviceIds { vendor_id: 0x20A0, product_id: 0x0001 });
const SAME_PRODUCT: Option<DeviceIds> = Some(DeviceIds { vendor_id: 0x0001, product_id: 0x41E5 });

#[test]
fn find_all_without_a_match_is_an_empty_list() {
    assert_eq!(BlinkStick::find_all(&[]), Ok(vec![]));
    assert_eq!(BlinkStick::find_all(&[MOUSE]), Ok(vec![]));
    assert_eq!(BlinkStick::find_all(&[MOUSE, SAME_VENDOR, SAME_PRODUCT]), Ok(vec![]));
}

#[test]
fn find_all_gives_the_positions_in_order() {
    assert_eq!(BlinkStick::find_all(&[STICK]), Ok(vec![0]));
    assert_eq!(BlinkStick::find_all(&[MOUSE, STICK, MOUSE, STICK, STICK]), Ok(vec![1, 3, 4]));
    assert_eq!(find_blinksticks(&[STICK, MOUSE, STICK]), Ok(vec![0, 2]));
}

#[test]
fn find_all_needs_both_ids_to_match() {
    assert_eq!(BlinkStick::find_all(&[SAME_VENDOR, STICK, SAME_PRODUCT]), Ok(vec![1]));
}

#[test]
fn find_all_fails_on_an_unreadable_descriptor() {
    assert_eq!(BlinkStick::find_all(&[None]), Err(BlinkStickError::DeviceDescriptorError));
    assert_eq!(
        BlinkStick::find_all(&[STICK, None, STICK]),
        Err(BlinkStickError::DeviceDescriptorError)
    );
    assert_eq!(
        BlinkStick::find_all(&[MOUSE, MOUSE, None]),
        Err(BlinkStickError::DeviceDescriptorError)
    );
    assert_eq!(find_blinksticks(&[None, STICK]), Err(BlinkStickError::DeviceDescriptorError));
}

#[test]
fn find_first_gives_the_first_position() {
    assert_eq!(BlinkStick::find_first(&[STICK]), Ok(0));
    assert_eq!(BlinkStick::find_first(&[MOUSE, MOUSE, STICK, STICK]), Ok(2));
    assert_eq!(find_first_blinkstick(&[MOUSE, STICK]), Ok(1));
}

#[test]
fn find_first_without_a_match_finds_no_device() {
    assert_eq!(BlinkStick::find_first(&[]), Err(BlinkStickError::NoDeviceFound));
    assert_eq!(BlinkStick::find_first(&[MOUSE, SAME_VENDOR]), Err(BlinkStickError::NoDeviceFound));
    assert_eq!(find_first_blinkstick(&[MOUSE]), Err(BlinkStickError::NoDeviceFound));
}

#[test]
fn find_first_fails_on_an_unreadable_descriptor() {
    assert_eq!(
        BlinkStick::find_first(&[STICK, None]),
        Err(BlinkStickError::DeviceDescriptorError)
    );
    assert_eq!(BlinkStick::find_first(&[None]), Err(BlinkStickError::DeviceDescriptorError));
}
