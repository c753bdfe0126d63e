use usbd_hid_core::descriptor::{
    boot_keyboard_report_descriptor, boot_mouse_report_descriptor, consumer_report_descriptor,
    hid_descriptor, interface_descriptor, interrupt_endpoint_descriptor,
    nkro_keyboard_report_descriptor,
};

#[test]
fn hid_descriptor_fixture_for_the_boot_keyboard() {
    assert_eq!(hid_descriptor(63), vec![0x09, 0x21, 0x11, 0x01, 0x00, 0x01, 0x22, 63, 0x00]);
}

#[test]
fn hid_descriptor_fixture_for_each_built_in_kind() {
    for blob in [
        boot_keyboard_report_descriptor(),
        nkro_keyboard_report_descriptor(),
        boot_mouse_report_descriptor(),
        consumer_report_descriptor(),
    ] {
        let len = blob.len() as u16;
        let hid = hid_descriptor(len);
        let mut expected = vec![0x09, 0x21, 0x11, 0x01, 0x00, 0x01, 0x22];
        expected.push((len & 0xFF) as u8);
        expected.push((len >> 8) as u8);
        assert_eq!(hid, expected);
    }
}

#[test]
fn hid_descriptor_splits_long_lengths_little_endian() {
    assert_eq!(hid_descriptor(0x0123)[7..], [0x23, 0x01]);
}

#[test]
fn endpoint_descriptor_fixture() {
    assert_eq!(
        interrupt_endpoint_descriptor(0x81, 32, 1),
        vec![0x07, 0x05, 0x81, 0x03, 0x20, 0x00, 0x01]
    );
    assert_eq!(
        interrupt_endpoint_descriptor(0x01, 0x0208, 10),
        vec![0x07, 0x05, 0x01, 0x03, 0x08, 0x02, 0x0A]
    );
}

#[test]
fn interface_descriptor_fixture() {
    // A boot keyboard interface, number 0, with IN and OUT endpoints.
    assert_eq!(
        interface_descriptor(0, 2, 0x01, 0x01, 0),
        vec![0x09, 0x04, 0x00, 0x00, 0x02, 0x03, 0x01, 0x01, 0x00]
    );
    // A mouse interface, number 1, IN endpoint only, no boot support.
    assert_eq!(
        interface_descriptor(1, 1, 0x00, 0x02, 4),
        vec![0x09, 0x04, 0x01, 0x00, 0x01, 0x03, 0x00, 0x02, 0x04]
    );
}

#[test]
fn boot_keyboard_report_descriptor_fixture() {
    let expected: Vec<u8> = vec![
        0x05, 0x01, 0x09, 0x06, 0xA1, 0x01, // keyboard collection
        0x05, 0x07, 0x19, 0xE0, 0x29, 0xE7, 0x15, 0x00, 0x25, 0x01, 0x75, 0x01, 0x95, 0x08, 0x81,
        0x02, // modifiers
        0x95, 0x01, 0x75, 0x08, 0x81, 0x01, // reserved byte
        0x95, 0x05, 0x75, 0x01, 0x05, 0x08, 0x19, 0x01, 0x29, 0x05, 0x91, 0x02, // LEDs
        0x95, 0x01, 0x75, 0x03, 0x91, 0x01, // LED padding
        0x95, 0x06, 0x75, 0x08, 0x15, 0x00, 0x25, 0x65, 0x05, 0x07, 0x19, 0x00, 0x29, 0x65, 0x81,
        0x00, // six key slots
        0xC0,
    ];
    assert_eq!(boot_keyboard_report_descriptor(), expected);
}

#[test]
fn nkro_keyboard_report_descriptor_fixture() {
    let expected: Vec<u8> = vec![
        0x05, 0x01, 0x09, 0x06, 0xA1, 0x01, // keyboard collection
        0x05, 0x07, 0x19, 0xE0, 0x29, 0xE7, 0x15, 0x00, 0x25, 0x01, 0x75, 0x01, 0x95, 0x08, 0x81,
        0x02, // modifiers
        0x05, 0x08, 0x19, 0x01, 0x29, 0x05, 0x95, 0x05, 0x75, 0x01, 0x91, 0x02, // LEDs
        0x95, 0x01, 0x75, 0x03, 0x91, 0x01, // LED padding
        0x05, 0x07, 0x19, 0x00, 0x29, 0xDF, 0x15, 0x00, 0x25, 0x01, 0x75, 0x01, 0x95, 0xE0, 0x81,
        0x02, // 224-bit key bitmap
        0xC0,
    ];
    assert_eq!(nkro_keyboard_report_descriptor(), expected);
}

#[test]
fn boot_mouse_report_descriptor_fixture() {
    let expected: Vec<u8> = vec![
        0x05, 0x01, 0x09, 0x02, 0xA1, 0x01, // mouse collection
        0x09, 0x01, 0xA1, 0x00, // pointer collection
        0x05, 0x09, 0x19, 0x01, 0x29, 0x03, 0x15, 0x00, 0x25, 0x01, 0x95, 0x03, 0x75, 0x01, 0x81,
        0x02, // three buttons
        0x95, 0x01, 0x75, 0x05, 0x81, 0x01, // button padding
        0x05, 0x01, 0x09, 0x30, 0x09, 0x31, 0x15, 0x81, 0x25, 0x7F, 0x75, 0x08, 0x95, 0x02, 0x81,
        0x06, // X and Y
        0xC0, 0xC0,
    ];
    assert_eq!(boot_mouse_report_descriptor(), expected);
}

#[test]
fn consumer_report_descriptor_fixture() {
    let expected: Vec<u8> = vec![
        0x05, 0x0C, 0x09, 0x01, 0xA1, 0x01, // consumer control collection
        0x15, 0x00, 0x26, 0x9C, 0x02, 0x19, 0x00, 0x2A, 0x9C, 0x02, // usage range
        0x75, 0x10, 0x95, 0x04, 0x81, 0x00, // four 16-bit array slots
        0xC0,
    ];
    assert_eq!(consumer_report_descriptor(), expected);
}
