use usbd_hid_core::hid_class::{ControlResponse, HidRequest, parse_request, UsbHidClassBuilder};
use usbd_hid_core::interface::InterfaceConfig;
use usbd_hid_core::keyboard::{leds_from_byte, nkro_keyboard_config};
use usbd_hid_core::mouse::boot_mouse_config;
use usbd_hid_core::UsbHidError;

fn keyboard_config() -> InterfaceConfig {
    nkro_keyboard_config()
}

fn mouse_config() -> InterfaceConfig {
    boot_mouse_config()
}

#[test]
fn default_configs_are_well_formed() {
    assert!(nkro_keyboard_config().check_wf());
    assert!(boot_mouse_config().check_wf());
    assert!(usbd_hid_core::consumer::consumer_config().check_wf());
    let kb = nkro_keyboard_config();
    assert_eq!(
        kb.report_descriptor,
        usbd_hid_core::descriptor::nkro_keyboard_report_descriptor()
    );
    assert_eq!(kb.in_poll_interval_ms, 1);
    let out = kb.out_endpoint.unwrap();
    assert_eq!(out.poll_interval_ms, 10);
    assert_eq!(out.max_packet_size, 8);
}

#[test]
fn builder_keeps_declaration_order() {
    let class = UsbHidClassBuilder::new()
        .add_interface(keyboard_config())
        .add_interface(mouse_config())
        .build();
    assert_eq!(class.num_interfaces(), 2);
    assert_eq!(class.interfaces[0].config.in_poll_interval_ms, 1);
    assert_eq!(class.interfaces[1].config.in_poll_interval_ms, 10);
}

#[test]
fn parse_class_requests() {
    // GET_REPORT(Input, id 0): bmRequestType 0xA1, bRequest 1, wValue 0x0100
    assert_eq!(
        parse_request(0xA1, 0x01, 0x0100),
        HidRequest::GetReport { report_type: 1, report_id: 0 }
    );
    assert_eq!(parse_request(0xA1, 0x02, 0x0007), HidRequest::GetIdle { report_id: 7 });
    assert_eq!(parse_request(0xA1, 0x03, 0x0000), HidRequest::GetProtocol);
    assert_eq!(
        parse_request(0x21, 0x09, 0x0200),
        HidRequest::SetReport { report_type: 2, report_id: 0 }
    );
    assert_eq!(
        parse_request(0x21, 0x0A, 0x7F03),
        HidRequest::SetIdle { rate_4ms: 0x7F, report_id: 3 }
    );
    assert_eq!(parse_request(0x21, 0x0B, 0x0001), HidRequest::SetProtocol { value: 1 });
}

#[test]
fn parse_descriptor_requests() {
    assert_eq!(parse_request(0x81, 0x06, 0x2100), HidRequest::GetDescriptorHid);
    assert_eq!(parse_request(0x81, 0x06, 0x2200), HidRequest::GetDescriptorReport);
    assert_eq!(parse_request(0x81, 0x06, 0x0100), HidRequest::Unknown);
}

#[test]
fn parse_rejects_unknown_requests() {
    assert_eq!(parse_request(0xA1, 0x04, 0x0000), HidRequest::Unknown);
    assert_eq!(parse_request(0x21, 0x01, 0x0000), HidRequest::Unknown);
    assert_eq!(parse_request(0x80, 0x06, 0x2100), HidRequest::Unknown);
    assert_eq!(parse_request(0x00, 0x05, 0x0001), HidRequest::Unknown);
}

#[test]
fn idle_round_trip_through_control() {
    let mut class = UsbHidClassBuilder::new().add_interface(keyboard_config()).build();
    let r = class.handle_control(0, HidRequest::SetIdle { rate_4ms: 2, report_id: 0 }, vec![]);
    assert!(matches!(r, ControlResponse::Accepted));
    match class.handle_control(0, HidRequest::GetIdle { report_id: 0 }, vec![]) {
        ControlResponse::DataIn(d) => assert_eq!(d, vec![2]),
        _ => panic!("expected data"),
    }
}

#[test]
fn protocol_round_trip_through_control() {
    let mut class = UsbHidClassBuilder::new().add_interface(keyboard_config()).build();
    match class.handle_control(0, HidRequest::GetProtocol, vec![]) {
        ControlResponse::DataIn(d) => assert_eq!(d, vec![1]),
        _ => panic!("expected data"),
    }
    let r = class.handle_control(0, HidRequest::SetProtocol { value: 0 }, vec![]);
    assert!(matches!(r, ControlResponse::Accepted));
    match class.handle_control(0, HidRequest::GetProtocol, vec![]) {
        ControlResponse::DataIn(d) => assert_eq!(d, vec![0]),
        _ => panic!("expected data"),
    }
}

#[test]
fn set_protocol_rejects_other_values() {
    let mut class = UsbHidClassBuilder::new().add_interface(keyboard_config()).build();
    let r = class.handle_control(0, HidRequest::SetProtocol { value: 2 }, vec![]);
    assert!(matches!(r, ControlResponse::Stalled));
}

#[test]
fn unknown_request_stalls() {
    let mut class = UsbHidClassBuilder::new().add_interface(keyboard_config()).build();
    let r = class.handle_control(0, HidRequest::Unknown, vec![]);
    assert!(matches!(r, ControlResponse::Stalled));
}

#[test]
fn get_report_defers_to_the_application() {
    let mut class = UsbHidClassBuilder::new().add_interface(keyboard_config()).build();
    let r = class.handle_control(0, HidRequest::GetReport { report_type: 1, report_id: 0 }, vec![]);
    assert!(matches!(r, ControlResponse::ReportRequested(1, 0)));
}

#[test]
fn led_round_trip_through_set_report() {
    // SET_REPORT(OUT) with byte b, then read_report, yields the LEDs of
    // b & 0x1F.
    let b: u8 = 0b1010_0011;
    let mut class = UsbHidClassBuilder::new().add_interface(keyboard_config()).build();
    let r = class.handle_control(
        0,
        HidRequest::SetReport { report_type: 2, report_id: 0 },
        vec![b],
    );
    assert!(matches!(r, ControlResponse::Accepted));
    let out = class.interfaces[0].read_report().unwrap();
    assert_eq!(out, vec![b]);
    let leds = leds_from_byte(out[0]);
    assert_eq!(leds, leds_from_byte(b & 0x1F));
    assert!(leds.num_lock && leds.caps_lock);
    assert!(!leds.scroll_lock && !leds.compose && !leds.kana);
    assert!(matches!(class.interfaces[0].read_report(), Err(UsbHidError::WouldBlock)));
}

#[test]
fn control_touches_only_the_addressed_interface() {
    let mut class = UsbHidClassBuilder::new()
        .add_interface(keyboard_config())
        .add_interface(mouse_config())
        .build();
    class.handle_control(1, HidRequest::SetIdle { rate_4ms: 9, report_id: 0 }, vec![]);
    assert_eq!(class.interfaces[0].get_idle(), 0);
    assert_eq!(class.interfaces[1].get_idle(), 9);
}

#[test]
fn hid_descriptor_announces_report_descriptor_length() {
    let mut class = UsbHidClassBuilder::new().add_interface(keyboard_config()).build();
    let expected_len = class.interfaces[0].config.report_descriptor.len() as u16;
    match class.handle_control(0, HidRequest::GetDescriptorHid, vec![]) {
        ControlResponse::DataIn(d) => {
            assert_eq!(d.len(), 9);
            assert_eq!(d[7] as u16 | ((d[8] as u16) << 8), expected_len);
        },
        _ => panic!("expected data"),
    }
}

#[test]
fn report_descriptor_is_answered_from_the_config() {
    let mut class = UsbHidClassBuilder::new().add_interface(mouse_config()).build();
    match class.handle_control(0, HidRequest::GetDescriptorReport, vec![]) {
        ControlResponse::DataIn(d) => {
            assert_eq!(d, usbd_hid_core::descriptor::boot_mouse_report_descriptor());
        },
        _ => panic!("expected data"),
    }
}

#[test]
fn usb_errors_map_to_the_library_kinds() {
    let e = UsbHidError::from(usb_device::UsbError::WouldBlock);
    assert!(matches!(e, UsbHidError::WouldBlock));
    let e = UsbHidError::from(usb_device::UsbError::BufferOverflow);
    assert!(matches!(e, UsbHidError::UsbError(usb_device::UsbError::BufferOverflow)));
}
