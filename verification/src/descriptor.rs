//! Descriptor assembly: the 9-byte HID descriptor, the 7-byte interrupt
//! endpoint descriptor, and the report descriptor blobs of the built-in
//! device kinds. All of these are wire ABI: hosts parse them byte for byte.

use vstd::prelude::*;

verus! {

/// The HID descriptor announcing one subordinate report descriptor of the
/// given length: bLength 9, bDescriptorType 0x21, bcdHID 0x0111,
/// bCountryCode 0, bNumDescriptors 1, bDescriptorType 0x22,
/// wDescriptorLength little-endian.
pub open spec fn spec_hid_descriptor(report_descriptor_len: u16) -> Seq<u8> {
    seq![
        0x09u8,
        0x21u8,
        0x11u8,
        0x01u8,
        0x00u8,
        0x01u8,
        0x22u8,
        (report_descriptor_len & 0xFF) as u8,
        (report_descriptor_len >> 8u16) as u8,
    ]
}

/// Emits the HID descriptor for a report descriptor of the given length.
pub fn hid_descriptor(report_descriptor_len: u16) -> (r: Vec<u8>)
    ensures
        r@ == spec_hid_descriptor(report_descriptor_len),
        r@.len() == 9,
{
    let mut r: Vec<u8> = Vec::new();
    r.push(0x09);
    r.push(0x21);
    r.push(0x11);
    r.push(0x01);
    r.push(0x00);
    r.push(0x01);
    r.push(0x22);
    r.push((report_descriptor_len & 0xFF) as u8);
    r.push((report_descriptor_len >> 8u16) as u8);
    proof {
        assert(r@ =~= spec_hid_descriptor(report_descriptor_len));
    }
    r
}

/// The standard 7-byte interrupt endpoint descriptor: bLength 7,
/// bDescriptorType 5, bEndpointAddress, bmAttributes 0x03 (interrupt),
/// wMaxPacketSize little-endian, bInterval in full-speed milliseconds.
pub open spec fn spec_endpoint_descriptor(address: u8, max_packet_size: u16, interval_ms: u8) -> Seq<
    u8,
> {
    seq![
        0x07u8,
        0x05u8,
        address,
        0x03u8,
        (max_packet_size & 0xFF) as u8,
        (max_packet_size >> 8u16) as u8,
        interval_ms,
    ]
}

/// Emits an interrupt endpoint descriptor.
pub fn interrupt_endpoint_descriptor(address: u8, max_packet_size: u16, interval_ms: u8) -> (r: Vec<
    u8,
>)
    ensures
        r@ == spec_endpoint_descriptor(address, max_packet_size, interval_ms),
        r@.len() == 7,
{
    let mut r: Vec<u8> = Vec::new();
    r.push(0x07);
    r.push(0x05);
    r.push(address);
    r.push(0x03);
    r.push((max_packet_size & 0xFF) as u8);
    r.push((max_packet_size >> 8u16) as u8);
    r.push(interval_ms);
    proof {
        assert(r@ =~= spec_endpoint_descriptor(address, max_packet_size, interval_ms));
    }
    r
}

/// The standard 9-byte interface descriptor for a HID interface: bLength 9,
/// bDescriptorType 4, bInterfaceNumber, bAlternateSetting 0,
/// bNumEndpoints, bInterfaceClass 3 (HID), bInterfaceSubClass (1 = boot),
/// bInterfaceProtocol (1 = keyboard, 2 = mouse), iInterface.
pub open spec fn spec_interface_descriptor(
    number: u8,
    num_endpoints: u8,
    sub_class: u8,
    protocol: u8,
    string_index: u8,
) -> Seq<u8> {
    seq![0x09u8, 0x04u8, number, 0x00u8, num_endpoints, 0x03u8, sub_class, protocol, string_index]
}

/// Emits a HID interface descriptor.
pub fn interface_descriptor(
    number: u8,
    num_endpoints: u8,
    sub_class: u8,
    protocol: u8,
    string_index: u8,
) -> (r: Vec<u8>)
    ensures
        r@ == spec_interface_descriptor(number, num_endpoints, sub_class, protocol, string_index),
        r@.len() == 9,
{
    let mut r: Vec<u8> = Vec::new();
    r.push(0x09);
    r.push(0x04);
    r.push(number);
    r.push(0x00);
    r.push(num_endpoints);
    r.push(0x03);
    r.push(sub_class);
    r.push(protocol);
    r.push(string_index);
    proof {
        assert(r@ =~= spec_interface_descriptor(
            number,
            num_endpoints,
            sub_class,
            protocol,
            string_index,
        ));
    }
    r
}

pub open spec fn spec_boot_keyboard_report_descriptor() -> Seq<u8> {
    seq![
        0x05u8, 0x01u8, 0x09u8, 0x06u8, 0xA1u8, 0x01u8, 0x05u8, 0x07u8,
        0x19u8, 0xE0u8, 0x29u8, 0xE7u8, 0x15u8, 0x00u8, 0x25u8, 0x01u8,
        0x75u8, 0x01u8, 0x95u8, 0x08u8, 0x81u8, 0x02u8, 0x95u8, 0x01u8,
        0x75u8, 0x08u8, 0x81u8, 0x01u8, 0x95u8, 0x05u8, 0x75u8, 0x01u8,
        0x05u8, 0x08u8, 0x19u8, 0x01u8, 0x29u8, 0x05u8, 0x91u8, 0x02u8,
        0x95u8, 0x01u8, 0x75u8, 0x03u8, 0x91u8, 0x01u8, 0x95u8, 0x06u8,
        0x75u8, 0x08u8, 0x15u8, 0x00u8, 0x25u8, 0x65u8, 0x05u8, 0x07u8,
        0x19u8, 0x00u8, 0x29u8, 0x65u8, 0x81u8, 0x00u8, 0xC0u8,
    ]
}

/// The boot-protocol keyboard report descriptor: an 8-bit modifier bitmap,
/// a reserved byte, five LED output bits with padding, and six key slots.
pub fn boot_keyboard_report_descriptor() -> (r: Vec<u8>)
    ensures
        r@ == spec_boot_keyboard_report_descriptor(),
        r@.len() == 63,
{
    let mut r: Vec<u8> = Vec::new();
    // Usage Page (Generic Desktop), Usage (Keyboard), Collection (Application)
    r.push(0x05);
    r.push(0x01);
    r.push(0x09);
    r.push(0x06);
    r.push(0xA1);
    r.push(0x01);
    // Modifiers: usages 0xE0..=0xE7, one bit each
    r.push(0x05);
    r.push(0x07);
    r.push(0x19);
    r.push(0xE0);
    r.push(0x29);
    r.push(0xE7);
    r.push(0x15);
    r.push(0x00);
    r.push(0x25);
    r.push(0x01);
    r.push(0x75);
    r.push(0x01);
    r.push(0x95);
    r.push(0x08);
    r.push(0x81);
    r.push(0x02);
    // Reserved byte
    r.push(0x95);
    r.push(0x01);
    r.push(0x75);
    r.push(0x08);
    r.push(0x81);
    r.push(0x01);
    // LED output report: five bits, then three bits of padding
    r.push(0x95);
    r.push(0x05);
    r.push(0x75);
    r.push(0x01);
    r.push(0x05);
    r.push(0x08);
    r.push(0x19);
    r.push(0x01);
    r.push(0x29);
    r.push(0x05);
    r.push(0x91);
    r.push(0x02);
    r.push(0x95);
    r.push(0x01);
    r.push(0x75);
    r.push(0x03);
    r.push(0x91);
    r.push(0x01);
    // Six key slots, array of usages 0..=101
    r.push(0x95);
    r.push(0x06);
    r.push(0x75);
    r.push(0x08);
    r.push(0x15);
    r.push(0x00);
    r.push(0x25);
    r.push(0x65);
    r.push(0x05);
    r.push(0x07);
    r.push(0x19);
    r.push(0x00);
    r.push(0x29);
    r.push(0x65);
    r.push(0x81);
    r.push(0x00);
    // End Collection
    r.push(0xC0);
    proof {
        assert(r@ =~= spec_boot_keyboard_report_descriptor());
    }
    r
}

pub open spec fn spec_nkro_keyboard_report_descriptor() -> Seq<u8> {
    seq![
        0x05u8, 0x01u8, 0x09u8, 0x06u8, 0xA1u8, 0x01u8, 0x05u8, 0x07u8,
        0x19u8, 0xE0u8, 0x29u8, 0xE7u8, 0x15u8, 0x00u8, 0x25u8, 0x01u8,
        0x75u8, 0x01u8, 0x95u8, 0x08u8, 0x81u8, 0x02u8, 0x05u8, 0x08u8,
        0x19u8, 0x01u8, 0x29u8, 0x05u8, 0x95u8, 0x05u8, 0x75u8, 0x01u8,
        0x91u8, 0x02u8, 0x95u8, 0x01u8, 0x75u8, 0x03u8, 0x91u8, 0x01u8,
        0x05u8, 0x07u8, 0x19u8, 0x00u8, 0x29u8, 0xDFu8, 0x15u8, 0x00u8,
        0x25u8, 0x01u8, 0x75u8, 0x01u8, 0x95u8, 0xE0u8, 0x81u8, 0x02u8,
        0xC0u8,
    ]
}

/// The NKRO keyboard report descriptor: the boot modifier byte, the LED
/// output report, then a 224-bit bitmap over usages 0x00..=0xDF.
pub fn nkro_keyboard_report_descriptor() -> (r: Vec<u8>)
    ensures
        r@ == spec_nkro_keyboard_report_descriptor(),
        r@.len() == 57,
{
    let mut r: Vec<u8> = Vec::new();
    // Usage Page (Generic Desktop), Usage (Keyboard), Collection (Application)
    r.push(0x05);
    r.push(0x01);
    r.push(0x09);
    r.push(0x06);
    r.push(0xA1);
    r.push(0x01);
    // Modifiers: usages 0xE0..=0xE7, one bit each
    r.push(0x05);
    r.push(0x07);
    r.push(0x19);
    r.push(0xE0);
    r.push(0x29);
    r.push(0xE7);
    r.push(0x15);
    r.push(0x00);
    r.push(0x25);
    r.push(0x01);
    r.push(0x75);
    r.push(0x01);
    r.push(0x95);
    r.push(0x08);
    r.push(0x81);
    r.push(0x02);
    // LED output report: five bits, then three bits of padding
    r.push(0x05);
    r.push(0x08);
    r.push(0x19);
    r.push(0x01);
    r.push(0x29);
    r.push(0x05);
    r.push(0x95);
    r.push(0x05);
    r.push(0x75);
    r.push(0x01);
    r.push(0x91);
    r.push(0x02);
    r.push(0x95);
    r.push(0x01);
    r.push(0x75);
    r.push(0x03);
    r.push(0x91);
    r.push(0x01);
    // Key bitmap: usages 0x00..=0xDF, one bit per usage
    r.push(0x05);
    r.push(0x07);
    r.push(0x19);
    r.push(0x00);
    r.push(0x29);
    r.push(0xDF);
    r.push(0x15);
    r.push(0x00);
    r.push(0x25);
    r.push(0x01);
    r.push(0x75);
    r.push(0x01);
    r.push(0x95);
    r.push(0xE0);
    r.push(0x81);
    r.push(0x02);
    // End Collection
    r.push(0xC0);
    proof {
        assert(r@ =~= spec_nkro_keyboard_report_descriptor());
    }
    r
}

pub open spec fn spec_boot_mouse_report_descriptor() -> Seq<u8> {
    seq![
        0x05u8, 0x01u8, 0x09u8, 0x02u8, 0xA1u8, 0x01u8, 0x09u8, 0x01u8,
        0xA1u8, 0x00u8, 0x05u8, 0x09u8, 0x19u8, 0x01u8, 0x29u8, 0x03u8,
        0x15u8, 0x00u8, 0x25u8, 0x01u8, 0x95u8, 0x03u8, 0x75u8, 0x01u8,
        0x81u8, 0x02u8, 0x95u8, 0x01u8, 0x75u8, 0x05u8, 0x81u8, 0x01u8,
        0x05u8, 0x01u8, 0x09u8, 0x30u8, 0x09u8, 0x31u8, 0x15u8, 0x81u8,
        0x25u8, 0x7Fu8, 0x75u8, 0x08u8, 0x95u8, 0x02u8, 0x81u8, 0x06u8,
        0xC0u8, 0xC0u8,
    ]
}

/// The boot-protocol mouse report descriptor: three button bits with
/// padding, then X and Y as signed bytes.
pub fn boot_mouse_report_descriptor() -> (r: Vec<u8>)
    ensures
        r@ == spec_boot_mouse_report_descriptor(),
        r@.len() == 50,
{
    let mut r: Vec<u8> = Vec::new();
    // Usage Page (Generic Desktop), Usage (Mouse), Collection (Application)
    r.push(0x05);
    r.push(0x01);
    r.push(0x09);
    r.push(0x02);
    r.push(0xA1);
    r.push(0x01);
    // Usage (Pointer), Collection (Physical)
    r.push(0x09);
    r.push(0x01);
    r.push(0xA1);
    r.push(0x00);
    // Buttons 1..=3, one bit each, then five bits of padding
    r.push(0x05);
    r.push(0x09);
    r.push(0x19);
    r.push(0x01);
    r.push(0x29);
    r.push(0x03);
    r.push(0x15);
    r.push(0x00);
    r.push(0x25);
    r.push(0x01);
    r.push(0x95);
    r.push(0x03);
    r.push(0x75);
    r.push(0x01);
    r.push(0x81);
    r.push(0x02);
    r.push(0x95);
    r.push(0x01);
    r.push(0x75);
    r.push(0x05);
    r.push(0x81);
    r.push(0x01);
    // X and Y: signed relative bytes
    r.push(0x05);
    r.push(0x01);
    r.push(0x09);
    r.push(0x30);
    r.push(0x09);
    r.push(0x31);
    r.push(0x15);
    r.push(0x81);
    r.push(0x25);
    r.push(0x7F);
    r.push(0x75);
    r.push(0x08);
    r.push(0x95);
    r.push(0x02);
    r.push(0x81);
    r.push(0x06);
    // End both collections
    r.push(0xC0);
    r.push(0xC0);
    proof {
        assert(r@ =~= spec_boot_mouse_report_descriptor());
    }
    r
}

pub open spec fn spec_consumer_report_descriptor() -> Seq<u8> {
    seq![
        0x05u8, 0x0Cu8, 0x09u8, 0x01u8, 0xA1u8, 0x01u8, 0x15u8, 0x00u8,
        0x26u8, 0x9Cu8, 0x02u8, 0x19u8, 0x00u8, 0x2Au8, 0x9Cu8, 0x02u8,
        0x75u8, 0x10u8, 0x95u8, 0x04u8, 0x81u8, 0x00u8, 0xC0u8,
    ]
}

/// The consumer-control report descriptor: an array of four 16-bit usages.
pub fn consumer_report_descriptor() -> (r: Vec<u8>)
    ensures
        r@ == spec_consumer_report_descriptor(),
        r@.len() == 23,
{
    let mut r: Vec<u8> = Vec::new();
    // Usage Page (Consumer), Usage (Consumer Control), Collection (Application)
    r.push(0x05);
    r.push(0x0C);
    r.push(0x09);
    r.push(0x01);
    r.push(0xA1);
    r.push(0x01);
    // Four 16-bit array slots over usages 0..=0x029C
    r.push(0x15);
    r.push(0x00);
    r.push(0x26);
    r.push(0x9C);
    r.push(0x02);
    r.push(0x19);
    r.push(0x00);
    r.push(0x2A);
    r.push(0x9C);
    r.push(0x02);
    r.push(0x75);
    r.push(0x10);
    r.push(0x95);
    r.push(0x04);
    r.push(0x81);
    r.push(0x00);
    // End Collection
    r.push(0xC0);
    proof {
        assert(r@ =~= spec_consumer_report_descriptor());
    }
    r
}

} // verus!
