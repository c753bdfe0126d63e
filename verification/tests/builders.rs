use usbd_hid_core::consumer::{build_consumer_multi_report, build_consumer_single_report};
use usbd_hid_core::keyboard::{build_boot_report, build_nkro_report, leds_from_byte};
use usbd_hid_core::mouse::{
    build_boot_mouse_report, build_wheel_mouse_report, BootMouseReport, WheelMouseReport,
};
use usbd_hid_core::page;

#[test]
fn nkro_a_and_left_shift() {
    let keys: Vec<u8> = vec![page::KEYBOARD_A, page::KEYBOARD_LEFT_SHIFT];
    let r = build_nkro_report(&keys);
    assert_eq!(r.len(), 29);
    assert_eq!(r[0], 0b0000_0010);
    assert_eq!(r[1], 0x10); // bit 4 of byte 1 = usage 0x04
    for j in 2..29 {
        assert_eq!(r[j], 0x00);
    }
}

#[test]
fn nkro_empty_is_all_zero() {
    let keys: Vec<u8> = vec![];
    let r = build_nkro_report(&keys);
    assert_eq!(r, vec![0u8; 29]);
}

#[test]
fn nkro_ignores_no_event_and_out_of_range() {
    let keys: Vec<u8> = vec![0x00, 0xE8, 0xFF];
    let r = build_nkro_report(&keys);
    assert_eq!(r, vec![0u8; 29]);
}

#[test]
fn nkro_permutation_invariant() {
    let a: Vec<u8> = vec![page::KEYBOARD_A, page::KEYBOARD_LEFT_SHIFT, page::KEYBOARD_B];
    let b: Vec<u8> = vec![page::KEYBOARD_B, page::KEYBOARD_A, page::KEYBOARD_LEFT_SHIFT];
    assert_eq!(build_nkro_report(&a), build_nkro_report(&b));
    assert_eq!(build_boot_report(&a), build_boot_report(&b));
}

#[test]
fn nkro_duplicates_do_not_matter() {
    let a: Vec<u8> = vec![page::KEYBOARD_A, page::KEYBOARD_A, page::KEYBOARD_A];
    let b: Vec<u8> = vec![page::KEYBOARD_A];
    assert_eq!(build_nkro_report(&a), build_nkro_report(&b));
    assert_eq!(build_boot_report(&a), build_boot_report(&b));
}

#[test]
fn nkro_highest_bitmap_usage() {
    let keys: Vec<u8> = vec![page::NKRO_BITMAP_LAST_USAGE];
    let r = build_nkro_report(&keys);
    assert_eq!(r[28], 0x80); // usage 0xDF = bit 7 of the last bitmap byte
}

#[test]
fn modifier_flip_leaves_bitmap_alone() {
    let without: Vec<u8> = vec![page::KEYBOARD_A, page::KEYBOARD_B];
    let with: Vec<u8> = vec![page::KEYBOARD_A, page::KEYBOARD_B, page::KEYBOARD_RIGHT_ALT];
    let r0 = build_nkro_report(&without);
    let r1 = build_nkro_report(&with);
    assert_eq!(r0[1..], r1[1..]);
    assert_eq!(r0[0], 0x00);
    assert_eq!(r1[0], 0b0100_0000);
    let b0 = build_boot_report(&without);
    let b1 = build_boot_report(&with);
    assert_eq!(b0[1..], b1[1..]);
    assert_eq!(b1[0], 0b0100_0000);
}

#[test]
fn key_flip_leaves_modifier_byte_alone() {
    let without: Vec<u8> = vec![page::KEYBOARD_LEFT_CONTROL];
    let with: Vec<u8> = vec![page::KEYBOARD_LEFT_CONTROL, page::KEYBOARD_C];
    assert_eq!(build_nkro_report(&without)[0], build_nkro_report(&with)[0]);
    assert_eq!(build_boot_report(&without)[0], build_boot_report(&with)[0]);
}

#[test]
fn boot_seven_keys_roll_over() {
    let keys: Vec<u8> = vec![
        page::KEYBOARD_A,
        page::KEYBOARD_B,
        page::KEYBOARD_C,
        page::KEYBOARD_D,
        page::KEYBOARD_E,
        page::KEYBOARD_F,
        page::KEYBOARD_G,
    ];
    let r = build_boot_report(&keys);
    assert_eq!(r, vec![0x00, 0x00, 0x01, 0x01, 0x01, 0x01, 0x01, 0x01]);
}

#[test]
fn boot_overflow_keeps_modifiers_faithful() {
    let keys: Vec<u8> = vec![
        page::KEYBOARD_A,
        page::KEYBOARD_B,
        page::KEYBOARD_C,
        page::KEYBOARD_D,
        page::KEYBOARD_E,
        page::KEYBOARD_F,
        page::KEYBOARD_G,
        page::KEYBOARD_LEFT_CONTROL,
    ];
    let r = build_boot_report(&keys);
    assert_eq!(r, vec![0x01, 0x00, 0x01, 0x01, 0x01, 0x01, 0x01, 0x01]);
}

#[test]
fn boot_six_keys_fill_slots() {
    let keys: Vec<u8> = vec![
        page::KEYBOARD_F,
        page::KEYBOARD_E,
        page::KEYBOARD_D,
        page::KEYBOARD_C,
        page::KEYBOARD_B,
        page::KEYBOARD_A,
    ];
    let r = build_boot_report(&keys);
    assert_eq!(r, vec![0x00, 0x00, 0x04, 0x05, 0x06, 0x07, 0x08, 0x09]);
}

#[test]
fn boot_deduplicates_before_slot_assignment() {
    let keys: Vec<u8> = vec![page::KEYBOARD_A, page::KEYBOARD_A, page::KEYBOARD_B];
    let r = build_boot_report(&keys);
    assert_eq!(r, vec![0x00, 0x00, 0x04, 0x05, 0x00, 0x00, 0x00, 0x00]);
}

#[test]
fn boot_only_modifiers_leaves_slots_empty() {
    let keys: Vec<u8> = vec![page::KEYBOARD_LEFT_SHIFT, page::KEYBOARD_RIGHT_GUI];
    let r = build_boot_report(&keys);
    assert_eq!(r, vec![0b1000_0010, 0x00, 0x00, 0x00, 0x00, 0x00, 0x00, 0x00]);
}

#[test]
fn consumer_multi_three_codes() {
    let codes: Vec<u16> = vec![
        page::CONSUMER_PLAY_PAUSE,
        page::CONSUMER_MUTE,
        page::CONSUMER_VOLUME_INCREMENT,
    ];
    let r = build_consumer_multi_report(&codes);
    assert_eq!(r, vec![0xCD, 0x00, 0xE2, 0x00, 0xE9, 0x00, 0x00, 0x00]);
}

#[test]
fn consumer_multi_truncates_to_first_four() {
    let codes: Vec<u16> = vec![0x0001, 0x0002, 0x0003, 0x0004, 0x0005];
    let r = build_consumer_multi_report(&codes);
    assert_eq!(r, vec![0x01, 0x00, 0x02, 0x00, 0x03, 0x00, 0x04, 0x00]);
}

#[test]
fn consumer_single_little_endian() {
    assert_eq!(build_consumer_single_report(page::CONSUMER_PLAY_PAUSE), vec![0xCD, 0x00]);
    assert_eq!(build_consumer_single_report(0x029C), vec![0x9C, 0x02]);
    assert_eq!(build_consumer_single_report(page::CONSUMER_NO_CODE), vec![0x00, 0x00]);
}

#[test]
fn boot_mouse_packs_signed_deltas() {
    let r = BootMouseReport { buttons: 0b101, x: -1, y: 127 };
    assert_eq!(build_boot_mouse_report(&r), vec![0x05, 0xFF, 0x7F]);
}

#[test]
fn wheel_mouse_packs_all_deltas() {
    let r = WheelMouseReport { buttons: 0x01, x: -128, y: 2, wheel: -1, pan: 1 };
    assert_eq!(build_wheel_mouse_report(&r), vec![0x01, 0x80, 0x02, 0xFF, 0x01]);
}

#[test]
fn usage_classification() {
    assert!(page::usage_is_modifier(page::KEYBOARD_LEFT_CONTROL));
    assert!(page::usage_is_modifier(page::KEYBOARD_RIGHT_GUI));
    assert!(!page::usage_is_modifier(page::KEYBOARD_A));
    assert!(page::usage_is_key(page::KEYBOARD_A));
    assert!(page::usage_is_key(page::NKRO_BITMAP_LAST_USAGE));
    assert!(!page::usage_is_key(page::KEYBOARD_NO_EVENT));
    assert!(!page::usage_is_key(page::KEYBOARD_LEFT_CONTROL));
}

#[test]
fn leds_decode_low_five_bits() {
    let all = leds_from_byte(0x1F);
    assert!(all.num_lock && all.caps_lock && all.scroll_lock && all.compose && all.kana);
    let caps = leds_from_byte(0b0000_0010);
    assert!(!caps.num_lock && caps.caps_lock && !caps.scroll_lock && !caps.compose && !caps.kana);
    // Bits above the low five are ignored.
    assert_eq!(leds_from_byte(0xE5), leds_from_byte(0xE5 & 0x1F));
    assert_eq!(leds_from_byte(0xFF), leds_from_byte(0x1F));
}
