//! Keyboard report builders: the 29-byte NKRO bitmap report, the 8-byte boot
//! protocol report with its six key slots, and the LED output report.
//!
//! Both builders take the currently pressed keys as a vector of keyboard
//! usage codes; order is irrelevant and duplicates are permitted. Modifier
//! usages (`0xE0..=0xE7`) set bits of the shared modifier byte and never a
//! bitmap bit or a slot; usages above `0xE7` are ignored; `0x00` (no event)
//! contributes nothing.

use vstd::prelude::*;

use crate::bits::get_bit;
use crate::descriptor::{nkro_keyboard_report_descriptor, spec_nkro_keyboard_report_descriptor};
use crate::interface::{HidProtocol, InterfaceConfig, OutEndpointConfig};
use crate::page::{is_key_usage, is_modifier_usage, usage_is_key};

verus! {

/// One where the bit is set, zero where it is clear.
pub open spec fn bit1(p: bool) -> u8 {
    if p {
        1
    } else {
        0
    }
}

/// The modifier byte shared by both report layouts: bit `i` reports usage
/// `0xE0 + i`, LeftControl through RightGUI.
pub open spec fn spec_modifier_byte(keys: Seq<u8>) -> u8 {
    (bit1(keys.contains(0xE0u8)) + 2 * bit1(keys.contains(0xE1u8)) + 4 * bit1(
        keys.contains(0xE2u8),
    ) + 8 * bit1(keys.contains(0xE3u8)) + 16 * bit1(keys.contains(0xE4u8)) + 32 * bit1(
        keys.contains(0xE5u8),
    ) + 64 * bit1(keys.contains(0xE6u8)) + 128 * bit1(keys.contains(0xE7u8))) as u8
}

/// Whether usage `u` sets its bit in the NKRO bitmap: it must be a key usage
/// (non-zero, below the modifier range) and pressed.
pub open spec fn nkro_bit(keys: Seq<u8>, u: int) -> bool {
    0 <= u <= 0xFF && is_key_usage(u as u8) && keys.contains(u as u8)
}

/// Byte `j` (for `1 <= j < 29`) of the NKRO report: bit `i` reports usage
/// `(j - 1) * 8 + i`.
pub open spec fn spec_nkro_key_byte(keys: Seq<u8>, j: int) -> u8 {
    (bit1(nkro_bit(keys, (j - 1) * 8)) + 2 * bit1(nkro_bit(keys, (j - 1) * 8 + 1)) + 4 * bit1(
        nkro_bit(keys, (j - 1) * 8 + 2),
    ) + 8 * bit1(nkro_bit(keys, (j - 1) * 8 + 3)) + 16 * bit1(nkro_bit(keys, (j - 1) * 8 + 4)) + 32
        * bit1(nkro_bit(keys, (j - 1) * 8 + 5)) + 64 * bit1(nkro_bit(keys, (j - 1) * 8 + 6)) + 128
        * bit1(nkro_bit(keys, (j - 1) * 8 + 7))) as u8
}

/// The 29-byte NKRO wire report: the modifier byte, then a bitmap over
/// usages `0x00..=0xDF`, one bit per usage, pressed = 1.
pub open spec fn spec_nkro_report(keys: Seq<u8>) -> Seq<u8> {
    Seq::new(
        29,
        |j: int|
            if j == 0 {
                spec_modifier_byte(keys)
            } else {
                spec_nkro_key_byte(keys, j)
            },
    )
}

/// Distinct pressed key usages below `n`.
pub open spec fn spec_boot_count(keys: Seq<u8>, n: int) -> int
    decreases n,
{
    if n <= 1 {
        0
    } else {
        spec_boot_count(keys, n - 1) + (if keys.contains((n - 1) as u8) {
            1int
        } else {
            0int
        })
    }
}

/// The pressed key usages below `n`, in ascending order, each once.
pub open spec fn spec_boot_slots(keys: Seq<u8>, n: int) -> Seq<u8>
    decreases n,
{
    if n <= 1 {
        Seq::empty()
    } else {
        spec_boot_slots(keys, n - 1) + (if keys.contains((n - 1) as u8) {
            seq![(n - 1) as u8]
        } else {
            Seq::<u8>::empty()
        })
    }
}

/// How many distinct key usages are pressed, after de-duplication and with
/// modifiers left aside.
pub open spec fn boot_key_count(keys: Seq<u8>) -> int {
    spec_boot_count(keys, 0xE0)
}

/// The six slot bytes of the boot report: the distinct pressed keys in
/// ascending order padded with zeroes, or six ErrorRollOver bytes when more
/// than six keys are pressed.
pub open spec fn spec_boot_slot_bytes(keys: Seq<u8>) -> Seq<u8> {
    if boot_key_count(keys) > 6 {
        Seq::new(6, |i: int| 0x01u8)
    } else {
        spec_boot_slots(keys, 0xE0) + Seq::new((6 - boot_key_count(keys)) as nat, |i: int| 0x00u8)
    }
}

/// The 8-byte boot wire report: modifier byte, reserved zero byte, six slots.
pub open spec fn spec_boot_report(keys: Seq<u8>) -> Seq<u8> {
    seq![spec_modifier_byte(keys), 0u8] + spec_boot_slot_bytes(keys)
}

/// There are as many slot entries as distinct pressed keys, and the count
/// is never negative.
pub proof fn lemma_boot_slots_len(keys: Seq<u8>, n: int)
    ensures
        spec_boot_slots(keys, n).len() == spec_boot_count(keys, n),
        spec_boot_count(keys, n) >= 0,
    decreases n,
{
    if n > 1 {
        lemma_boot_slots_len(keys, n - 1);
    }
}

/// Law (de-duplication): the slot sequence holds exactly the pressed key
/// usages below `n`, each exactly once, in strictly ascending order. So the
/// boot report never repeats a key, however often it appears in the input.
pub proof fn lemma_boot_slots_sound(keys: Seq<u8>, n: int)
    requires
        n <= 0xE0,
    ensures
        forall|u: u8| #[trigger]
            spec_boot_slots(keys, n).contains(u) <==> (1 <= u < n && keys.contains(u)),
        forall|i: int, j: int|
            0 <= i < j < spec_boot_slots(keys, n).len() ==> spec_boot_slots(keys, n)[i]
                < spec_boot_slots(keys, n)[j],
    decreases n,
{
    broadcast use vstd::seq_lib::lemma_seq_concat_contains_all_elements;
    broadcast use vstd::seq_lib::lemma_seq_empty_contains_nothing;

    if n > 1 {
        lemma_boot_slots_sound(keys, n - 1);
        let prev = spec_boot_slots(keys, n - 1);
        if keys.contains((n - 1) as u8) {
            let appended = seq![(n - 1) as u8];
            assert(appended.contains((n - 1) as u8)) by {
                assert(appended[0] == (n - 1) as u8);
            }
            assert forall|u: u8| #[trigger]
                appended.contains(u) implies u == (n - 1) as u8 by {
                let t = choose|t: int| 0 <= t < appended.len() && appended[t] == u;
                assert(t == 0);
            }
            assert forall|i: int, j: int|
                0 <= i < j < spec_boot_slots(keys, n).len() implies spec_boot_slots(keys, n)[i]
                < spec_boot_slots(keys, n)[j] by {
                if j < prev.len() {
                } else {
                    assert(spec_boot_slots(keys, n)[j] == (n - 1) as u8);
                    assert(prev.contains(prev[i]));
                }
            }
        }
    } else {
        assert forall|u: u8| #[trigger]
            spec_boot_slots(keys, n).contains(u) implies (1 <= u < n && keys.contains(u)) by {
            assert(spec_boot_slots(keys, n).len() == 0);
        }
    }
}

/// Scans the pressed keys for usage `u`.
pub fn keys_contain(keys: &Vec<u8>, u: u8) -> (r: bool)
    ensures
        r == keys@.contains(u),
{
    let mut n: usize = 0;
    while n < keys.len()
        invariant
            n <= keys@.len(),
            forall|t: int| 0 <= t < n ==> keys@[t] != u,
        decreases keys@.len() - n,
    {
        if keys[n] == u {
            assert(keys@.contains(u)) by {
                assert(keys@[n as int] == u);
            }
            return true;
        }
        n += 1;
    }
    assert(!keys@.contains(u));
    false
}

/// Whether `u` is a pressed key usage, as the NKRO bitmap counts it.
fn key_pressed(keys: &Vec<u8>, u: u8) -> (r: bool)
    ensures
        r == nkro_bit(keys@, u as int),
{
    if usage_is_key(u) {
        keys_contain(keys, u)
    } else {
        false
    }
}

/// Builds the modifier byte from the pressed keys.
pub fn modifier_byte(keys: &Vec<u8>) -> (r: u8)
    ensures
        r == spec_modifier_byte(keys@),
{
    let mut b: u8 = 0;
    if keys_contain(keys, 0xE0) {
        b += 1;
    }
    if keys_contain(keys, 0xE1) {
        b += 2;
    }
    if keys_contain(keys, 0xE2) {
        b += 4;
    }
    if keys_contain(keys, 0xE3) {
        b += 8;
    }
    if keys_contain(keys, 0xE4) {
        b += 16;
    }
    if keys_contain(keys, 0xE5) {
        b += 32;
    }
    if keys_contain(keys, 0xE6) {
        b += 64;
    }
    if keys_contain(keys, 0xE7) {
        b += 128;
    }
    b
}

/// Builds byte `j` of the NKRO report.
fn nkro_key_byte(keys: &Vec<u8>, j: usize) -> (r: u8)
    requires
        1 <= j < 29,
    ensures
        r == spec_nkro_key_byte(keys@, j as int),
{
    let base: u8 = ((j - 1) * 8) as u8;
    let mut b: u8 = 0;
    if key_pressed(keys, base) {
        b += 1;
    }
    if key_pressed(keys, base + 1) {
        b += 2;
    }
    if key_pressed(keys, base + 2) {
        b += 4;
    }
    if key_pressed(keys, base + 3) {
        b += 8;
    }
    if key_pressed(keys, base + 4) {
        b += 16;
    }
    if key_pressed(keys, base + 5) {
        b += 32;
    }
    if key_pressed(keys, base + 6) {
        b += 64;
    }
    if key_pressed(keys, base + 7) {
        b += 128;
    }
    b
}

/// Builds the 29-byte NKRO report from the pressed keys.
pub fn build_nkro_report(keys: &Vec<u8>) -> (r: Vec<u8>)
    ensures
        r@ == spec_nkro_report(keys@),
        r@.len() == 29,
{
    let mut r: Vec<u8> = Vec::new();
    r.push(modifier_byte(keys));
    let mut j: usize = 1;
    while j < 29
        invariant
            1 <= j <= 29,
            r@.len() == j,
            r@[0] == spec_modifier_byte(keys@),
            forall|t: int| 1 <= t < j ==> r@[t] == spec_nkro_key_byte(keys@, t),
        decreases 29 - j,
    {
        let b = nkro_key_byte(keys, j);
        r.push(b);
        j += 1;
    }
    proof {
        assert(r@ =~= spec_nkro_report(keys@));
    }
    r
}

/// Builds the 8-byte boot protocol report from the pressed keys.
pub fn build_boot_report(keys: &Vec<u8>) -> (r: Vec<u8>)
    ensures
        r@ == spec_boot_report(keys@),
        r@.len() == 8,
{
    let mut slots: Vec<u8> = Vec::new();
    let mut count: usize = 0;
    let mut u: usize = 1;
    while u < 0xE0
        invariant
            1 <= u <= 0xE0,
            count <= u,
            count == spec_boot_count(keys@, u as int),
            count <= 6 ==> slots@ == spec_boot_slots(keys@, u as int),
            slots@.len() == if count <= 6 {
                count as int
            } else {
                6int
            },
        decreases 0xE0 - u,
    {
        if keys_contain(keys, u as u8) {
            if slots.len() < 6 {
                slots.push(u as u8);
            }
            count += 1;
        }
        u += 1;
    }
    let modifiers = modifier_byte(keys);
    let mut r: Vec<u8> = Vec::new();
    r.push(modifiers);
    r.push(0);
    if count > 6 {
        let mut p: usize = 0;
        while p < 6
            invariant
                p <= 6,
                r@.len() == 2 + p,
                r@[0] == spec_modifier_byte(keys@),
                r@[1] == 0u8,
                forall|t: int| 2 <= t < r@.len() ==> r@[t] == 0x01u8,
            decreases 6 - p,
        {
            r.push(0x01);
            p += 1;
        }
        proof {
            assert(r@ =~= spec_boot_report(keys@));
        }
    } else {
        let mut t: usize = 0;
        while t < slots.len()
            invariant
                t <= slots@.len(),
                r@.len() == 2 + t,
                r@[0] == spec_modifier_byte(keys@),
                r@[1] == 0u8,
                forall|k: int| 0 <= k < t ==> r@[2 + k] == slots@[k],
            decreases slots@.len() - t,
        {
            let s = slots[t];
            r.push(s);
            t += 1;
        }
        let mut p: usize = slots.len();
        while p < 6
            invariant
                slots@.len() <= p <= 6,
                r@.len() == 2 + p,
                r@[0] == spec_modifier_byte(keys@),
                r@[1] == 0u8,
                forall|k: int| 0 <= k < slots@.len() ==> r@[2 + k] == slots@[k],
                forall|k: int| slots@.len() <= k < p ==> #[trigger] r@[2 + k] == 0u8,
            decreases 6 - p,
        {
            r.push(0);
            p += 1;
        }
        proof {
            lemma_boot_slots_len(keys@, 0xE0);
            assert forall|j: int| 0 <= j < 8 implies r@[j] == spec_boot_report(keys@)[j] by {
                if j >= 2 {
                    let k = j - 2;
                    if k < slots@.len() {
                        assert(r@[2 + k] == slots@[k]);
                    } else {
                        assert(r@[2 + k] == 0u8);
                    }
                }
            }
            assert(r@ =~= spec_boot_report(keys@));
        }
    }
    r
}

/// The default build-time config of the NKRO boot keyboard: the NKRO report
/// descriptor, a 1 ms IN poll, an 8-byte OUT endpoint for the LED report
/// polled every 10 ms, no idle resend, and Report mode until the host asks
/// for Boot.
pub fn nkro_keyboard_config() -> (r: InterfaceConfig)
    ensures
        r.report_descriptor@ == spec_nkro_keyboard_report_descriptor(),
        r.in_poll_interval_ms == 1,
        r.out_endpoint matches Some(o) && o.poll_interval_ms == 10 && o.max_packet_size == 8,
        r.idle_default_4ms == 0,
        r.protocol_default is Report,
        r.wf(),
{
    InterfaceConfig {
        report_descriptor: nkro_keyboard_report_descriptor(),
        in_poll_interval_ms: 1,
        out_endpoint: Some(OutEndpointConfig { poll_interval_ms: 10, max_packet_size: 8 }),
        idle_default_4ms: 0,
        protocol_default: HidProtocol::Report,
    }
}

/// The wire report the given protocol mode calls for.
pub open spec fn spec_keyboard_report(keys: Seq<u8>, protocol: HidProtocol) -> Seq<u8> {
    if protocol is Boot {
        spec_boot_report(keys)
    } else {
        spec_nkro_report(keys)
    }
}

/// Builds the report the current protocol selects: the boot layout in Boot
/// mode, the NKRO layout in Report mode.
pub fn build_keyboard_report(keys: &Vec<u8>, protocol: HidProtocol) -> (r: Vec<u8>)
    ensures
        r@ == spec_keyboard_report(keys@, protocol),
{
    match protocol {
        HidProtocol::Boot => build_boot_report(keys),
        HidProtocol::Report => build_nkro_report(keys),
    }
}

/// Law: the modifier byte depends only on which modifier usages are pressed,
/// so flipping any non-modifier usage never changes it, in either layout.
pub proof fn lemma_modifier_separation(keys1: Seq<u8>, keys2: Seq<u8>)
    requires
        forall|u: u8| is_modifier_usage(u) ==> #[trigger] keys1.contains(u) == keys2.contains(u),
    ensures
        spec_modifier_byte(keys1) == spec_modifier_byte(keys2),
        spec_nkro_report(keys1)[0] == spec_nkro_report(keys2)[0],
        spec_boot_report(keys1)[0] == spec_boot_report(keys2)[0],
{
    assert(keys1.contains(0xE0u8) == keys2.contains(0xE0u8) && keys1.contains(0xE1u8)
        == keys2.contains(0xE1u8) && keys1.contains(0xE2u8) == keys2.contains(0xE2u8)
        && keys1.contains(0xE3u8) == keys2.contains(0xE3u8) && keys1.contains(0xE4u8)
        == keys2.contains(0xE4u8) && keys1.contains(0xE5u8) == keys2.contains(0xE5u8)
        && keys1.contains(0xE6u8) == keys2.contains(0xE6u8) && keys1.contains(0xE7u8)
        == keys2.contains(0xE7u8));
}

/// The slot sequence depends only on which key usages are pressed.
proof fn lemma_boot_slots_same_keys(keys1: Seq<u8>, keys2: Seq<u8>, n: int)
    requires
        n <= 0xE0,
        forall|u: u8| is_key_usage(u) ==> #[trigger] keys1.contains(u) == keys2.contains(u),
    ensures
        spec_boot_count(keys1, n) == spec_boot_count(keys2, n),
        spec_boot_slots(keys1, n) == spec_boot_slots(keys2, n),
    decreases n,
{
    if n > 1 {
        lemma_boot_slots_same_keys(keys1, keys2, n - 1);
        assert(is_key_usage((n - 1) as u8));
    }
}

/// Law: the bitmap bytes and the boot slots depend only on which key usages
/// are pressed, so flipping any modifier usage never changes them.
pub proof fn lemma_key_separation(keys1: Seq<u8>, keys2: Seq<u8>)
    requires
        forall|u: u8| is_key_usage(u) ==> #[trigger] keys1.contains(u) == keys2.contains(u),
    ensures
        forall|j: int|
            1 <= j < 29 ==> #[trigger] spec_nkro_report(keys1)[j] == spec_nkro_report(keys2)[j],
        spec_boot_slot_bytes(keys1) == spec_boot_slot_bytes(keys2),
        forall|j: int|
            1 <= j < 8 ==> #[trigger] spec_boot_report(keys1)[j] == spec_boot_report(keys2)[j],
{
    assert forall|u: int| 0 <= u <= 0xFF implies nkro_bit(keys1, u) == nkro_bit(keys2, u) by {
        if is_key_usage(u as u8) {
            assert(keys1.contains(u as u8) == keys2.contains(u as u8));
        }
    }
    assert forall|j: int| 1 <= j < 29 implies #[trigger] spec_nkro_report(keys1)[j]
        == spec_nkro_report(keys2)[j] by {
        assert(nkro_bit(keys1, (j - 1) * 8) == nkro_bit(keys2, (j - 1) * 8) && nkro_bit(
            keys1,
            (j - 1) * 8 + 1,
        ) == nkro_bit(keys2, (j - 1) * 8 + 1) && nkro_bit(keys1, (j - 1) * 8 + 2) == nkro_bit(
            keys2,
            (j - 1) * 8 + 2,
        ) && nkro_bit(keys1, (j - 1) * 8 + 3) == nkro_bit(keys2, (j - 1) * 8 + 3) && nkro_bit(
            keys1,
            (j - 1) * 8 + 4,
        ) == nkro_bit(keys2, (j - 1) * 8 + 4) && nkro_bit(keys1, (j - 1) * 8 + 5) == nkro_bit(
            keys2,
            (j - 1) * 8 + 5,
        ) && nkro_bit(keys1, (j - 1) * 8 + 6) == nkro_bit(keys2, (j - 1) * 8 + 6) && nkro_bit(
            keys1,
            (j - 1) * 8 + 7,
        ) == nkro_bit(keys2, (j - 1) * 8 + 7));
    }
    lemma_boot_slots_same_keys(keys1, keys2, 0xE0);
    lemma_boot_slots_len(keys1, 0xE0);
    lemma_boot_slots_len(keys2, 0xE0);
    assert(spec_boot_slot_bytes(keys1) == spec_boot_slot_bytes(keys2));
    assert forall|j: int| 1 <= j < 8 implies #[trigger] spec_boot_report(keys1)[j]
        == spec_boot_report(keys2)[j] by {
        if j >= 2 {
            assert(spec_boot_slot_bytes(keys1).len() == 6 && spec_boot_slot_bytes(keys2).len()
                == 6);
            assert(spec_boot_report(keys1)[j] == spec_boot_slot_bytes(keys1)[j - 2]);
            assert(spec_boot_report(keys2)[j] == spec_boot_slot_bytes(keys2)[j - 2]);
        }
    }
}

/// Law (flip form): pressing one more non-modifier usage never changes the
/// modifier byte, and pressing one more modifier never changes a bitmap or
/// slot byte. Releasing is the same statement read right to left.
pub proof fn lemma_flip_separation(keys: Seq<u8>, u: u8)
    ensures
        !is_modifier_usage(u) ==> spec_modifier_byte(keys.push(u)) == spec_modifier_byte(keys),
        is_modifier_usage(u) ==> (forall|j: int|
            1 <= j < 29 ==> #[trigger] spec_nkro_report(keys.push(u))[j] == spec_nkro_report(
                keys,
            )[j]) && spec_boot_slot_bytes(keys.push(u)) == spec_boot_slot_bytes(keys),
{
    broadcast use vstd::seq_lib::lemma_seq_contains_after_push;

    if !is_modifier_usage(u) {
        assert forall|m: u8| is_modifier_usage(m) implies #[trigger] keys.push(u).contains(m)
            == keys.contains(m) by {}
        lemma_modifier_separation(keys.push(u), keys);
    } else {
        assert forall|k: u8| is_key_usage(k) implies #[trigger] keys.push(u).contains(k)
            == keys.contains(k) by {}
        lemma_key_separation(keys.push(u), keys);
    }
}

/// Law: building a report is a function of the multiset of pressed usages
/// alone, so any permutation of the same keys yields the same bytes, in
/// either layout.
pub proof fn lemma_build_is_multiset_function(keys1: Seq<u8>, keys2: Seq<u8>)
    requires
        keys1.to_multiset() == keys2.to_multiset(),
    ensures
        spec_nkro_report(keys1) == spec_nkro_report(keys2),
        spec_boot_report(keys1) == spec_boot_report(keys2),
{
    broadcast use vstd::seq_lib::group_to_multiset_ensures;

    assert forall|u: u8| #[trigger] keys1.contains(u) == keys2.contains(u) by {
        assert(keys1.contains(u) <==> keys1.to_multiset().count(u) > 0);
        assert(keys2.contains(u) <==> keys2.to_multiset().count(u) > 0);
    }
    lemma_modifier_separation(keys1, keys2);
    lemma_key_separation(keys1, keys2);
    assert(spec_nkro_report(keys1) =~= spec_nkro_report(keys2));
    assert(spec_boot_report(keys1) =~= spec_boot_report(keys2));
}

/// Law: with more than six distinct keys pressed (modifiers aside), every
/// boot slot reports ErrorRollOver while the modifier byte stays faithful.
pub proof fn lemma_boot_overflow(keys: Seq<u8>)
    requires
        boot_key_count(keys) > 6,
    ensures
        forall|j: int| 2 <= j < 8 ==> #[trigger] spec_boot_report(keys)[j] == 0x01u8,
        spec_boot_report(keys)[0] == spec_modifier_byte(keys),
{
    assert forall|j: int| 2 <= j < 8 implies #[trigger] spec_boot_report(keys)[j] == 0x01u8 by {
        assert(spec_boot_slot_bytes(keys)[j - 2] == 0x01u8);
    }
}

/// The five keyboard LEDs carried by the one-byte output report.
#[derive(Clone, Copy, PartialEq, Eq, Structural, Debug)]
pub struct KeyboardLedsReport {
    pub num_lock: bool,
    pub caps_lock: bool,
    pub scroll_lock: bool,
    pub compose: bool,
    pub kana: bool,
}

/// The LEDs named by an output report byte: NumLock through Kana sit in the
/// low five bits, from bit 0 up.
pub open spec fn spec_leds(b: u8) -> KeyboardLedsReport {
    KeyboardLedsReport {
        num_lock: get_bit(b, 0),
        caps_lock: get_bit(b, 1),
        scroll_lock: get_bit(b, 2),
        compose: get_bit(b, 3),
        kana: get_bit(b, 4),
    }
}

/// Decodes a keyboard LED output report byte.
pub fn leds_from_byte(b: u8) -> (r: KeyboardLedsReport)
    ensures
        r == spec_leds(b),
{
    KeyboardLedsReport {
        num_lock: (b >> 0u8) & 1 == 1,
        caps_lock: (b >> 1u8) & 1 == 1,
        scroll_lock: (b >> 2u8) & 1 == 1,
        compose: (b >> 3u8) & 1 == 1,
        kana: (b >> 4u8) & 1 == 1,
    }
}

/// Law: the LEDs depend only on the low five bits of the report byte, so a
/// report byte `b` decodes exactly as `b & 0x1F` does.
pub proof fn lemma_leds_low_five_bits(b: u8)
    ensures
        spec_leds(b & 0x1F) == spec_leds(b),
{
    assert(get_bit(b & 0x1F, 0) == get_bit(b, 0) && get_bit(b & 0x1F, 1) == get_bit(b, 1) && get_bit(
        b & 0x1F,
        2,
    ) == get_bit(b, 2) && get_bit(b & 0x1F, 3) == get_bit(b, 3) && get_bit(b & 0x1F, 4) == get_bit(
        b,
        4,
    )) by (bit_vector);
}

} // verus!
