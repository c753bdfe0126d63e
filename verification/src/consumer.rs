//! Consumer-control report builders: a single 16-bit usage code, or a fixed
//! array of four concurrent codes, both little-endian on the wire.

use vstd::prelude::*;

use crate::descriptor::{consumer_report_descriptor, spec_consumer_report_descriptor};
use crate::interface::{HidProtocol, InterfaceConfig};

verus! {

/// The default build-time config of the consumer control device: the
/// four-slot report descriptor, a 50 ms IN poll, no OUT endpoint, no idle
/// resend, and no boot protocol.
pub fn consumer_config() -> (r: InterfaceConfig)
    ensures
        r.report_descriptor@ == spec_consumer_report_descriptor(),
        r.in_poll_interval_ms == 50,
        r.out_endpoint is None,
        r.idle_default_4ms == 0,
        r.protocol_default is Report,
        r.wf(),
{
    InterfaceConfig {
        report_descriptor: consumer_report_descriptor(),
        in_poll_interval_ms: 50,
        out_endpoint: None,
        idle_default_4ms: 0,
        protocol_default: HidProtocol::Report,
    }
}

/// The 2-byte single-code wire report: one 16-bit usage, little-endian.
pub open spec fn spec_consumer_single_report(code: u16) -> Seq<u8> {
    seq![(code & 0xFF) as u8, (code >> 8u16) as u8]
}

/// The code emitted in slot `i`: the `i`-th pressed code in application
/// iteration order, or `0x0000` (unassigned) past the end.
pub open spec fn spec_consumer_slot(codes: Seq<u16>, i: int) -> u16 {
    if 0 <= i < codes.len() {
        codes[i]
    } else {
        0
    }
}

/// The 8-byte multiple-code wire report: four 16-bit usages, little-endian,
/// padded with `0x0000` when fewer than four codes are pressed. When more
/// are pressed, the first four in iteration order are emitted.
pub open spec fn spec_consumer_multi_report(codes: Seq<u16>) -> Seq<u8> {
    Seq::new(
        8,
        |b: int|
            if b % 2 == 0 {
                (spec_consumer_slot(codes, b / 2) & 0xFF) as u8
            } else {
                (spec_consumer_slot(codes, b / 2) >> 8u16) as u8
            },
    )
}

/// Packs a single consumer usage code.
pub fn build_consumer_single_report(code: u16) -> (r: Vec<u8>)
    ensures
        r@ == spec_consumer_single_report(code),
        r@.len() == 2,
{
    let mut r: Vec<u8> = Vec::new();
    r.push((code & 0xFF) as u8);
    r.push((code >> 8u16) as u8);
    proof {
        assert(r@ =~= spec_consumer_single_report(code));
    }
    r
}

/// Packs up to four concurrent consumer usage codes.
pub fn build_consumer_multi_report(codes: &Vec<u16>) -> (r: Vec<u8>)
    ensures
        r@ == spec_consumer_multi_report(codes@),
        r@.len() == 8,
{
    let mut r: Vec<u8> = Vec::new();
    let mut i: usize = 0;
    while i < 4
        invariant
            i <= 4,
            r@.len() == 2 * i,
            forall|b: int|
                0 <= b < 2 * i ==> #[trigger] r@[b] == spec_consumer_multi_report(codes@)[b],
        decreases 4 - i,
    {
        let code: u16 = if i < codes.len() {
            codes[i]
        } else {
            0
        };
        r.push((code & 0xFF) as u8);
        r.push((code >> 8u16) as u8);
        i += 1;
    }
    proof {
        assert(r@ =~= spec_consumer_multi_report(codes@));
    }
    r
}

} // verus!
