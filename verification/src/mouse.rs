//! Mouse report builders: the 3-byte boot-compatible report and the 5-byte
//! variant with wheel and pan.
//!
//! Deltas carry applied-once semantics: the application passes the movement
//! since the last call, and the builder does not accumulate.

use vstd::prelude::*;

use crate::descriptor::{boot_mouse_report_descriptor, spec_boot_mouse_report_descriptor};
use crate::interface::{HidProtocol, InterfaceConfig};

verus! {

/// The default build-time config of the boot mouse: the boot report
/// descriptor, a 10 ms IN poll, no OUT endpoint, no idle resend, and Report
/// mode until the host asks for Boot.
pub fn boot_mouse_config() -> (r: InterfaceConfig)
    ensures
        r.report_descriptor@ == spec_boot_mouse_report_descriptor(),
        r.in_poll_interval_ms == 10,
        r.out_endpoint is None,
        r.idle_default_4ms == 0,
        r.protocol_default is Report,
        r.wf(),
{
    InterfaceConfig {
        report_descriptor: boot_mouse_report_descriptor(),
        in_poll_interval_ms: 10,
        out_endpoint: None,
        idle_default_4ms: 0,
        protocol_default: HidProtocol::Report,
    }
}

/// A boot-compatible mouse state: button bitmap (bit 0 = left), then the
/// movement since the last report.
#[derive(Clone, Copy, PartialEq, Eq, Structural, Debug)]
pub struct BootMouseReport {
    pub buttons: u8,
    pub x: i8,
    pub y: i8,
}

/// A mouse state with wheel and horizontal pan deltas.
#[derive(Clone, Copy, PartialEq, Eq, Structural, Debug)]
pub struct WheelMouseReport {
    pub buttons: u8,
    pub x: i8,
    pub y: i8,
    pub wheel: i8,
    pub pan: i8,
}

/// The 3-byte boot mouse wire report.
pub open spec fn spec_boot_mouse_report(r: BootMouseReport) -> Seq<u8> {
    seq![r.buttons, r.x as u8, r.y as u8]
}

/// The 5-byte wheel mouse wire report.
pub open spec fn spec_wheel_mouse_report(r: WheelMouseReport) -> Seq<u8> {
    seq![r.buttons, r.x as u8, r.y as u8, r.wheel as u8, r.pan as u8]
}

/// Packs a boot mouse report: buttons, then dx and dy as signed 8-bit.
pub fn build_boot_mouse_report(r: &BootMouseReport) -> (out: Vec<u8>)
    ensures
        out@ == spec_boot_mouse_report(*r),
        out@.len() == 3,
{
    let mut out: Vec<u8> = Vec::new();
    out.push(r.buttons);
    out.push(r.x as u8);
    out.push(r.y as u8);
    proof {
        assert(out@ =~= spec_boot_mouse_report(*r));
    }
    out
}

/// Packs a wheel mouse report: buttons, dx, dy, wheel, pan.
pub fn build_wheel_mouse_report(r: &WheelMouseReport) -> (out: Vec<u8>)
    ensures
        out@ == spec_wheel_mouse_report(*r),
        out@.len() == 5,
{
    let mut out: Vec<u8> = Vec::new();
    out.push(r.buttons);
    out.push(r.x as u8);
    out.push(r.y as u8);
    out.push(r.wheel as u8);
    out.push(r.pan as u8);
    proof {
        assert(out@ =~= spec_wheel_mouse_report(*r));
    }
    out
}

} // verus!
