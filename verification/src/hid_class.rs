//! The class core: it owns the interfaces in their build-time order, parses
//! HID class control requests from the setup packet fields, and routes each
//! request to the owning interface.
//!
//! The bus driver itself stays outside: the caller hands in the setup packet
//! fields and any OUT data, and performs whatever the returned
//! [`ControlResponse`] asks (answer with bytes, accept, or stall).

use vstd::prelude::*;

use crate::descriptor::{hid_descriptor, spec_hid_descriptor};
use crate::interface::{fresh_interface, HidInterface, HidProtocol, InterfaceConfig};

verus! {

/// A HID class or standard control request aimed at one interface, as
/// decoded from the setup packet.
#[derive(Clone, Copy, PartialEq, Eq, Structural, Debug)]
pub enum HidRequest {
    /// GET_REPORT: the host asks for the current report of this type.
    GetReport { report_type: u8, report_id: u8 },
    /// SET_REPORT: the host sends an output report in the data stage.
    SetReport { report_type: u8, report_id: u8 },
    /// GET_IDLE for one report ID (0 = all reports of the interface).
    GetIdle { report_id: u8 },
    /// SET_IDLE: rate in 4 ms units, 0 = never resend.
    SetIdle { rate_4ms: u8, report_id: u8 },
    /// GET_PROTOCOL: 0 = Boot, 1 = Report.
    GetProtocol,
    /// SET_PROTOCOL with the requested mode value.
    SetProtocol { value: u8 },
    /// GET_DESCRIPTOR for the interface's HID descriptor.
    GetDescriptorHid,
    /// GET_DESCRIPTOR for the interface's report descriptor.
    GetDescriptorReport,
    /// Anything else: the control pipe is stalled.
    Unknown,
}

/// How the setup packet fields decode: standard GET_DESCRIPTOR reads of the
/// interface-scoped HID and report descriptors, and the six HID class
/// requests; everything else is unknown.
pub open spec fn spec_parse_request(bm_request_type: u8, b_request: u8, w_value: u16) -> HidRequest {
    if bm_request_type == 0x81 && b_request == 0x06 {
        if (w_value >> 8u16) as u8 == 0x21 {
            HidRequest::GetDescriptorHid
        } else if (w_value >> 8u16) as u8 == 0x22 {
            HidRequest::GetDescriptorReport
        } else {
            HidRequest::Unknown
        }
    } else if bm_request_type == 0xA1 {
        if b_request == 0x01 {
            HidRequest::GetReport {
                report_type: (w_value >> 8u16) as u8,
                report_id: (w_value & 0xFF) as u8,
            }
        } else if b_request == 0x02 {
            HidRequest::GetIdle { report_id: (w_value & 0xFF) as u8 }
        } else if b_request == 0x03 {
            HidRequest::GetProtocol
        } else {
            HidRequest::Unknown
        }
    } else if bm_request_type == 0x21 {
        if b_request == 0x09 {
            HidRequest::SetReport {
                report_type: (w_value >> 8u16) as u8,
                report_id: (w_value & 0xFF) as u8,
            }
        } else if b_request == 0x0A {
            HidRequest::SetIdle {
                rate_4ms: (w_value >> 8u16) as u8,
                report_id: (w_value & 0xFF) as u8,
            }
        } else if b_request == 0x0B {
            HidRequest::SetProtocol { value: (w_value & 0xFF) as u8 }
        } else {
            HidRequest::Unknown
        }
    } else {
        HidRequest::Unknown
    }
}

/// Decodes the setup packet fields of an interface-recipient request.
pub fn parse_request(bm_request_type: u8, b_request: u8, w_value: u16) -> (r: HidRequest)
    ensures
        r == spec_parse_request(bm_request_type, b_request, w_value),
{
    if bm_request_type == 0x81 && b_request == 0x06 {
        let desc_type = (w_value >> 8u16) as u8;
        if desc_type == 0x21 {
            HidRequest::GetDescriptorHid
        } else if desc_type == 0x22 {
            HidRequest::GetDescriptorReport
        } else {
            HidRequest::Unknown
        }
    } else if bm_request_type == 0xA1 {
        if b_request == 0x01 {
            HidRequest::GetReport {
                report_type: (w_value >> 8u16) as u8,
                report_id: (w_value & 0xFF) as u8,
            }
        } else if b_request == 0x02 {
            HidRequest::GetIdle { report_id: (w_value & 0xFF) as u8 }
        } else if b_request == 0x03 {
            HidRequest::GetProtocol
        } else {
            HidRequest::Unknown
        }
    } else if bm_request_type == 0x21 {
        if b_request == 0x09 {
            HidRequest::SetReport {
                report_type: (w_value >> 8u16) as u8,
                report_id: (w_value & 0xFF) as u8,
            }
        } else if b_request == 0x0A {
            HidRequest::SetIdle {
                rate_4ms: (w_value >> 8u16) as u8,
                report_id: (w_value & 0xFF) as u8,
            }
        } else if b_request == 0x0B {
            HidRequest::SetProtocol { value: (w_value & 0xFF) as u8 }
        } else {
            HidRequest::Unknown
        }
    } else {
        HidRequest::Unknown
    }
}

/// What the caller owes the host for a control request.
#[derive(Debug)]
pub enum ControlResponse {
    /// Answer the data stage with these bytes.
    DataIn(Vec<u8>),
    /// Acknowledge with no data.
    Accepted,
    /// Stall the control pipe.
    Stalled,
    /// GET_REPORT: synthesize the current report of this type and ID from
    /// the application state and answer with it.
    ReportRequested(u8, u8),
}

/// Builds a class instance from the interface configs, in declaration
/// order.
pub struct UsbHidClassBuilder {
    pub configs: Vec<InterfaceConfig>,
}

/// The class instance: the interface runtimes, in the order declared at
/// build time, which is also the order of the interface numbers on the bus.
pub struct UsbHidClass {
    pub interfaces: Vec<HidInterface>,
}

impl UsbHidClassBuilder {
    /// An empty builder.
    pub fn new() -> (r: Self)
        ensures
            r.configs@.len() == 0,
    {
        UsbHidClassBuilder { configs: Vec::new() }
    }

    /// Appends one interface; its position is its interface number.
    pub fn add_interface(self, config: InterfaceConfig) -> (r: Self)
        ensures
            r.configs@ == self.configs@.push(config),
    {
        let mut configs = self.configs;
        configs.push(config);
        UsbHidClassBuilder { configs }
    }

    /// Builds the class: one fresh interface runtime per config, in order.
    pub fn build(self) -> (r: UsbHidClass)
        ensures
            r.interfaces@.len() == self.configs@.len(),
            forall|k: int|
                0 <= k < self.configs@.len() ==> fresh_interface(
                    #[trigger] r.interfaces@[k],
                    self.configs@[k],
                ),
    {
        let ghost all_configs = self.configs@;
        let mut configs = self.configs;
        let mut interfaces: Vec<HidInterface> = Vec::new();
        while configs.len() > 0
            invariant
                interfaces@.len() + configs@.len() == all_configs.len(),
                configs@ == all_configs.skip(interfaces@.len() as int),
                forall|k: int|
                    0 <= k < interfaces@.len() ==> fresh_interface(
                        #[trigger] interfaces@[k],
                        all_configs[k],
                    ),
            decreases configs@.len(),
        {
            let config = configs.remove(0);
            proof {
                assert(config == all_configs[interfaces@.len() as int]);
                assert(configs@ =~= all_configs.skip(interfaces@.len() as int + 1));
            }
            let iface = HidInterface::new(config);
            interfaces.push(iface);
        }
        UsbHidClass { interfaces }
    }
}

impl UsbHidClass {
    /// How many interfaces the class owns.
    pub fn num_interfaces(&self) -> (r: usize)
        ensures
            r == self.interfaces@.len(),
    {
        self.interfaces.len()
    }

    /// The HID descriptor of interface `i`, announcing its report
    /// descriptor's length.
    pub fn hid_descriptor_for(&self, i: usize) -> (r: Vec<u8>)
        requires
            i < self.interfaces@.len(),
            self.interfaces@[i as int].config.wf(),
        ensures
            r@ == spec_hid_descriptor(
                self.interfaces@[i as int].config.report_descriptor@.len() as u16,
            ),
    {
        hid_descriptor(self.interfaces[i].config.report_descriptor.len() as u16)
    }

    /// Routes one decoded control request to interface `i` and applies it:
    /// reads are answered from the interface state, writes update it, and
    /// unknown or unsupported requests stall. `data` carries the data stage
    /// of SET_REPORT and is ignored otherwise. No other interface is
    /// touched.
    pub fn handle_control(&mut self, i: usize, req: HidRequest, data: Vec<u8>) -> (r:
        ControlResponse)
        requires
            i < old(self).interfaces@.len(),
            old(self).interfaces@[i as int].config.wf(),
        ensures
            final(self).interfaces@.len() == old(self).interfaces@.len(),
            forall|k: int|
                0 <= k < old(self).interfaces@.len() && k != i ==> final(self).interfaces@[k] == old(
                    self,
                ).interfaces@[k],
            ({
                let s0 = old(self).interfaces@[i as int];
                let s1 = final(self).interfaces@[i as int];
                match req {
                    HidRequest::GetReport { report_type, report_id } => r matches
                        ControlResponse::ReportRequested(t, d) && t == report_type && d == report_id
                        && s1 == s0,
                    HidRequest::SetReport { .. } => r is Accepted && s1.pending_out == Some(data)
                        && s1.config == s0.config && s1.protocol == s0.protocol && s1.idle_rate_4ms
                        == s0.idle_rate_4ms && s1.ms_since_last_tx == s0.ms_since_last_tx
                        && s1.last_transmitted == s0.last_transmitted && s1.state == s0.state,
                    HidRequest::GetIdle { .. } => r matches ControlResponse::DataIn(d) && d@
                        == seq![s0.idle_rate_4ms] && s1 == s0,
                    HidRequest::SetIdle { rate_4ms, .. } => r is Accepted && s1.idle_rate_4ms
                        == rate_4ms && s1.ms_since_last_tx == 0 && s1.config == s0.config
                        && s1.protocol == s0.protocol && s1.last_transmitted == s0.last_transmitted
                        && s1.pending_out == s0.pending_out && s1.state == s0.state,
                    HidRequest::GetProtocol => r matches ControlResponse::DataIn(d) && d@ == seq![
                        (
                        if s0.protocol is Boot {
                            0u8
                        } else {
                            1u8
                        }),
                    ] && s1 == s0,
                    HidRequest::SetProtocol { value } => if value == 0 || value == 1 {
                        r is Accepted && s1.protocol == (if value == 0 {
                            HidProtocol::Boot
                        } else {
                            HidProtocol::Report
                        }) && s1.ms_since_last_tx == 0 && s1.last_transmitted is None && s1.config
                            == s0.config && s1.idle_rate_4ms == s0.idle_rate_4ms && s1.pending_out
                            == s0.pending_out && s1.state == s0.state
                    } else {
                        r is Stalled && s1 == s0
                    },
                    HidRequest::GetDescriptorHid => r matches ControlResponse::DataIn(d) && d@
                        == spec_hid_descriptor(s0.config.report_descriptor@.len() as u16) && s1
                        == s0,
                    HidRequest::GetDescriptorReport => r matches ControlResponse::DataIn(d) && d@
                        == s0.config.report_descriptor@ && s1 == s0,
                    HidRequest::Unknown => r is Stalled && s1 == s0,
                }
            }),
    {
        match req {
            HidRequest::GetReport { report_type, report_id } => {
                ControlResponse::ReportRequested(report_type, report_id)
            },
            HidRequest::SetReport { report_type: _, report_id: _ } => {
                self.interfaces[i].set_report(data);
                ControlResponse::Accepted
            },
            HidRequest::GetIdle { report_id: _ } => {
                let rate = self.interfaces[i].get_idle();
                let mut d: Vec<u8> = Vec::new();
                d.push(rate);
                proof {
                    assert(d@ =~= seq![old(self).interfaces@[i as int].idle_rate_4ms]);
                }
                ControlResponse::DataIn(d)
            },
            HidRequest::SetIdle { rate_4ms, report_id: _ } => {
                self.interfaces[i].set_idle(rate_4ms);
                ControlResponse::Accepted
            },
            HidRequest::GetProtocol => {
                let v = self.interfaces[i].get_protocol_value();
                let mut d: Vec<u8> = Vec::new();
                d.push(v);
                proof {
                    assert(d@ =~= seq![
                        (
                        if old(self).interfaces@[i as int].protocol is Boot {
                            0u8
                        } else {
                            1u8
                        }),
                    ]);
                }
                ControlResponse::DataIn(d)
            },
            HidRequest::SetProtocol { value } => {
                if value == 0 {
                    self.interfaces[i].set_protocol(HidProtocol::Boot);
                    ControlResponse::Accepted
                } else if value == 1 {
                    self.interfaces[i].set_protocol(HidProtocol::Report);
                    ControlResponse::Accepted
                } else {
                    ControlResponse::Stalled
                }
            },
            HidRequest::GetDescriptorHid => {
                let d = self.hid_descriptor_for(i);
                ControlResponse::DataIn(d)
            },
            HidRequest::GetDescriptorReport => {
                let d = self.interfaces[i].report_descriptor();
                ControlResponse::DataIn(d)
            },
            HidRequest::Unknown => ControlResponse::Stalled,
        }
    }
}

} // verus!
