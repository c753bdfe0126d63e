//! The per-interface engine: protocol mode, the HID idle timer, input-report
//! deduplication, and the pending output report.
//!
//! The engine decides; the bus driver acts. `check_write` says whether a
//! report must reach the endpoint, and `write_report` folds the endpoint's
//! answer back into the state. The application drives `tick` at exactly
//! 1 kHz.

use vstd::prelude::*;

use crate::UsbHidError;

verus! {

/// Boot or Report protocol mode, switched by SET_PROTOCOL.
#[derive(Clone, Copy, PartialEq, Eq, Structural, Debug)]
pub enum HidProtocol {
    Boot,
    Report,
}

/// Lifecycle of an interface: unconfigured, active, or suspended by the bus.
#[derive(Clone, Copy, PartialEq, Eq, Structural, Debug)]
pub enum InterfaceState {
    Uninit,
    Idle,
    Suspended,
}

/// Build-time description of an optional interrupt OUT endpoint.
#[derive(Clone, Copy, PartialEq, Eq, Structural, Debug)]
pub struct OutEndpointConfig {
    pub poll_interval_ms: u8,
    pub max_packet_size: u16,
}

/// Build-time description of one HID interface; immutable after
/// construction.
pub struct InterfaceConfig {
    /// The report descriptor bytes this interface answers GET_DESCRIPTOR
    /// with.
    pub report_descriptor: Vec<u8>,
    pub in_poll_interval_ms: u8,
    pub out_endpoint: Option<OutEndpointConfig>,
    /// Idle default in 4 ms units; 0 means never resend.
    pub idle_default_4ms: u8,
    pub protocol_default: HidProtocol,
}

impl InterfaceConfig {
    /// A well-formed config polls at least every millisecond and keeps the
    /// report descriptor length on the wire-representable range.
    pub open spec fn wf(&self) -> bool {
        &&& self.in_poll_interval_ms >= 1
        &&& self.report_descriptor@.len() <= 0xFFFF
        &&& (match self.out_endpoint {
            Some(o) => o.poll_interval_ms >= 1,
            None => true,
        })
    }

    /// Decides well-formedness in executable code, so a caller can guard
    /// the operations that ask for it.
    pub fn check_wf(&self) -> (r: bool)
        ensures
            r == self.wf(),
    {
        self.in_poll_interval_ms >= 1 && self.report_descriptor.len() <= 0xFFFF && (match &self
            .out_endpoint {
            Some(o) => o.poll_interval_ms >= 1,
            None => true,
        })
    }
}

/// Per-interface runtime state.
pub struct HidInterface {
    pub config: InterfaceConfig,
    pub protocol: HidProtocol,
    /// Current idle rate in 4 ms units; 0 means never resend.
    pub idle_rate_4ms: u8,
    /// Milliseconds since the last successful IN transfer.
    pub ms_since_last_tx: u32,
    /// The most recent bytes successfully handed to the bus driver; never
    /// the bytes of an attempt that returned `WouldBlock`.
    pub last_transmitted: Option<Vec<u8>>,
    /// The most recent OUT report, until the application consumes it.
    pub pending_out: Option<Vec<u8>>,
    pub state: InterfaceState,
}

/// Whether a report is suppressed as a duplicate: it equals the last
/// transmitted bytes and the idle window has not expired (a rate of 0 keeps
/// the window open forever).
pub open spec fn duplicate_suppressed(s: HidInterface, bytes: Seq<u8>) -> bool {
    match s.last_transmitted {
        Some(last) => last@ == bytes && (s.idle_rate_4ms == 0 || s.ms_since_last_tx
            < s.idle_rate_4ms * 4),
        None => false,
    }
}

/// The decision `check_write` and `write_report` owe for a report offered in
/// state `s`: refuse while not active, suppress duplicates inside the idle
/// window, otherwise hand the bytes to the endpoint.
pub open spec fn spec_write_decision(s: HidInterface, bytes: Seq<u8>) -> Result<(), UsbHidError> {
    if !(s.state is Idle) {
        Err(UsbHidError::WouldBlock)
    } else if duplicate_suppressed(s, bytes) {
        Err(UsbHidError::Duplicate)
    } else {
        Ok(())
    }
}

/// Compares two byte strings.
pub fn bytes_equal(a: &Vec<u8>, b: &Vec<u8>) -> (r: bool)
    ensures
        r == (a@ == b@),
{
    if a.len() != b.len() {
        return false;
    }
    let mut i: usize = 0;
    while i < a.len()
        invariant
            a@.len() == b@.len(),
            i <= a@.len(),
            forall|t: int| 0 <= t < i ==> a@[t] == b@[t],
        decreases a@.len() - i,
    {
        if a[i] != b[i] {
            return false;
        }
        i += 1;
    }
    proof {
        assert(a@ =~= b@);
    }
    true
}

/// Copies report bytes, so the engine can remember them as last
/// transmitted.
fn copy_bytes(v: &Vec<u8>) -> (r: Vec<u8>)
    ensures
        r@ == v@,
{
    let mut r: Vec<u8> = Vec::new();
    let mut i: usize = 0;
    while i < v.len()
        invariant
            i <= v@.len(),
            r@ == v@.subrange(0, i as int),
        decreases v@.len() - i,
    {
        let x = v[i];
        r.push(x);
        i += 1;
        proof {
            assert(r@ =~= v@.subrange(0, i as int));
        }
    }
    proof {
        assert(r@ =~= v@);
    }
    r
}

/// A freshly built interface: unconfigured, holding the config's idle and
/// protocol defaults, with nothing transmitted or pending.
pub open spec fn fresh_interface(r: HidInterface, config: InterfaceConfig) -> bool {
    &&& r.config == config
    &&& r.protocol == config.protocol_default
    &&& r.idle_rate_4ms == config.idle_default_4ms
    &&& r.ms_since_last_tx == 0
    &&& r.last_transmitted is None
    &&& r.pending_out is None
    &&& r.state is Uninit
}

impl HidInterface {
    /// A fresh interface: unconfigured, with the config's idle and protocol
    /// defaults and nothing transmitted or pending.
    pub fn new(config: InterfaceConfig) -> (r: Self)
        ensures
            fresh_interface(r, config),
    {
        let protocol = config.protocol_default;
        let idle = config.idle_default_4ms;
        HidInterface {
            config,
            protocol,
            idle_rate_4ms: idle,
            ms_since_last_tx: 0,
            last_transmitted: None,
            pending_out: None,
            state: InterfaceState::Uninit,
        }
    }

    /// The bus configured the device: the interface becomes active with its
    /// defaults restored and its history cleared.
    pub fn on_configured(&mut self)
        ensures
            final(self).config == old(self).config,
            final(self).protocol == old(self).config.protocol_default,
            final(self).idle_rate_4ms == old(self).config.idle_default_4ms,
            final(self).ms_since_last_tx == 0,
            final(self).last_transmitted is None,
            final(self).pending_out is None,
            final(self).state is Idle,
    {
        self.protocol = self.config.protocol_default;
        self.idle_rate_4ms = self.config.idle_default_4ms;
        self.ms_since_last_tx = 0;
        self.last_transmitted = None;
        self.pending_out = None;
        self.state = InterfaceState::Idle;
    }

    /// The bus suspended: an active interface stops accepting writes.
    pub fn suspend(&mut self)
        ensures
            final(self).state == (if old(self).state is Idle {
                InterfaceState::Suspended
            } else {
                old(self).state
            }),
            final(self).config == old(self).config,
            final(self).protocol == old(self).protocol,
            final(self).idle_rate_4ms == old(self).idle_rate_4ms,
            final(self).ms_since_last_tx == old(self).ms_since_last_tx,
            final(self).last_transmitted == old(self).last_transmitted,
            final(self).pending_out == old(self).pending_out,
    {
        if let InterfaceState::Idle = self.state {
            self.state = InterfaceState::Suspended;
        }
    }

    /// The bus resumed: a suspended interface becomes active again.
    pub fn resume(&mut self)
        ensures
            final(self).state == (if old(self).state is Suspended {
                InterfaceState::Idle
            } else {
                old(self).state
            }),
            final(self).config == old(self).config,
            final(self).protocol == old(self).protocol,
            final(self).idle_rate_4ms == old(self).idle_rate_4ms,
            final(self).ms_since_last_tx == old(self).ms_since_last_tx,
            final(self).last_transmitted == old(self).last_transmitted,
            final(self).pending_out == old(self).pending_out,
    {
        if let InterfaceState::Suspended = self.state {
            self.state = InterfaceState::Idle;
        }
    }

    /// One millisecond elapsed; must be called at exactly 1 kHz. The counter
    /// advances even while suspended, and saturates rather than wraps. The
    /// result says whether the idle period has elapsed, so an unchanged
    /// report is due for resubmission.
    pub fn tick(&mut self) -> (resend_due: bool)
        ensures
            final(self).ms_since_last_tx == (if old(self).ms_since_last_tx < 0xFFFF_FFFFu32 {
                old(self).ms_since_last_tx + 1
            } else {
                old(self).ms_since_last_tx as int
            }),
            final(self).config == old(self).config,
            final(self).protocol == old(self).protocol,
            final(self).idle_rate_4ms == old(self).idle_rate_4ms,
            final(self).last_transmitted == old(self).last_transmitted,
            final(self).pending_out == old(self).pending_out,
            final(self).state == old(self).state,
            resend_due == (final(self).state is Idle && final(self).idle_rate_4ms > 0
                && final(self).last_transmitted is Some
                && final(self).ms_since_last_tx >= final(self).idle_rate_4ms * 4),
    {
        if self.ms_since_last_tx < 0xFFFF_FFFF {
            self.ms_since_last_tx = self.ms_since_last_tx + 1;
        }
        let active = if let InterfaceState::Idle = self.state {
            true
        } else {
            false
        };
        let has_last = if let Some(_) = &self.last_transmitted {
            true
        } else {
            false
        };
        active && self.idle_rate_4ms > 0 && has_last && self.ms_since_last_tx
            >= (self.idle_rate_4ms as u32) * 4
    }

    /// Whether a report offered now must be handed to the IN endpoint:
    /// `Ok` asks the caller to attempt the endpoint write, `WouldBlock`
    /// refuses while not active, `Duplicate` suppresses an unchanged report
    /// inside the idle window. Decides only; changes nothing.
    pub fn check_write(&self, bytes: &Vec<u8>) -> (r: Result<(), UsbHidError>)
        ensures
            r == spec_write_decision(*self, bytes@),
    {
        let active = if let InterfaceState::Idle = self.state {
            true
        } else {
            false
        };
        if !active {
            return Err(UsbHidError::WouldBlock);
        }
        match &self.last_transmitted {
            Some(last) => {
                if bytes_equal(last, bytes) {
                    if self.idle_rate_4ms == 0 {
                        return Err(UsbHidError::Duplicate);
                    }
                    if self.ms_since_last_tx < (self.idle_rate_4ms as u32) * 4 {
                        return Err(UsbHidError::Duplicate);
                    }
                }
            },
            None => {},
        }
        Ok(())
    }

    /// A report was successfully handed to the bus driver: remember its
    /// bytes and restart the idle window.
    pub fn note_transmitted(&mut self, bytes: &Vec<u8>)
        ensures
            final(self).last_transmitted matches Some(l) && l@ == bytes@,
            final(self).ms_since_last_tx == 0,
            final(self).config == old(self).config,
            final(self).protocol == old(self).protocol,
            final(self).idle_rate_4ms == old(self).idle_rate_4ms,
            final(self).pending_out == old(self).pending_out,
            final(self).state == old(self).state,
    {
        self.last_transmitted = Some(copy_bytes(bytes));
        self.ms_since_last_tx = 0;
    }

    /// Submits a report: applies the pacing decision, and, where the
    /// decision was to transmit, folds in the endpoint's answer `bus` (which
    /// the caller obtained by attempting the IN write, and which is ignored
    /// otherwise). On success the report becomes the last transmitted one;
    /// on `WouldBlock` or any bus error the state is left untouched.
    pub fn write_report(&mut self, bytes: &Vec<u8>, bus: Result<(), UsbHidError>) -> (r: Result<
        (),
        UsbHidError,
    >)
        ensures
            spec_write_decision(*old(self), bytes@) matches Err(e) ==> r == Err::<
                (),
                UsbHidError,
            >(e) && *final(self) == *old(self),
            spec_write_decision(*old(self), bytes@) is Ok ==> match bus {
                Ok(()) => (r == Ok::<(), UsbHidError>(())
                    && (final(self).last_transmitted matches Some(l) && l@ == bytes@)
                    && final(self).ms_since_last_tx == 0
                    && final(self).config == old(self).config
                    && final(self).protocol == old(self).protocol
                    && final(self).idle_rate_4ms == old(self).idle_rate_4ms
                    && final(self).pending_out == old(self).pending_out
                    && final(self).state == old(self).state),
                Err(e) => (r == Err::<(), UsbHidError>(e) && *final(self) == *old(self)),
            },
    {
        match self.check_write(bytes) {
            Err(e) => Err(e),
            Ok(()) => {
                match bus {
                    Ok(()) => {
                        self.note_transmitted(bytes);
                        Ok(())
                    },
                    Err(e) => Err(e),
                }
            },
        }
    }

    /// The class core deposited an OUT transfer: its bytes become the
    /// pending output report.
    pub fn set_report(&mut self, data: Vec<u8>)
        ensures
            final(self).pending_out == Some(data),
            final(self).config == old(self).config,
            final(self).protocol == old(self).protocol,
            final(self).idle_rate_4ms == old(self).idle_rate_4ms,
            final(self).ms_since_last_tx == old(self).ms_since_last_tx,
            final(self).last_transmitted == old(self).last_transmitted,
            final(self).state == old(self).state,
    {
        self.pending_out = Some(data);
    }

    /// Consumes the pending output report atomically: its bytes when one is
    /// pending, `WouldBlock` when none.
    pub fn read_report(&mut self) -> (r: Result<Vec<u8>, UsbHidError>)
        ensures
            match old(self).pending_out {
                Some(b) => r matches Ok(d) && d == b,
                None => r matches Err(e) && e is WouldBlock,
            },
            final(self).pending_out is None,
            final(self).config == old(self).config,
            final(self).protocol == old(self).protocol,
            final(self).idle_rate_4ms == old(self).idle_rate_4ms,
            final(self).ms_since_last_tx == old(self).ms_since_last_tx,
            final(self).last_transmitted == old(self).last_transmitted,
            final(self).state == old(self).state,
    {
        match self.pending_out.take() {
            Some(b) => Ok(b),
            None => Err(UsbHidError::WouldBlock),
        }
    }

    /// The report descriptor bytes, copied for a GET_DESCRIPTOR answer.
    pub fn report_descriptor(&self) -> (r: Vec<u8>)
        ensures
            r@ == self.config.report_descriptor@,
    {
        copy_bytes(&self.config.report_descriptor)
    }

    /// Answers GET_IDLE.
    pub fn get_idle(&self) -> (r: u8)
        ensures
            r == self.idle_rate_4ms,
    {
        self.idle_rate_4ms
    }

    /// Applies SET_IDLE: stores the rate and restarts the idle window.
    pub fn set_idle(&mut self, rate_4ms: u8)
        ensures
            final(self).idle_rate_4ms == rate_4ms,
            final(self).ms_since_last_tx == 0,
            final(self).config == old(self).config,
            final(self).protocol == old(self).protocol,
            final(self).last_transmitted == old(self).last_transmitted,
            final(self).pending_out == old(self).pending_out,
            final(self).state == old(self).state,
    {
        self.idle_rate_4ms = rate_4ms;
        self.ms_since_last_tx = 0;
    }

    /// Answers GET_PROTOCOL: 0 for Boot, 1 for Report.
    pub fn get_protocol_value(&self) -> (r: u8)
        ensures
            r == (if self.protocol is Boot {
                0u8
            } else {
                1u8
            }),
    {
        match self.protocol {
            HidProtocol::Boot => 0,
            HidProtocol::Report => 1,
        }
    }

    /// Applies SET_PROTOCOL: switches mode, restarts the idle window and
    /// forgets the last transmitted bytes, so the next report of the new
    /// layout always transmits.
    pub fn set_protocol(&mut self, protocol: HidProtocol)
        ensures
            final(self).protocol == protocol,
            final(self).ms_since_last_tx == 0,
            final(self).last_transmitted is None,
            final(self).config == old(self).config,
            final(self).idle_rate_4ms == old(self).idle_rate_4ms,
            final(self).pending_out == old(self).pending_out,
            final(self).state == old(self).state,
    {
        self.protocol = protocol;
        self.ms_since_last_tx = 0;
        self.last_transmitted = None;
    }
}

/// Law (deduplication): right after a successful transmission of `bytes`,
/// with an idle rate of 0, offering `bytes` again is suppressed as a
/// duplicate, so `write_report` returns `Duplicate` and never touches the
/// endpoint or the state.
pub proof fn lemma_duplicate_after_write(s: HidInterface, bytes: Seq<u8>)
    requires
        s.idle_rate_4ms == 0,
        s.last_transmitted matches Some(l) && l@ == bytes,
    ensures
        duplicate_suppressed(s, bytes),
        s.state is Idle ==> spec_write_decision(s, bytes) == Err::<(), UsbHidError>(
            UsbHidError::Duplicate,
        ),
{
}

/// Law (idle refresh): with a positive idle rate, once at least
/// `idle_rate_4ms * 4` milliseconds have passed since the last transmission,
/// an unchanged report is no longer suppressed: an active interface hands it
/// to the endpoint again.
pub proof fn lemma_idle_refresh(s: HidInterface, bytes: Seq<u8>)
    requires
        s.idle_rate_4ms > 0,
        s.ms_since_last_tx >= s.idle_rate_4ms * 4,
    ensures
        !duplicate_suppressed(s, bytes),
        s.state is Idle ==> spec_write_decision(s, bytes) == Ok::<(), UsbHidError>(()),
{
}

} // verus!
