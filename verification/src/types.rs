//! The data model of a USBTMC session: endpoints, capabilities, device
//! identification, the resolved device mode, the bTag sequence generator
//! and the per-transfer timeout.

use vstd::prelude::*;

verus! {

/// The direction of a USB endpoint, seen from the host.
#[derive(Clone, Copy, Debug, PartialEq, Eq, Structural)]
pub enum Direction {
    /// Device to host.
    In,
    /// Host to device.
    Out,
}

/// The transfer type of a USB endpoint.
#[derive(Clone, Copy, Debug, PartialEq, Eq, Structural)]
pub enum TransferType {
    Control,
    Isochronous,
    Bulk,
    Interrupt,
}

/// Properties of one endpoint of the USBTMC interface.
#[derive(Clone, Copy, Debug, PartialEq, Eq, Structural)]
pub struct Endpoint {
    /// Address of the endpoint on the interface.
    pub address: u8,
    /// The largest packet this endpoint carries.
    pub max_packet_size: u16,
    /// The transfer type of the endpoint (for USBTMC, Bulk or Interrupt).
    pub transfer_type: TransferType,
    /// The direction of the endpoint (for USBTMC, In or Out).
    pub direction: Direction,
}

/// Whether `ep` can serve as the bulk-out endpoint: data flows host to
/// device over a bulk pipe.
pub open spec fn is_valid_bulk_out(ep: Endpoint) -> bool {
    ep.direction is Out && ep.transfer_type is Bulk
}

/// Whether `ep` can serve as the bulk-in endpoint: data flows device to
/// host over a bulk pipe.
pub open spec fn is_valid_bulk_in(ep: Endpoint) -> bool {
    ep.direction is In && ep.transfer_type is Bulk
}

/// The endpoints the USBTMC class mandates on its interface.
#[derive(Clone, Copy, Debug)]
pub struct UsbtmcEndpoints {
    /// The mandatory bulk-out endpoint.
    pub bulk_out_ep: Endpoint,
    /// The mandatory bulk-in endpoint.
    pub bulk_in_ep: Endpoint,
    /// The optional interrupt-in endpoint.
    pub interrupt_ep: Option<Endpoint>,
}

/// The capabilities a USBTMC device reports, immutable once queried.
#[derive(Clone, Copy, Debug, PartialEq, Eq, Structural)]
pub struct Capabilities {
    /// The USBTMC version the device implements, binary-coded decimal.
    pub bcd_version: u16,
    /// The device accepts the indicator-pulse control request.
    pub accepts_indicator_pulse_request: bool,
    /// The device only sends data to the controller.
    pub is_talk_only: bool,
    /// The device only accepts data from the controller.
    pub is_listen_only: bool,
    /// Responses may end with a terminator character, so a read request may
    /// ask for one.
    pub supports_bulk_in_term_char: bool,
}

/// USB device address: where the device sits on the host.
#[derive(Clone, Copy, Debug, PartialEq, Eq, Structural)]
pub struct DeviceAddr {
    /// USB bus number.
    pub bus: u8,
    /// USB device number on that bus.
    pub device: u8,
}

/// USB device identifiers: what the device is.
#[derive(Clone, Copy, Debug, PartialEq, Eq, Structural)]
pub struct DeviceId {
    /// USB vendor id.
    pub vendor_id: u16,
    /// USB product id.
    pub product_id: u16,
}

/// Identification of one attached device: identifiers and address.
#[derive(Clone, Copy, Debug, PartialEq, Eq, Structural)]
pub struct DeviceInfo {
    pub id: DeviceId,
    pub address: DeviceAddr,
}

/// The configuration, interface and alternate-setting numbers a session
/// drives, and whether a kernel driver had to be detached for it (it must
/// be reattached on teardown).
#[derive(Clone, Copy, Debug, PartialEq, Eq, Structural)]
pub struct DeviceMode {
    /// The USB configuration number.
    pub config_number: u8,
    /// The interface number within that configuration.
    pub interface_number: u8,
    /// The alternate-setting number within that interface.
    pub setting_number: u8,
    /// Whether a kernel driver was detached and must be restored.
    pub has_kernel_driver: bool,
}

/// One interface descriptor of a device, reduced to the fields the USBTMC
/// mode resolution reads.
#[derive(Clone, Copy, Debug, PartialEq, Eq, Structural)]
pub struct InterfaceDesc {
    /// The configuration the interface belongs to.
    pub config_number: u8,
    /// The interface number within that configuration.
    pub interface_number: u8,
    /// The alternate-setting number of this descriptor.
    pub setting_number: u8,
    /// The interface class code.
    pub class_code: u8,
    /// The interface subclass code.
    pub sub_class_code: u8,
    /// The interface protocol code.
    pub protocol_code: u8,
}

/// The per-transfer timeout of a session, in milliseconds.  It may be
/// changed at any time; a change takes effect on the next transfer.
#[derive(Clone, Copy, Debug, PartialEq, Eq, Structural)]
pub struct Timeout {
    /// The timeout in milliseconds.
    pub millis: u64,
}

impl Timeout {
    /// A timeout of `millis` milliseconds.
    pub fn new(millis: u64) -> (r: Timeout)
        ensures
            r.millis == millis,
    {
        Timeout { millis }
    }

    /// The current timeout value in milliseconds.
    pub fn borrow(&self) -> (r: u64)
        ensures
            r == self.millis,
    {
        self.millis
    }
}

/// The value that follows `b` in the bTag sequence: 255 wraps to 1, any
/// other value advances by one.  The sequence never visits 0.
pub open spec fn spec_advance_btag(b: u8) -> u8 {
    if b == 255 {
        1
    } else {
        (b + 1) as u8
    }
}

/// The value `n` steps after `b` in the bTag sequence.
pub open spec fn spec_advance_btag_n(b: u8, n: nat) -> u8
    decreases n,
{
    if n == 0 {
        b
    } else {
        spec_advance_btag(spec_advance_btag_n(b, (n - 1) as nat))
    }
}

/// The bTag transaction identifier of a session.
///
/// `get` returns the current value and advances it; the stored value starts
/// at 1, stays within 1..=255 and wraps 255 to 1, so 0 is never emitted.
/// One generator is shared by all requests of a session; callers serialize
/// access to it.
#[derive(Debug)]
pub struct BTag {
    value: u8,
}

impl View for BTag {
    type V = u8;

    closed spec fn view(&self) -> u8 {
        self.value
    }
}

impl BTag {
    /// The stored value is always a legal bTag.
    #[verifier::type_invariant]
    spec fn inv(self) -> bool {
        1 <= self.value <= 255
    }

    /// A fresh generator, holding the value 1.
    pub fn new() -> (r: BTag)
        ensures
            r@ == 1,
    {
        BTag { value: 1 }
    }

    /// Returns the current bTag and advances the stored value, wrapping
    /// 255 to 1.
    pub fn get(&mut self) -> (r: u8)
        ensures
            r == old(self)@,
            final(self)@ == spec_advance_btag(r),
            1 <= r <= 255,
    {
        proof {
            use_type_invariant(&*self);
        }
        let output = self.value;
        if self.value == 255 {
            self.value = 1;
        } else {
            self.value = self.value + 1;
        }
        output
    }
}

/// Stepping once and then `n` times is stepping `n + 1` times.
pub proof fn lemma_advance_btag_n_front(b: u8, n: nat)
    ensures
        spec_advance_btag_n(spec_advance_btag(b), n) == spec_advance_btag_n(b, n + 1),
    decreases n,
{
    if n == 0 {
        assert(spec_advance_btag_n(spec_advance_btag(b), 0) == spec_advance_btag(b));
        assert(spec_advance_btag_n(b, 1) == spec_advance_btag(spec_advance_btag_n(b, 0)));
    } else {
        lemma_advance_btag_n_front(b, (n - 1) as nat);
        assert(spec_advance_btag_n(spec_advance_btag(b), n) == spec_advance_btag(
            spec_advance_btag_n(spec_advance_btag(b), (n - 1) as nat),
        ));
        assert(spec_advance_btag_n(b, n + 1) == spec_advance_btag(
            spec_advance_btag_n(b, ((n + 1) - 1) as nat),
        ));
    }
}

/// The bTag sequence stays within 1..=255 and never emits 0; below 255 it
/// advances by exactly one, and from 255 it wraps to 1.
pub proof fn lemma_btag_advance(b: u8)
    requires
        1 <= b <= 255,
    ensures
        1 <= spec_advance_btag(b) <= 255,
        spec_advance_btag(b) != 0,
        b < 255 ==> spec_advance_btag(b) == b + 1,
        b == 255 ==> spec_advance_btag(b) == 1,
{
}

} // verus!
