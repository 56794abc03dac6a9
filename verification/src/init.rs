//! Session-setup decisions: recognising a USBTMC interface, resolving the
//! device mode to drive, selecting the class endpoints, and the concrete
//! device filters.
//!
//! These functions work on the descriptor data reduced to plain values
//! (`InterfaceDesc`, `Endpoint`, `DeviceInfo`); the embedding application
//! reads the descriptors from the host stack and hands them in.

use crate::constants::{USBTMC_CLASS_CODE, USBTMC_PROTOCOL_CODE, USBTMC_SUBCLASS_CODE};
use crate::error::Error;
use crate::types::{
    is_valid_bulk_in, is_valid_bulk_out, DeviceAddr, DeviceId, DeviceInfo, DeviceMode, Endpoint,
    InterfaceDesc, UsbtmcEndpoints,
};
use crate::DeviceFilter;
use vstd::prelude::*;

verus! {

/// Whether one interface descriptor announces the USBTMC class.
pub open spec fn spec_is_tmc_interface(d: InterfaceDesc) -> bool {
    &&& d.class_code == USBTMC_CLASS_CODE
    &&& d.sub_class_code == USBTMC_SUBCLASS_CODE
    &&& d.protocol_code == USBTMC_PROTOCOL_CODE
}

/// The device mode a USBTMC interface descriptor resolves to: its
/// configuration, interface and alternate-setting numbers, with no kernel
/// driver detached yet.
pub open spec fn spec_mode_of(d: InterfaceDesc) -> DeviceMode {
    DeviceMode {
        config_number: d.config_number,
        interface_number: d.interface_number,
        setting_number: d.setting_number,
        has_kernel_driver: false,
    }
}

/// Whether `ep` is an interrupt-in endpoint.
pub open spec fn spec_is_interrupt_in(ep: Endpoint) -> bool {
    ep.direction is In && ep.transfer_type is Interrupt
}

/// Returns whether any interface descriptor of a device announces the
/// USBTMC class: class 0xFE, subclass 3, protocol 1.
pub fn is_tmc_device(descriptors: &Vec<InterfaceDesc>) -> (r: bool)
    ensures
        r == exists|i: int| 0 <= i < descriptors@.len() && spec_is_tmc_interface(descriptors@[i]),
{
    let mut n: usize = 0;
    while n < descriptors.len()
        invariant
            0 <= n <= descriptors@.len(),
            forall|i: int| 0 <= i < n ==> !spec_is_tmc_interface(descriptors@[i]),
        decreases descriptors@.len() - n,
    {
        let d = descriptors[n];
        if d.class_code == USBTMC_CLASS_CODE && d.sub_class_code == USBTMC_SUBCLASS_CODE
            && d.protocol_code == USBTMC_PROTOCOL_CODE {
            return true;
        }
        n = n + 1;
    }
    false
}

/// Resolves the device mode from a device's interface descriptors: the
/// first descriptor that announces the USBTMC class gives the
/// configuration, interface and setting numbers to drive; a device
/// without one is incompatible.
pub fn get_usbtmc_mode(descriptors: &Vec<InterfaceDesc>) -> (r: Result<DeviceMode, Error>)
    ensures
        r is Ok <==> exists|i: int|
            0 <= i < descriptors@.len() && spec_is_tmc_interface(descriptors@[i]),
        r matches Err(e) ==> e is DeviceIncompatible,
        r matches Ok(m) ==> exists|i: int|
            {
                &&& 0 <= i < descriptors@.len()
                &&& #[trigger] spec_is_tmc_interface(descriptors@[i])
                &&& forall|j: int| 0 <= j < i ==> !spec_is_tmc_interface(descriptors@[j])
                &&& m == spec_mode_of(descriptors@[i])
            },
{
    let mut n: usize = 0;
    while n < descriptors.len()
        invariant
            0 <= n <= descriptors@.len(),
            forall|j: int| 0 <= j < n ==> !spec_is_tmc_interface(descriptors@[j]),
        decreases descriptors@.len() - n,
    {
        let d = descriptors[n];
        if d.class_code == USBTMC_CLASS_CODE && d.sub_class_code == USBTMC_SUBCLASS_CODE
            && d.protocol_code == USBTMC_PROTOCOL_CODE {
            proof {
                assert(spec_is_tmc_interface(descriptors@[n as int]));
            }
            return Ok(
                DeviceMode {
                    config_number: d.config_number,
                    interface_number: d.interface_number,
                    setting_number: d.setting_number,
                    has_kernel_driver: false,
                },
            );
        }
        n = n + 1;
    }
    Err(Error::DeviceIncompatible)
}

/// The index of the first bulk-out endpoint, if any.
fn find_first_bulk_out(endpoints: &Vec<Endpoint>) -> (r: Option<usize>)
    ensures
        r matches Some(i) ==> 0 <= i < endpoints@.len() && is_valid_bulk_out(endpoints@[i as int])
            && forall|j: int| 0 <= j < i ==> !is_valid_bulk_out(endpoints@[j]),
        r is None ==> forall|j: int| 0 <= j < endpoints@.len() ==> !is_valid_bulk_out(
            endpoints@[j],
        ),
{
    let mut n: usize = 0;
    while n < endpoints.len()
        invariant
            0 <= n <= endpoints@.len(),
            forall|j: int| 0 <= j < n ==> !is_valid_bulk_out(endpoints@[j]),
        decreases endpoints@.len() - n,
    {
        let ep = endpoints[n];
        if ep.direction == crate::types::Direction::Out && ep.transfer_type
            == crate::types::TransferType::Bulk {
            return Some(n);
        }
        n = n + 1;
    }
    None
}

/// The index of the first bulk-in endpoint, if any.
fn find_first_bulk_in(endpoints: &Vec<Endpoint>) -> (r: Option<usize>)
    ensures
        r matches Some(i) ==> 0 <= i < endpoints@.len() && is_valid_bulk_in(endpoints@[i as int])
            && forall|j: int| 0 <= j < i ==> !is_valid_bulk_in(endpoints@[j]),
        r is None ==> forall|j: int| 0 <= j < endpoints@.len() ==> !is_valid_bulk_in(endpoints@[j]),
{
    let mut n: usize = 0;
    while n < endpoints.len()
        invariant
            0 <= n <= endpoints@.len(),
            forall|j: int| 0 <= j < n ==> !is_valid_bulk_in(endpoints@[j]),
        decreases endpoints@.len() - n,
    {
        let ep = endpoints[n];
        if ep.direction == crate::types::Direction::In && ep.transfer_type
            == crate::types::TransferType::Bulk {
            return Some(n);
        }
        n = n + 1;
    }
    None
}

/// The index of the first interrupt-in endpoint, if any.
fn find_first_interrupt_in(endpoints: &Vec<Endpoint>) -> (r: Option<usize>)
    ensures
        r matches Some(i) ==> 0 <= i < endpoints@.len() && spec_is_interrupt_in(
            endpoints@[i as int],
        ) && forall|j: int| 0 <= j < i ==> !spec_is_interrupt_in(endpoints@[j]),
        r is None ==> forall|j: int| 0 <= j < endpoints@.len() ==> !spec_is_interrupt_in(
            endpoints@[j],
        ),
{
    let mut n: usize = 0;
    while n < endpoints.len()
        invariant
            0 <= n <= endpoints@.len(),
            forall|j: int| 0 <= j < n ==> !spec_is_interrupt_in(endpoints@[j]),
        decreases endpoints@.len() - n,
    {
        let ep = endpoints[n];
        if ep.direction == crate::types::Direction::In && ep.transfer_type
            == crate::types::TransferType::Interrupt {
            return Some(n);
        }
        n = n + 1;
    }
    None
}

/// Selects the USBTMC class endpoints from an interface's endpoint list:
/// the first bulk-out endpoint (required), the first bulk-in endpoint
/// (required), and the first interrupt-in endpoint if the interface has
/// one.  A missing bulk-out endpoint is reported before a missing bulk-in
/// endpoint.
pub fn get_endpoints(endpoints: &Vec<Endpoint>) -> (r: Result<UsbtmcEndpoints, Error>)
    ensures
        r is Ok <==> ((exists|i: int|
            0 <= i < endpoints@.len() && is_valid_bulk_out(#[trigger] endpoints@[i])) && (
        exists|i: int| 0 <= i < endpoints@.len() && is_valid_bulk_in(#[trigger] endpoints@[i]))),
        r matches Err(e) ==> ((e is BulkOutEndpointNotFound && forall|j: int|
            0 <= j < endpoints@.len() ==> !is_valid_bulk_out(#[trigger] endpoints@[j])) || (
        e is BulkInEndpointNotFound && forall|j: int|
            0 <= j < endpoints@.len() ==> !is_valid_bulk_in(#[trigger] endpoints@[j]))),
        r matches Ok(u) ==> {
            &&& exists|i: int|
                {
                    &&& 0 <= i < endpoints@.len()
                    &&& is_valid_bulk_out(#[trigger] endpoints@[i])
                    &&& u.bulk_out_ep == endpoints@[i]
                    &&& forall|j: int| 0 <= j < i ==> !is_valid_bulk_out(endpoints@[j])
                }
            &&& exists|i: int|
                {
                    &&& 0 <= i < endpoints@.len()
                    &&& is_valid_bulk_in(#[trigger] endpoints@[i])
                    &&& u.bulk_in_ep == endpoints@[i]
                    &&& forall|j: int| 0 <= j < i ==> !is_valid_bulk_in(endpoints@[j])
                }
            &&& (u.interrupt_ep matches Some(iep) ==> exists|i: int|
                {
                    &&& 0 <= i < endpoints@.len()
                    &&& #[trigger] spec_is_interrupt_in(endpoints@[i])
                    &&& iep == endpoints@[i]
                    &&& forall|j: int| 0 <= j < i ==> !spec_is_interrupt_in(endpoints@[j])
                })
            &&& (u.interrupt_ep is None ==> forall|j: int|
                0 <= j < endpoints@.len() ==> !spec_is_interrupt_in(#[trigger] endpoints@[j]))
        },
{
    let bulk_out_ep = match find_first_bulk_out(endpoints) {
        Some(i) => endpoints[i],
        None => {
            return Err(Error::BulkOutEndpointNotFound);
        },
    };
    let bulk_in_ep = match find_first_bulk_in(endpoints) {
        Some(i) => endpoints[i],
        None => {
            return Err(Error::BulkInEndpointNotFound);
        },
    };
    let interrupt_ep = match find_first_interrupt_in(endpoints) {
        Some(i) => Some(endpoints[i]),
        None => None,
    };
    Ok(UsbtmcEndpoints { bulk_out_ep, bulk_in_ep, interrupt_ep })
}

// ==========================================================================
// Device filters
// ==========================================================================

/// Accepts the first USBTMC device found.
impl DeviceFilter for () {
    open spec fn spec_matches(&self, info: DeviceInfo) -> bool {
        true
    }

    fn apply_filter(&self, info: &DeviceInfo) -> (r: bool) {
        true
    }
}

/// Selects a device by its bus and device number.
impl DeviceFilter for DeviceAddr {
    open spec fn spec_matches(&self, info: DeviceInfo) -> bool {
        info.address == *self
    }

    fn apply_filter(&self, info: &DeviceInfo) -> (r: bool) {
        self.bus == info.address.bus && self.device == info.address.device
    }
}

/// Selects a device by `(bus, device number)`.
impl DeviceFilter for (u8, u8) {
    open spec fn spec_matches(&self, info: DeviceInfo) -> bool {
        self.0 == info.address.bus && self.1 == info.address.device
    }

    fn apply_filter(&self, info: &DeviceInfo) -> (r: bool) {
        self.0 == info.address.bus && self.1 == info.address.device
    }
}

/// Selects a device by `[bus, device number]`.
impl DeviceFilter for [u8; 2] {
    open spec fn spec_matches(&self, info: DeviceInfo) -> bool {
        self@[0] == info.address.bus && self@[1] == info.address.device
    }

    fn apply_filter(&self, info: &DeviceInfo) -> (r: bool) {
        self[0] == info.address.bus && self[1] == info.address.device
    }
}

/// Selects a device by its vendor and product ids.
impl DeviceFilter for DeviceId {
    open spec fn spec_matches(&self, info: DeviceInfo) -> bool {
        info.id == *self
    }

    fn apply_filter(&self, info: &DeviceInfo) -> (r: bool) {
        self.vendor_id == info.id.vendor_id && self.product_id == info.id.product_id
    }
}

/// Selects a device by `(vendor id, product id)`.
impl DeviceFilter for (u16, u16) {
    open spec fn spec_matches(&self, info: DeviceInfo) -> bool {
        self.0 == info.id.vendor_id && self.1 == info.id.product_id
    }

    fn apply_filter(&self, info: &DeviceInfo) -> (r: bool) {
        self.0 == info.id.vendor_id && self.1 == info.id.product_id
    }
}

/// Selects a device by `[vendor id, product id]`.
impl DeviceFilter for [u16; 2] {
    open spec fn spec_matches(&self, info: DeviceInfo) -> bool {
        self@[0] == info.id.vendor_id && self@[1] == info.id.product_id
    }

    fn apply_filter(&self, info: &DeviceInfo) -> (r: bool) {
        self[0] == info.id.vendor_id && self[1] == info.id.product_id
    }
}

/// Selects a device by both its ids and its address.
impl DeviceFilter for DeviceInfo {
    open spec fn spec_matches(&self, info: DeviceInfo) -> bool {
        self.id.spec_matches(info) && self.address.spec_matches(info)
    }

    fn apply_filter(&self, info: &DeviceInfo) -> (r: bool) {
        self.id.apply_filter(info) && self.address.apply_filter(info)
    }
}

/// A filter may be applied through a shared reference.
impl<T: DeviceFilter> DeviceFilter for &T {
    open spec fn spec_matches(&self, info: DeviceInfo) -> bool {
        (**self).spec_matches(info)
    }

    fn apply_filter(&self, info: &DeviceInfo) -> (r: bool) {
        (**self).apply_filter(info)
    }
}

} // verus!
