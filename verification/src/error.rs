//! The error vocabulary of the crate.

use vstd::prelude::*;

verus! {

/// Every way an operation of this crate can fail.
///
/// Endpoint-validation failures and device-status failures are produced by
/// the engines in this crate; the enumeration also carries the failures the
/// session-setup layer reports while resolving a device.
#[derive(Clone, Copy, Debug, PartialEq, Eq)]
pub enum Error {
    /// No attached device matched the filter.
    DeviceNotFound,
    /// The device offers no USBTMC interface.
    DeviceIncompatible,
    /// The resolved configuration was not found on the device.
    ConfigurationNotFound,
    /// The resolved interface was not found in the configuration.
    InterfaceNotFound,
    /// The resolved alternate setting was not found on the interface.
    InterfaceSettingNotFound,
    /// The interface has no bulk-out endpoint.
    BulkOutEndpointNotFound,
    /// The interface has no bulk-in endpoint.
    BulkInEndpointNotFound,
    /// An endpoint's direction or transfer type does not fit its role.
    IncorrectEndpoint,
    /// A clear or abort poll found data still buffered in the bulk-in FIFO.
    BulkInFIFONotEmpty,
    /// The device reported that no transfer is in progress.
    StatusNoTransferInProgress,
    /// The device reported plain failure for a control request.
    StatusFailure,
    /// The device reported a status code the request does not expect.
    StatusUnexpectedFailure,
}

} // verus!
