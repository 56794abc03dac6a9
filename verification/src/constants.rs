//! Constants of the USBTMC protocol: class codes, status codes, control
//! request numbers, bulk message ids, and the sizes the engines use.

use vstd::prelude::*;

verus! {

// USB class identification of a USBTMC interface.

/// The interface class code for USBTMC.
pub const USBTMC_CLASS_CODE: u8 = 0xFE;
/// The interface subclass code for USBTMC.
pub const USBTMC_SUBCLASS_CODE: u8 = 0x03;
/// The interface protocol code for the USB488 flavour of USBTMC.
pub const USBTMC_PROTOCOL_CODE: u8 = 0x01;

// Sizes and defaults.

/// The default timeout for a single transfer, in milliseconds.
pub const DEFAULT_TIMEOUT_MS: u64 = 2000;
/// The size in bytes of a USBTMC bulk-transfer header.
pub const USBTMC_HEADER_SIZE: usize = 12;
/// The largest payload carried by one bulk-out transaction.
pub const APPLICATION_BUFFER_SIZE: u32 = 1024 * 8;
/// The default response terminator character (the NI-VISA default, `\n`).
pub const DEFAULT_TERM_CHAR: u8 = 0x0A;

// The device status vocabulary shared by all control requests.

/// The request completed.
pub const STATUS_SUCCESS: u8 = 0x01;
/// A split-transaction status check is still being processed.
pub const STATUS_PENDING: u8 = 0x02;
/// The request failed for an unspecified reason.
pub const STATUS_FAILED: u8 = 0x80;
/// An abort was requested for a transfer that is not in progress.
pub const STATUS_TRANSFER_NOT_IN_PROGRESS: u8 = 0x81;
/// A status check arrived with no initiate request being processed.
pub const STATUS_SPLIT_NOT_IN_PROGRESS: u8 = 0x82;
/// An initiate request arrived while another one is being processed.
pub const STATUS_SPLIT_IN_PROGRESS: u8 = 0x83;

// Control request numbers (bRequest values).

pub const INITIATE_ABORT_BULK_OUT: u8 = 1;
pub const CHECK_ABORT_BULK_OUT_STATUS: u8 = 2;
pub const INITIATE_ABORT_BULK_IN: u8 = 3;
pub const CHECK_ABORT_BULK_IN_STATUS: u8 = 4;
pub const INITIATE_CLEAR: u8 = 5;
pub const CHECK_CLEAR_STATUS: u8 = 6;
pub const GET_CAPABILITIES: u8 = 7;
pub const INDICATOR_PULSE: u8 = 64;
pub const READ_STATUS_BYTE: u8 = 128;

// Bulk message ids (byte 0 of a bulk-transfer header).

pub const DEVICE_DEPENDENT_MSG_OUT: u8 = 1;
pub const REQUEST_DEVICE_DEPENDENT_MSG_IN: u8 = 2;
pub const VENDOR_SPECIFIC_MSG_OUT: u8 = 126;
pub const REQUEST_VENDOR_SPECIFIC_MSG_IN: u8 = 127;

// bmRequestType values, laid out as the USB standard defines them:
// bit 7 the direction (1 = device to host), bits 6..5 the type
// (1 = class), bits 4..0 the recipient (1 = interface, 2 = endpoint).

/// Class request, device-to-host, addressed to an interface.
pub const CONTROL_IN_CLASS_INTERFACE: u8 = 0xA1;
/// Class request, device-to-host, addressed to an endpoint.
pub const CONTROL_IN_CLASS_ENDPOINT: u8 = 0xA2;

} // verus!
