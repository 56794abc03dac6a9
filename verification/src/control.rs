//! The control-endpoint request state machines: capability discovery,
//! buffer clearing, the initiate-then-poll abort protocols, and the
//! status-byte read.
//!
//! Each protocol is split into request builders, which compute the exact
//! control request the host must issue, and response deciders, which
//! interpret the device's status bytes.  The embedding application executes
//! the requests and feeds the responses back; every decision is made here.
//! The poll protocols (clear, aborts) share one shape: an initiate request
//! that must succeed, then a check request repeated while the device
//! reports `STATUS_PENDING`, ending on `STATUS_SUCCESS` or a failure.

use crate::constants::{
    CHECK_ABORT_BULK_IN_STATUS, CHECK_ABORT_BULK_OUT_STATUS, CHECK_CLEAR_STATUS,
    CONTROL_IN_CLASS_ENDPOINT, CONTROL_IN_CLASS_INTERFACE, GET_CAPABILITIES,
    INITIATE_ABORT_BULK_IN, INITIATE_ABORT_BULK_OUT, INITIATE_CLEAR, READ_STATUS_BYTE,
    STATUS_FAILED, STATUS_PENDING, STATUS_SUCCESS, STATUS_TRANSFER_NOT_IN_PROGRESS,
};
use crate::error::Error;
use crate::types::{
    is_valid_bulk_in, is_valid_bulk_out, spec_advance_btag, BTag, Capabilities, Endpoint,
};
use vstd::prelude::*;

verus! {

/// One control request, ready to execute: the bmRequestType byte, the
/// bRequest number, the wValue and wIndex fields, and the length of the
/// response buffer the request expects.
#[derive(Clone, Copy, Debug, PartialEq, Eq, Structural)]
pub struct ControlRequest {
    pub request_type: u8,
    pub request: u8,
    pub value: u16,
    pub index: u16,
    pub length: usize,
}

/// The count field of a poll response: bytes 4 to 7, little-endian.
pub open spec fn spec_le32_at4(resp: Seq<u8>) -> int {
    resp[4] + 256 * (resp[5] + 256 * (resp[6] + 256 * resp[7]))
}

// ==========================================================================
// GET_CAPABILITIES: one round trip
// ==========================================================================

/// The GET_CAPABILITIES request for interface `interface_number`: a class
/// device-to-host request addressed to the interface, expecting a 24-byte
/// response.
pub fn get_capabilities_request(interface_number: u8) -> (r: ControlRequest)
    ensures
        r.request_type == CONTROL_IN_CLASS_INTERFACE,
        r.request == GET_CAPABILITIES,
        r.value == 0,
        r.index == interface_number,
        r.length == 24,
{
    ControlRequest {
        request_type: CONTROL_IN_CLASS_INTERFACE,
        request: GET_CAPABILITIES,
        value: 0,
        index: interface_number as u16,
        length: 24,
    }
}

/// Decides a GET_CAPABILITIES response.  Succeeds exactly when the status
/// byte reports success, and then extracts the binary-coded version from
/// bytes 2 and 3 (little-endian) and the capability flags from the
/// interface-capability byte 4 and the device-capability byte 5.
pub fn get_capabilities(response: &Vec<u8>) -> (r: Result<Capabilities, Error>)
    requires
        response@.len() >= 6,
    ensures
        response@[0] == STATUS_SUCCESS <==> r is Ok,
        r matches Err(e) ==> e is StatusUnexpectedFailure,
        r matches Ok(c) ==> {
            &&& c.bcd_version == response@[2] + 256 * response@[3]
            &&& c.accepts_indicator_pulse_request == (response@[4] & 0b0000_0100 != 0)
            &&& c.is_talk_only == (response@[4] & 0b0000_0010 != 0)
            &&& c.is_listen_only == (response@[4] & 0b0000_0001 != 0)
            &&& c.supports_bulk_in_term_char == (response@[5] & 0b0000_0001 != 0)
        },
{
    let status = response[0];
    if status != STATUS_SUCCESS {
        return Err(Error::StatusUnexpectedFailure);
    }
    let bcd_version: u16 = response[2] as u16 + 256 * response[3] as u16;
    let interface_capabilities = response[4];
    let device_capabilities = response[5];
    Ok(
        Capabilities {
            bcd_version,
            accepts_indicator_pulse_request: interface_capabilities & 0b0000_0100 != 0,
            is_talk_only: interface_capabilities & 0b0000_0010 != 0,
            is_listen_only: interface_capabilities & 0b0000_0001 != 0,
            supports_bulk_in_term_char: device_capabilities & 0b0000_0001 != 0,
        },
    )
}

// ==========================================================================
// Clear buffers: INITIATE_CLEAR, then CHECK_CLEAR_STATUS polled
// ==========================================================================

/// The INITIATE_CLEAR request for interface `interface_number`, expecting
/// a 1-byte response.  The caller must ensure no bulk transfer is in
/// flight before starting the clear protocol.
pub fn clear_buffers_request(interface_number: u8) -> (r: ControlRequest)
    ensures
        r.request_type == CONTROL_IN_CLASS_INTERFACE,
        r.request == INITIATE_CLEAR,
        r.value == 0,
        r.index == interface_number,
        r.length == 1,
{
    ControlRequest {
        request_type: CONTROL_IN_CLASS_INTERFACE,
        request: INITIATE_CLEAR,
        value: 0,
        index: interface_number as u16,
        length: 1,
    }
}

/// Decides an INITIATE_CLEAR response: the clear protocol may continue
/// exactly when the device reports success; any other status is an
/// unexpected failure.
pub fn clear_buffers(response: &Vec<u8>) -> (r: Result<(), Error>)
    requires
        response@.len() >= 1,
    ensures
        r == (if response@[0] == STATUS_SUCCESS {
            Ok::<(), Error>(())
        } else {
            Err::<(), Error>(Error::StatusUnexpectedFailure)
        }),
{
    if response[0] == STATUS_SUCCESS {
        Ok(())
    } else {
        Err(Error::StatusUnexpectedFailure)
    }
}

/// The CHECK_CLEAR_STATUS request for interface `interface_number`,
/// expecting a 2-byte response.
pub fn check_clear_status_request(interface_number: u8) -> (r: ControlRequest)
    ensures
        r.request_type == CONTROL_IN_CLASS_INTERFACE,
        r.request == CHECK_CLEAR_STATUS,
        r.value == 0,
        r.index == interface_number,
        r.length == 2,
{
    ControlRequest {
        request_type: CONTROL_IN_CLASS_INTERFACE,
        request: CHECK_CLEAR_STATUS,
        value: 0,
        index: interface_number as u16,
        length: 2,
    }
}

/// Decides one CHECK_CLEAR_STATUS poll response.  Success ends the loop
/// (`Ok(true)`); pending with the bulk-in FIFO empty (byte 1 equal to 1)
/// continues it (`Ok(false)`); pending with data still buffered fails at
/// once with `BulkInFIFONotEmpty` rather than polling on; any other
/// status is an unexpected failure.
pub fn check_clear_status(response: &Vec<u8>) -> (r: Result<bool, Error>)
    requires
        response@.len() >= 2,
    ensures
        r == (if response@[0] == STATUS_SUCCESS {
            Ok::<bool, Error>(true)
        } else if response@[0] == STATUS_PENDING && response@[1] == 1 {
            Ok::<bool, Error>(false)
        } else if response@[0] == STATUS_PENDING {
            Err::<bool, Error>(Error::BulkInFIFONotEmpty)
        } else {
            Err::<bool, Error>(Error::StatusUnexpectedFailure)
        }),
{
    let status = response[0];
    if status == STATUS_SUCCESS {
        Ok(true)
    } else if status == STATUS_PENDING {
        // The FIFO-empty flag must be set while the clear is pending.
        if response[1] == 1 {
            Ok(false)
        } else {
            Err(Error::BulkInFIFONotEmpty)
        }
    } else {
        Err(Error::StatusUnexpectedFailure)
    }
}

// ==========================================================================
// Abort bulk-out: INITIATE_ABORT_BULK_OUT, then its status polled
// ==========================================================================

/// The INITIATE_ABORT_BULK_OUT request: a class device-to-host request
/// addressed to the bulk-out endpoint, carrying the bTag of the transfer
/// to abort in the high byte of wValue and the endpoint address in the
/// high byte of wIndex, expecting a 2-byte response.  An endpoint that is
/// not bulk-out is rejected with `IncorrectEndpoint`.
pub fn initiate_abort_bulk_out_request(bulk_out_endpoint: &Endpoint, transfer_btag: u8) -> (r:
    Result<ControlRequest, Error>)
    ensures
        r is Ok <==> is_valid_bulk_out(*bulk_out_endpoint),
        r matches Err(e) ==> e is IncorrectEndpoint,
        r matches Ok(cr) ==> {
            &&& cr.request_type == CONTROL_IN_CLASS_ENDPOINT
            &&& cr.request == INITIATE_ABORT_BULK_OUT
            &&& cr.value == transfer_btag as u16 * 256
            &&& cr.index == bulk_out_endpoint.address as u16 * 256
            &&& cr.length == 2
        },
{
    if !(bulk_out_endpoint.direction == crate::types::Direction::Out
        && bulk_out_endpoint.transfer_type == crate::types::TransferType::Bulk) {
        return Err(Error::IncorrectEndpoint);
    }
    Ok(
        ControlRequest {
            request_type: CONTROL_IN_CLASS_ENDPOINT,
            request: INITIATE_ABORT_BULK_OUT,
            value: transfer_btag as u16 * 256,
            index: bulk_out_endpoint.address as u16 * 256,
            length: 2,
        },
    )
}

/// Decides an INITIATE_ABORT_BULK_OUT response: success lets the poll
/// begin; plain failure, no-transfer-in-progress and every other status
/// map to their errors.
pub fn initiate_abort_bulk_out(response: &Vec<u8>) -> (r: Result<(), Error>)
    requires
        response@.len() >= 1,
    ensures
        r == (if response@[0] == STATUS_SUCCESS {
            Ok::<(), Error>(())
        } else if response@[0] == STATUS_FAILED {
            Err::<(), Error>(Error::StatusFailure)
        } else if response@[0] == STATUS_TRANSFER_NOT_IN_PROGRESS {
            Err::<(), Error>(Error::StatusNoTransferInProgress)
        } else {
            Err::<(), Error>(Error::StatusUnexpectedFailure)
        }),
{
    let status = response[0];
    if status == STATUS_SUCCESS {
        Ok(())
    } else if status == STATUS_FAILED {
        Err(Error::StatusFailure)
    } else if status == STATUS_TRANSFER_NOT_IN_PROGRESS {
        Err(Error::StatusNoTransferInProgress)
    } else {
        Err(Error::StatusUnexpectedFailure)
    }
}

/// The CHECK_ABORT_BULK_OUT_STATUS request for the same endpoint,
/// expecting an 8-byte response.  An endpoint that is not bulk-out is
/// rejected with `IncorrectEndpoint`.
pub fn check_abort_bulk_out_status_request(bulk_out_endpoint: &Endpoint) -> (r: Result<
    ControlRequest,
    Error,
>)
    ensures
        r is Ok <==> is_valid_bulk_out(*bulk_out_endpoint),
        r matches Err(e) ==> e is IncorrectEndpoint,
        r matches Ok(cr) ==> {
            &&& cr.request_type == CONTROL_IN_CLASS_ENDPOINT
            &&& cr.request == CHECK_ABORT_BULK_OUT_STATUS
            &&& cr.value == 0
            &&& cr.index == bulk_out_endpoint.address as u16 * 256
            &&& cr.length == 8
        },
{
    if !(bulk_out_endpoint.direction == crate::types::Direction::Out
        && bulk_out_endpoint.transfer_type == crate::types::TransferType::Bulk) {
        return Err(Error::IncorrectEndpoint);
    }
    Ok(
        ControlRequest {
            request_type: CONTROL_IN_CLASS_ENDPOINT,
            request: CHECK_ABORT_BULK_OUT_STATUS,
            value: 0,
            index: bulk_out_endpoint.address as u16 * 256,
            length: 8,
        },
    )
}

/// Decides one CHECK_ABORT_BULK_OUT_STATUS poll response.  Pending
/// continues the loop (`Ok(None)`); success ends it and yields the number
/// of bytes the device received and did not discard, read little-endian
/// from bytes 4 to 7 (`Ok(Some(count))`); any other status is an
/// unexpected failure.
pub fn check_abort_bulk_out_status(response: &Vec<u8>) -> (r: Result<Option<usize>, Error>)
    requires
        response@.len() >= 8,
    ensures
        r == (if response@[0] == STATUS_SUCCESS {
            Ok::<Option<usize>, Error>(Some(spec_le32_at4(response@) as usize))
        } else if response@[0] == STATUS_PENDING {
            Ok::<Option<usize>, Error>(None)
        } else {
            Err::<Option<usize>, Error>(Error::StatusUnexpectedFailure)
        }),
{
    let status = response[0];
    if status == STATUS_SUCCESS {
        let count: u32 = response[4] as u32 + 256 * (response[5] as u32 + 256 * (response[6] as u32
            + 256 * response[7] as u32));
        Ok(Some(count as usize))
    } else if status == STATUS_PENDING {
        Ok(None)
    } else {
        Err(Error::StatusUnexpectedFailure)
    }
}

// ==========================================================================
// Abort bulk-in: INITIATE_ABORT_BULK_IN, then its status polled
// ==========================================================================

/// The INITIATE_ABORT_BULK_IN request: as for bulk-out, but addressed to
/// the bulk-in endpoint, whose address carries the direction bit.  An
/// endpoint that is not bulk-in is rejected with `IncorrectEndpoint`.
pub fn initiate_abort_bulk_in_request(bulk_in_endpoint: &Endpoint, transfer_btag: u8) -> (r: Result<
    ControlRequest,
    Error,
>)
    ensures
        r is Ok <==> is_valid_bulk_in(*bulk_in_endpoint),
        r matches Err(e) ==> e is IncorrectEndpoint,
        r matches Ok(cr) ==> {
            &&& cr.request_type == CONTROL_IN_CLASS_ENDPOINT
            &&& cr.request == INITIATE_ABORT_BULK_IN
            &&& cr.value == transfer_btag as u16 * 256
            &&& cr.index == (0x80u8 | bulk_in_endpoint.address) as u16 * 256
            &&& cr.length == 2
        },
{
    if !(bulk_in_endpoint.direction == crate::types::Direction::In
        && bulk_in_endpoint.transfer_type == crate::types::TransferType::Bulk) {
        return Err(Error::IncorrectEndpoint);
    }
    Ok(
        ControlRequest {
            request_type: CONTROL_IN_CLASS_ENDPOINT,
            request: INITIATE_ABORT_BULK_IN,
            value: transfer_btag as u16 * 256,
            index: (0x80u8 | bulk_in_endpoint.address) as u16 * 256,
            length: 2,
        },
    )
}

/// Decides an INITIATE_ABORT_BULK_IN response, with the same status map
/// as the bulk-out abort.
pub fn initiate_abort_bulk_in(response: &Vec<u8>) -> (r: Result<(), Error>)
    requires
        response@.len() >= 1,
    ensures
        r == (if response@[0] == STATUS_SUCCESS {
            Ok::<(), Error>(())
        } else if response@[0] == STATUS_FAILED {
            Err::<(), Error>(Error::StatusFailure)
        } else if response@[0] == STATUS_TRANSFER_NOT_IN_PROGRESS {
            Err::<(), Error>(Error::StatusNoTransferInProgress)
        } else {
            Err::<(), Error>(Error::StatusUnexpectedFailure)
        }),
{
    let status = response[0];
    if status == STATUS_SUCCESS {
        Ok(())
    } else if status == STATUS_FAILED {
        Err(Error::StatusFailure)
    } else if status == STATUS_TRANSFER_NOT_IN_PROGRESS {
        Err(Error::StatusNoTransferInProgress)
    } else {
        Err(Error::StatusUnexpectedFailure)
    }
}

/// The CHECK_ABORT_BULK_IN_STATUS request for the same endpoint,
/// expecting an 8-byte response.  An endpoint that is not bulk-in is
/// rejected with `IncorrectEndpoint`.
pub fn check_abort_bulk_in_status_request(bulk_in_endpoint: &Endpoint) -> (r: Result<
    ControlRequest,
    Error,
>)
    ensures
        r is Ok <==> is_valid_bulk_in(*bulk_in_endpoint),
        r matches Err(e) ==> e is IncorrectEndpoint,
        r matches Ok(cr) ==> {
            &&& cr.request_type == CONTROL_IN_CLASS_ENDPOINT
            &&& cr.request == CHECK_ABORT_BULK_IN_STATUS
            &&& cr.value == 0
            &&& cr.index == (0x80u8 | bulk_in_endpoint.address) as u16 * 256
            &&& cr.length == 8
        },
{
    if !(bulk_in_endpoint.direction == crate::types::Direction::In
        && bulk_in_endpoint.transfer_type == crate::types::TransferType::Bulk) {
        return Err(Error::IncorrectEndpoint);
    }
    Ok(
        ControlRequest {
            request_type: CONTROL_IN_CLASS_ENDPOINT,
            request: CHECK_ABORT_BULK_IN_STATUS,
            value: 0,
            index: (0x80u8 | bulk_in_endpoint.address) as u16 * 256,
            length: 8,
        },
    )
}

/// Decides one CHECK_ABORT_BULK_IN_STATUS poll response.  Pending with
/// the bulk-in FIFO empty (byte 1 equal to 1) continues the loop
/// (`Ok(None)`); pending with data still buffered fails at once with
/// `BulkInFIFONotEmpty`; success ends the loop and yields the number of
/// bytes the device sent, read little-endian from bytes 4 to 7; any other
/// status is an unexpected failure.
pub fn check_abort_bulk_in_status(response: &Vec<u8>) -> (r: Result<Option<usize>, Error>)
    requires
        response@.len() >= 8,
    ensures
        r == (if response@[0] == STATUS_SUCCESS {
            Ok::<Option<usize>, Error>(Some(spec_le32_at4(response@) as usize))
        } else if response@[0] == STATUS_PENDING && response@[1] == 1 {
            Ok::<Option<usize>, Error>(None)
        } else if response@[0] == STATUS_PENDING {
            Err::<Option<usize>, Error>(Error::BulkInFIFONotEmpty)
        } else {
            Err::<Option<usize>, Error>(Error::StatusUnexpectedFailure)
        }),
{
    let status = response[0];
    if status == STATUS_SUCCESS {
        let count: u32 = response[4] as u32 + 256 * (response[5] as u32 + 256 * (response[6] as u32
            + 256 * response[7] as u32));
        Ok(Some(count as usize))
    } else if status == STATUS_PENDING {
        // The FIFO-empty flag must be set while the abort is pending.
        if response[1] == 1 {
            Ok(None)
        } else {
            Err(Error::BulkInFIFONotEmpty)
        }
    } else {
        Err(Error::StatusUnexpectedFailure)
    }
}

// ==========================================================================
// READ_STATUS_BYTE: one round trip
// ==========================================================================

/// The READ_STATUS_BYTE request for interface `interface_number`: it
/// takes one fresh bTag from the session's generator and carries it in
/// wValue, expecting a 3-byte response.
pub fn read_status_byte_request(interface_number: u8, btag: &mut BTag) -> (r: ControlRequest)
    ensures
        r.request_type == CONTROL_IN_CLASS_INTERFACE,
        r.request == READ_STATUS_BYTE,
        r.value == old(btag)@,
        r.index == interface_number,
        r.length == 3,
        final(btag)@ == spec_advance_btag(old(btag)@),
{
    let b = btag.get();
    ControlRequest {
        request_type: CONTROL_IN_CLASS_INTERFACE,
        request: READ_STATUS_BYTE,
        value: b as u16,
        index: interface_number as u16,
        length: 3,
    }
}

/// Decides a READ_STATUS_BYTE response: success yields the status byte at
/// offset 2, plain failure and every other status map to their errors.
pub fn read_status_byte(response: &Vec<u8>) -> (r: Result<u8, Error>)
    requires
        response@.len() >= 3,
    ensures
        r == (if response@[0] == STATUS_SUCCESS {
            Ok::<u8, Error>(response@[2])
        } else if response@[0] == STATUS_FAILED {
            Err::<u8, Error>(Error::StatusFailure)
        } else {
            Err::<u8, Error>(Error::StatusUnexpectedFailure)
        }),
{
    let status = response[0];
    if status == STATUS_SUCCESS {
        Ok(response[2])
    } else if status == STATUS_FAILED {
        Err(Error::StatusFailure)
    } else {
        Err(Error::StatusUnexpectedFailure)
    }
}

} // verus!
