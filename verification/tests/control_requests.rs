//! Tests of the control-request state machines: request builders and
//! response deciders for capabilities, clear, abort and status byte.

use rs_usbtmc::control::{
    check_abort_bulk_in_status, check_abort_bulk_in_status_request, check_abort_bulk_out_status,
    check_abort_bulk_out_status_request, check_clear_status, check_clear_status_request,
    clear_buffers, clear_buffers_request, get_capabilities, get_capabilities_request,
    initiate_abort_bulk_in, initiate_abort_bulk_in_request, initiate_abort_bulk_out,
    initiate_abort_bulk_out_request, read_status_byte, read_status_byte_request,
};
use rs_usbtmc::error::Error;
use rs_usbtmc::types::{BTag, Direction, Endpoint, TransferType};

fn bulk_out_ep() -> Endpoint {
    Endpoint {
        address: 0x02,
        max_packet_size: 64,
        transfer_type: TransferType::Bulk,
        direction: Direction::Out,
    }
}

fn bulk_in_ep() -> Endpoint {
    Endpoint {
        address: 0x01,
        max_packet_size: 64,
        transfer_type: TransferType::Bulk,
        direction: Direction::In,
    }
}

#[test]
fn get_capabilities_request_fields() {
    let r = get_capabilities_request(3);
    assert_eq!(r.request_type, 0xA1);
    assert_eq!(r.request, 7);
    assert_eq!(r.value, 0);
    assert_eq!(r.index, 3);
    assert_eq!(r.length, 24);
}

#[test]
fn get_capabilities_decodes_flags() {
    // Status success, bcd 0x0130, interface capabilities
    // 0b101 (pulse yes, talk-only no, listen-only yes), device
    // capabilities 0b1 (terminator character supported).
    let mut buffer = vec![0_u8; 24];
    buffer[0] = 0x01;
    buffer[2] = 0x30;
    buffer[3] = 0x01;
    buffer[4] = 0b0000_0101;
    buffer[5] = 0b0000_0001;
    let caps = get_capabilities(&buffer).unwrap();
    assert_eq!(caps.bcd_version, 0x0130);
    assert!(caps.accepts_indicator_pulse_request);
    assert!(!caps.is_talk_only);
    assert!(caps.is_listen_only);
    assert!(caps.supports_bulk_in_term_char);
}

#[test]
fn get_capabilities_rejects_other_status() {
    let mut buffer = vec![0_u8; 24];
    buffer[0] = 0x80;
    assert_eq!(get_capabilities(&buffer), Err(Error::StatusUnexpectedFailure));
}

#[test]
fn clear_buffers_requests_fields() {
    let r = clear_buffers_request(2);
    assert_eq!((r.request_type, r.request, r.value, r.index, r.length), (0xA1, 5, 0, 2, 1));
    let r = check_clear_status_request(2);
    assert_eq!((r.request_type, r.request, r.value, r.index, r.length), (0xA1, 6, 0, 2, 2));
}

#[test]
fn clear_buffers_initiate_must_succeed() {
    assert_eq!(clear_buffers(&vec![0x01]), Ok(()));
    assert_eq!(clear_buffers(&vec![0x02]), Err(Error::StatusUnexpectedFailure));
    assert_eq!(clear_buffers(&vec![0x80]), Err(Error::StatusUnexpectedFailure));
}

#[test]
fn clear_poll_pending_with_data_fails_at_once() {
    // The first CHECK_CLEAR_STATUS poll reports PENDING with
    // the FIFO-empty flag clear; the protocol fails immediately with the
    // FIFO-not-empty error instead of polling on.
    assert_eq!(check_clear_status(&vec![0x02, 0x00]), Err(Error::BulkInFIFONotEmpty));
}

#[test]
fn clear_poll_decisions() {
    assert_eq!(check_clear_status(&vec![0x01, 0x00]), Ok(true));
    assert_eq!(check_clear_status(&vec![0x02, 0x01]), Ok(false));
    assert_eq!(check_clear_status(&vec![0x83, 0x01]), Err(Error::StatusUnexpectedFailure));
}

#[test]
fn abort_bulk_out_request_fields() {
    let r = initiate_abort_bulk_out_request(&bulk_out_ep(), 5).unwrap();
    assert_eq!(r.request_type, 0xA2);
    assert_eq!(r.request, 1);
    assert_eq!(r.value, 5 * 256);
    assert_eq!(r.index, 0x0200);
    assert_eq!(r.length, 2);
    let r = check_abort_bulk_out_status_request(&bulk_out_ep()).unwrap();
    assert_eq!((r.request_type, r.request, r.value, r.index, r.length), (0xA2, 2, 0, 0x0200, 8));
}

#[test]
fn abort_bulk_out_rejects_wrong_endpoint() {
    let r = initiate_abort_bulk_out_request(&bulk_in_ep(), 5);
    assert_eq!(r, Err(Error::IncorrectEndpoint));
    let r = check_abort_bulk_out_status_request(&bulk_in_ep());
    assert_eq!(r, Err(Error::IncorrectEndpoint));
}

#[test]
fn abort_initiate_status_map() {
    assert_eq!(initiate_abort_bulk_out(&vec![0x01]), Ok(()));
    assert_eq!(initiate_abort_bulk_out(&vec![0x80]), Err(Error::StatusFailure));
    assert_eq!(initiate_abort_bulk_out(&vec![0x81]), Err(Error::StatusNoTransferInProgress));
    assert_eq!(initiate_abort_bulk_out(&vec![0x82]), Err(Error::StatusUnexpectedFailure));
    assert_eq!(initiate_abort_bulk_in(&vec![0x01]), Ok(()));
    assert_eq!(initiate_abort_bulk_in(&vec![0x80]), Err(Error::StatusFailure));
    assert_eq!(initiate_abort_bulk_in(&vec![0x81]), Err(Error::StatusNoTransferInProgress));
    assert_eq!(initiate_abort_bulk_in(&vec![0x02]), Err(Error::StatusUnexpectedFailure));
}

#[test]
fn abort_bulk_out_poll_reads_count_little_endian() {
    let response = vec![0x01, 0, 0, 0, 0x10, 0x20, 0x00, 0x00];
    assert_eq!(check_abort_bulk_out_status(&response), Ok(Some(0x2010)));
    // Pending polls on without a FIFO check on the bulk-out side.
    let response = vec![0x02, 0x00, 0, 0, 0, 0, 0, 0];
    assert_eq!(check_abort_bulk_out_status(&response), Ok(None));
    let response = vec![0x83, 0, 0, 0, 0, 0, 0, 0];
    assert_eq!(check_abort_bulk_out_status(&response), Err(Error::StatusUnexpectedFailure));
}

#[test]
fn abort_bulk_in_request_sets_direction_bit() {
    let r = initiate_abort_bulk_in_request(&bulk_in_ep(), 9).unwrap();
    assert_eq!(r.request_type, 0xA2);
    assert_eq!(r.request, 3);
    assert_eq!(r.value, 9 * 256);
    assert_eq!(r.index, 0x8100);
    assert_eq!(r.length, 2);
    let r = check_abort_bulk_in_status_request(&bulk_in_ep()).unwrap();
    assert_eq!((r.request_type, r.request, r.value, r.index, r.length), (0xA2, 4, 0, 0x8100, 8));
    assert_eq!(initiate_abort_bulk_in_request(&bulk_out_ep(), 9), Err(Error::IncorrectEndpoint));
    assert_eq!(check_abort_bulk_in_status_request(&bulk_out_ep()), Err(Error::IncorrectEndpoint));
}

#[test]
fn abort_bulk_in_poll_checks_fifo() {
    let response = vec![0x01, 0, 0, 0, 0x03, 0x00, 0x01, 0x00];
    assert_eq!(check_abort_bulk_in_status(&response), Ok(Some(0x10003)));
    let response = vec![0x02, 0x01, 0, 0, 0, 0, 0, 0];
    assert_eq!(check_abort_bulk_in_status(&response), Ok(None));
    let response = vec![0x02, 0x00, 0, 0, 0, 0, 0, 0];
    assert_eq!(check_abort_bulk_in_status(&response), Err(Error::BulkInFIFONotEmpty));
    let response = vec![0x82, 0x01, 0, 0, 0, 0, 0, 0];
    assert_eq!(check_abort_bulk_in_status(&response), Err(Error::StatusUnexpectedFailure));
}

#[test]
fn read_status_byte_takes_a_fresh_btag() {
    let mut btag = BTag::new();
    let r = read_status_byte_request(4, &mut btag);
    assert_eq!(r.request_type, 0xA1);
    assert_eq!(r.request, 128);
    assert_eq!(r.value, 1);
    assert_eq!(r.index, 4);
    assert_eq!(r.length, 3);
    assert_eq!(btag.get(), 2);
}

#[test]
fn read_status_byte_status_map() {
    assert_eq!(read_status_byte(&vec![0x01, 0, 0x42]), Ok(0x42));
    assert_eq!(read_status_byte(&vec![0x80, 0, 0]), Err(Error::StatusFailure));
    assert_eq!(read_status_byte(&vec![0x02, 0, 0]), Err(Error::StatusUnexpectedFailure));
}
