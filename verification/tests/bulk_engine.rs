//! Tests of the bulk engines: header codec, write segmentation and
//! padding, and read reassembly.

use rs_usbtmc::bulk::{
    _request_vendor_specific_in_header, _vendor_specific_out_header,
    device_dependent_msg_out_header, read, request_device_dependent_msg_in_header,
};
use rs_usbtmc::error::Error;
use rs_usbtmc::types::{BTag, Capabilities, Direction, Endpoint, TransferType};

fn bulk_out(max_packet_size: u16) -> Endpoint {
    Endpoint {
        address: 0x02,
        max_packet_size,
        transfer_type: TransferType::Bulk,
        direction: Direction::Out,
    }
}

fn bulk_in(max_packet_size: u16) -> Endpoint {
    Endpoint {
        address: 0x81,
        max_packet_size,
        transfer_type: TransferType::Bulk,
        direction: Direction::In,
    }
}

fn caps(term_char: bool) -> Capabilities {
    Capabilities {
        bcd_version: 0x0100,
        accepts_indicator_pulse_request: false,
        is_talk_only: false,
        is_listen_only: false,
        supports_bulk_in_term_char: term_char,
    }
}

#[test]
fn out_header_layout() {
    let h = device_dependent_msg_out_header(5, 0x01020304, false).unwrap();
    assert_eq!(h, [1, 5, 250, 0, 0x04, 0x03, 0x02, 0x01, 0, 0, 0, 0]);
}

#[test]
fn out_header_end_of_message_bit() {
    let h = device_dependent_msg_out_header(9, 17, true).unwrap();
    assert_eq!(h, [1, 9, 246, 0, 17, 0, 0, 0, 1, 0, 0, 0]);
}

#[test]
fn header_byte2_is_complement_of_btag() {
    let mut b: u16 = 1;
    while b <= 255 {
        let h = device_dependent_msg_out_header(b as u8, 0, false).unwrap();
        assert_eq!(h[2], !(b as u8));
        assert_eq!(h[2], !h[1]);
        let h = request_device_dependent_msg_in_header(b as u8, 64, None).unwrap();
        assert_eq!(h[2], !h[1]);
        b += 1;
    }
}

#[test]
fn in_request_header_with_term_char() {
    let h = request_device_dependent_msg_in_header(7, 64, Some(0x0A)).unwrap();
    assert_eq!(h, [2, 7, 248, 0, 64, 0, 0, 0, 2, 0x0A, 0, 0]);
}

#[test]
fn in_request_header_without_term_char() {
    let h = request_device_dependent_msg_in_header(7, 512, None).unwrap();
    assert_eq!(h, [2, 7, 248, 0, 0, 2, 0, 0, 0, 0, 0, 0]);
}

#[test]
fn vendor_headers_layout() {
    let h = _vendor_specific_out_header(3, 10).unwrap();
    assert_eq!(h, [126, 3, 252, 0, 10, 0, 0, 0, 0, 0, 0, 0]);
    let h = _request_vendor_specific_in_header(3, 10).unwrap();
    assert_eq!(h, [127, 3, 252, 0, 10, 0, 0, 0, 0, 0, 0, 0]);
}

#[test]
fn btag_sequence_advances_and_wraps() {
    let mut btag = BTag::new();
    assert_eq!(btag.get(), 1);
    assert_eq!(btag.get(), 2);
    let mut n = 0;
    while n < 252 {
        btag.get();
        n += 1;
    }
    assert_eq!(btag.get(), 255);
    // 255 wraps to 1: the generator never emits 0.
    assert_eq!(btag.get(), 1);
}

#[test]
fn write_idn_query_single_transaction() {
    // "*IDN?" (5 bytes) on a 64-byte endpoint gives one
    // transaction, one wire transfer of 12 + 5 = 17 bytes padded to 20.
    let data: Vec<u8> = b"*IDN?".to_vec();
    let mut btag = BTag::new();
    let transfers = rs_usbtmc::bulk::write(&data, &mut btag, &bulk_out(64)).unwrap();
    assert_eq!(transfers.len(), 1);
    assert_eq!(transfers[0].len(), 20);
    assert_eq!(&transfers[0][..12], &[1, 1, 254, 0, 5, 0, 0, 0, 1, 0, 0, 0]);
    assert_eq!(&transfers[0][12..17], b"*IDN?");
    assert_eq!(&transfers[0][17..], &[0, 0, 0]);
}

#[test]
fn write_empty_payload_sends_nothing() {
    let mut btag = BTag::new();
    let transfers = rs_usbtmc::bulk::write(&Vec::new(), &mut btag, &bulk_out(64)).unwrap();
    assert!(transfers.is_empty());
    // No transaction was made, so no bTag was consumed.
    assert_eq!(btag.get(), 1);
}

#[test]
fn write_exact_buffer_size_is_one_transaction() {
    let data = vec![0xAB_u8; 8192];
    let mut btag = BTag::new();
    let transfers = rs_usbtmc::bulk::write(&data, &mut btag, &bulk_out(8204)).unwrap();
    assert_eq!(transfers.len(), 1);
    assert_eq!(transfers[0].len(), 8204);
    assert_eq!(&transfers[0][..12], &[1, 1, 254, 0, 0, 32, 0, 0, 1, 0, 0, 0]);
    assert_eq!(btag.get(), 2);
}

#[test]
fn write_splits_transactions_and_marks_only_last_eom() {
    // 8192 + 5 bytes: two transactions, each a single wire transfer on a
    // large endpoint; only the second header carries the EOM bit.
    let data = vec![0x55_u8; 8197];
    let mut btag = BTag::new();
    let transfers = rs_usbtmc::bulk::write(&data, &mut btag, &bulk_out(8204)).unwrap();
    assert_eq!(transfers.len(), 2);
    assert_eq!(transfers[0].len(), 8204);
    assert_eq!(&transfers[0][..12], &[1, 1, 254, 0, 0, 32, 0, 0, 0, 0, 0, 0]);
    assert_eq!(transfers[1].len(), 20);
    assert_eq!(&transfers[1][..12], &[1, 2, 253, 0, 5, 0, 0, 0, 1, 0, 0, 0]);
    // One bTag per transaction, none per wire transfer.
    assert_eq!(btag.get(), 3);
}

#[test]
fn write_pads_every_transfer_to_multiple_of_four() {
    // A 15-byte transaction on a 10-byte endpoint: chunks of 10 and 5
    // bytes, padded to 12 and 8.
    let data = vec![0xEE_u8; 3];
    let mut btag = BTag::new();
    let transfers = rs_usbtmc::bulk::write(&data, &mut btag, &bulk_out(10)).unwrap();
    assert_eq!(transfers.len(), 2);
    assert_eq!(transfers[0].len(), 12);
    assert_eq!(transfers[1].len(), 8);
    assert_eq!(&transfers[1][..5], &[0, 0, 0xEE, 0xEE, 0xEE]);
    assert_eq!(&transfers[1][5..], &[0, 0, 0]);
}

#[test]
fn write_rejects_wrong_direction() {
    let mut btag = BTag::new();
    let ep = Endpoint {
        address: 0x81,
        max_packet_size: 64,
        transfer_type: TransferType::Bulk,
        direction: Direction::In,
    };
    let r = rs_usbtmc::bulk::write(&b"*RST".to_vec(), &mut btag, &ep);
    assert_eq!(r, Err(Error::IncorrectEndpoint));
    // The failed call consumed no bTag.
    assert_eq!(btag.get(), 1);
}

#[test]
fn write_rejects_wrong_transfer_type() {
    let mut btag = BTag::new();
    let ep = Endpoint {
        address: 0x02,
        max_packet_size: 64,
        transfer_type: TransferType::Interrupt,
        direction: Direction::Out,
    };
    assert_eq!(rs_usbtmc::bulk::write(&b"*RST".to_vec(), &mut btag, &ep), Err(Error::IncorrectEndpoint));
}

#[test]
fn read_builds_request_header_with_term_char() {
    let mut btag = BTag::new();
    let progress = read(&mut btag, &bulk_in(64), &bulk_out(64), &caps(true)).unwrap();
    assert_eq!(progress.request_header(), [2, 1, 254, 0, 64, 0, 0, 0, 2, 0x0A, 0, 0]);
    assert!(!progress.is_done());
    assert_eq!(btag.get(), 2);
}

#[test]
fn read_builds_request_header_without_term_char() {
    let mut btag = BTag::new();
    let progress = read(&mut btag, &bulk_in(512), &bulk_out(64), &caps(false)).unwrap();
    assert_eq!(progress.request_header(), [2, 1, 254, 0, 0, 2, 0, 0, 0, 0, 0, 0]);
}

#[test]
fn read_rejects_wrong_endpoints() {
    let mut btag = BTag::new();
    let r = read(&mut btag, &bulk_in(64), &bulk_in(64), &caps(true));
    assert!(matches!(r, Err(Error::IncorrectEndpoint)));
    let r = read(&mut btag, &bulk_out(64), &bulk_out(64), &caps(true));
    assert!(matches!(r, Err(Error::IncorrectEndpoint)));
    // The failed calls consumed no bTag.
    assert_eq!(btag.get(), 1);
}

#[test]
fn read_assembles_fragments_and_stops_on_eom() {
    let mut btag = BTag::new();
    let mut progress = read(&mut btag, &bulk_in(64), &bulk_out(64), &caps(true)).unwrap();

    // First fragment: header without the EOM bit, then two payload bytes.
    let mut buffer = vec![0_u8; 76];
    buffer[0] = 2;
    buffer[8] = 0;
    buffer[12] = b'A';
    buffer[13] = b'B';
    progress.push_fragment(&buffer, 14);
    assert!(!progress.is_done());

    // Second fragment: the EOM bit set, three more payload bytes.
    buffer[8] = 1;
    buffer[12] = b'C';
    buffer[13] = b'D';
    buffer[14] = b'\n';
    progress.push_fragment(&buffer, 15);
    assert!(progress.is_done());

    assert_eq!(progress.into_output(), b"ABCD\n".to_vec());
}

#[test]
fn read_keeps_zero_bytes_in_fragments() {
    // Fragment payloads are appended raw: zero bytes are not filtered.
    let mut btag = BTag::new();
    let mut progress = read(&mut btag, &bulk_in(64), &bulk_out(64), &caps(false)).unwrap();
    let mut buffer = vec![0_u8; 76];
    buffer[8] = 1;
    buffer[12] = 0x41;
    buffer[13] = 0x00;
    buffer[14] = 0x42;
    progress.push_fragment(&buffer, 16);
    assert!(progress.is_done());
    assert_eq!(progress.into_output(), vec![0x41, 0x00, 0x42, 0x00]);
}
