//! Tests of session setup: interface recognition, mode resolution,
//! endpoint selection, device filters and the timeout value.

use rs_usbtmc::error::Error;
use rs_usbtmc::init::{get_endpoints, get_usbtmc_mode, is_tmc_device};
use rs_usbtmc::types::{
    DeviceAddr, DeviceId, DeviceInfo, Direction, Endpoint, InterfaceDesc, Timeout, TransferType,
};
use rs_usbtmc::DeviceFilter;

fn tmc_desc(config: u8, interface: u8, setting: u8) -> InterfaceDesc {
    InterfaceDesc {
        config_number: config,
        interface_number: interface,
        setting_number: setting,
        class_code: 0xFE,
        sub_class_code: 0x03,
        protocol_code: 0x01,
    }
}

fn hid_desc() -> InterfaceDesc {
    InterfaceDesc {
        config_number: 1,
        interface_number: 0,
        setting_number: 0,
        class_code: 0x03,
        sub_class_code: 0x00,
        protocol_code: 0x00,
    }
}

fn ep(address: u8, transfer_type: TransferType, direction: Direction) -> Endpoint {
    Endpoint { address, max_packet_size: 64, transfer_type, direction }
}

#[test]
fn recognises_tmc_interfaces() {
    assert!(is_tmc_device(&vec![hid_desc(), tmc_desc(1, 2, 0)]));
    assert!(!is_tmc_device(&vec![hid_desc()]));
    assert!(!is_tmc_device(&Vec::new()));
}

#[test]
fn mode_resolution_takes_first_tmc_interface() {
    let descs = vec![hid_desc(), tmc_desc(1, 2, 0), tmc_desc(2, 3, 1)];
    let mode = get_usbtmc_mode(&descs).unwrap();
    assert_eq!(mode.config_number, 1);
    assert_eq!(mode.interface_number, 2);
    assert_eq!(mode.setting_number, 0);
    assert!(!mode.has_kernel_driver);
}

#[test]
fn mode_resolution_rejects_non_tmc_device() {
    assert_eq!(get_usbtmc_mode(&vec![hid_desc()]), Err(Error::DeviceIncompatible));
}

#[test]
fn endpoint_selection_picks_class_endpoints() {
    let eps = vec![
        ep(0x00, TransferType::Control, Direction::Out),
        ep(0x02, TransferType::Bulk, Direction::Out),
        ep(0x81, TransferType::Bulk, Direction::In),
        ep(0x83, TransferType::Interrupt, Direction::In),
    ];
    let u = get_endpoints(&eps).unwrap();
    assert_eq!(u.bulk_out_ep.address, 0x02);
    assert_eq!(u.bulk_in_ep.address, 0x81);
    assert_eq!(u.interrupt_ep.unwrap().address, 0x83);
}

#[test]
fn endpoint_selection_interrupt_is_optional() {
    let eps = vec![
        ep(0x02, TransferType::Bulk, Direction::Out),
        ep(0x81, TransferType::Bulk, Direction::In),
    ];
    let u = get_endpoints(&eps).unwrap();
    assert!(u.interrupt_ep.is_none());
}

#[test]
fn endpoint_selection_reports_missing_endpoints() {
    let only_in = vec![ep(0x81, TransferType::Bulk, Direction::In)];
    assert!(matches!(get_endpoints(&only_in), Err(Error::BulkOutEndpointNotFound)));
    let only_out = vec![ep(0x02, TransferType::Bulk, Direction::Out)];
    assert!(matches!(get_endpoints(&only_out), Err(Error::BulkInEndpointNotFound)));
}

#[test]
fn filters_select_devices() {
    let info = DeviceInfo {
        id: DeviceId { vendor_id: 0x1234, product_id: 0x5678 },
        address: DeviceAddr { bus: 3, device: 7 },
    };
    assert!(().apply_filter(&info));
    assert!(DeviceAddr { bus: 3, device: 7 }.apply_filter(&info));
    assert!(!DeviceAddr { bus: 3, device: 8 }.apply_filter(&info));
    assert!((3_u8, 7_u8).apply_filter(&info));
    assert!(![4_u8, 7_u8].apply_filter(&info));
    assert!(DeviceId { vendor_id: 0x1234, product_id: 0x5678 }.apply_filter(&info));
    assert!((0x1234_u16, 0x5678_u16).apply_filter(&info));
    assert!(![0x1234_u16, 0x0000_u16].apply_filter(&info));
    assert!(info.apply_filter(&info));
    // A filter applies through a reference too.
    assert!((&info).apply_filter(&info));
}

#[test]
fn timeout_holds_its_value() {
    let t = Timeout::new(2000);
    assert_eq!(t.borrow(), 2000);
}
