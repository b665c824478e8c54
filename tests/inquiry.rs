use bluetooth_serial_port_async::{decimal_string, inquiry_length, BtAddr, BtDevice, BtError, BtProtocol};

#[test]
fn inquiry_length_rounds_to_units() {
    assert_eq!(inquiry_length(20, 0).unwrap(), 16);
    assert_eq!(inquiry_length(1, 920_000_000).unwrap(), 2);
    assert_eq!(inquiry_length(1, 919_999_999).unwrap(), 1);
    assert_eq!(inquiry_length(0, 0).unwrap(), 1);
    assert_eq!(inquiry_length(12, 800_000_000).unwrap(), 10);
}

#[test]
fn inquiry_length_caps_long_timeouts() {
    assert_eq!(inquiry_length(u32::MAX as u64, 999_999_999).unwrap(), 0x7FFF_FFFF);
}

#[test]
fn inquiry_length_refuses_oversized_seconds() {
    match inquiry_length(u32::MAX as u64 + 1, 0) {
        Err(BtError::Desc(m)) => assert_eq!(m, "Timeout value too big 4294967296 > 4294967295"),
        other => panic!("unexpected {:?}", other),
    }
}

#[test]
fn device_keeps_name_and_address() {
    let d = BtDevice::new("phone".to_string(), BtAddr([1, 2, 3, 4, 5, 6]));
    assert_eq!(d.name, "phone");
    assert_eq!(d.addr, BtAddr([1, 2, 3, 4, 5, 6]));
    assert_eq!(d.clone(), d);
    assert_ne!(d, BtDevice::new("phone".to_string(), BtAddr::any()));
    assert_eq!(BtProtocol::RFCOMM, BtProtocol::RFCOMM);
}

#[test]
fn decimal_text_of_numbers() {
    assert_eq!(decimal_string(0), "0");
    assert_eq!(decimal_string(7), "7");
    assert_eq!(decimal_string(10), "10");
    assert_eq!(decimal_string(4294967295), "4294967295");
    assert_eq!(decimal_string(u64::MAX), "18446744073709551615");
}
