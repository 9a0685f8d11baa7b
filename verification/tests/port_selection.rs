//! Picking the serial port a laser is opened on.

use coherent_rs::CoherentError;
use coherent_rs::laser::LaserType;
use coherent_rs::ports::{filter_coherent_devices, is_valid_device, select_port, PortInfo,
    COHERENT_VENDOR_ID};

fn port(name: &str, is_usb: bool, vid: u16, pid: u16, serial: Option<&str>) -> PortInfo {
    PortInfo {
        port_name: name.to_string(),
        is_usb,
        vid,
        pid,
        serial_number: serial.map(|s| s.to_string()),
    }
}

#[test]
fn filter_keeps_only_the_vendor() {
    let ports = vec![
        port("COM1", true, COHERENT_VENDOR_ID, 516, Some("A")),
        port("COM2", true, 1234, 516, Some("B")),
        port("COM3", false, 0, 0, None),
        port("COM4", true, COHERENT_VENDOR_ID, 0, None),
    ];
    let kept = filter_coherent_devices(&ports);
    assert_eq!(kept.len(), 2);
    assert_eq!(kept[0].port_name, "COM1".to_string());
    assert_eq!(kept[1].port_name, "COM4".to_string());
}

#[test]
fn product_id_names_the_model() {
    assert_eq!(LaserType::from(516u16), LaserType::DiscoveryNX);
    assert_eq!(LaserType::from(0u16), LaserType::DebugLaser);
    assert_eq!(LaserType::from(42u16), LaserType::UnrecognizedDevice);

    let nx = port("COM1", true, COHERENT_VENDOR_ID, 516, None);
    assert!(is_valid_device(&nx, LaserType::DiscoveryNX));
    assert!(!is_valid_device(&nx, LaserType::UnrecognizedDevice));
    let other = port("COM2", true, COHERENT_VENDOR_ID, 99, None);
    assert!(!is_valid_device(&other, LaserType::DiscoveryNX));
    // The in-memory model accepts any port.
    assert!(is_valid_device(&other, LaserType::DebugLaser));
}

#[test]
fn select_by_name_finds_the_named_port() {
    let ports = vec![
        port("COM1", true, COHERENT_VENDOR_ID, 516, Some("S1")),
        port("COM5", true, COHERENT_VENDOR_ID, 516, Some("S5")),
    ];
    assert_eq!(select_port(&ports, Some("COM5"), None, LaserType::DiscoveryNX), Ok(1));
    assert_eq!(
        select_port(&ports, Some("COM9"), None, LaserType::DiscoveryNX),
        Err(CoherentError::UnrecognizedDevice)
    );
}

#[test]
fn select_by_name_checks_the_serial_number() {
    let ports = vec![port("COM5", true, COHERENT_VENDOR_ID, 516, Some("123456"))];
    assert_eq!(
        select_port(&ports, Some("COM5"), Some("123456"), LaserType::DiscoveryNX),
        Ok(0)
    );
    assert_eq!(
        select_port(&ports, Some("COM5"), Some("999"), LaserType::DiscoveryNX),
        Err(CoherentError::UnrecognizedDevice)
    );
}

#[test]
fn select_without_name_takes_the_first_recognized_port() {
    let ports = vec![
        port("COM1", true, 1234, 99, None),
        port("COM2", true, COHERENT_VENDOR_ID, 516, Some("S2")),
        port("COM3", true, COHERENT_VENDOR_ID, 516, Some("S3")),
    ];
    assert_eq!(select_port(&ports, None, None, LaserType::DiscoveryNX), Ok(1));
    assert_eq!(select_port(&ports, None, Some("S2"), LaserType::DiscoveryNX), Ok(1));
    // The serial number is checked against the first recognized port only.
    assert_eq!(
        select_port(&ports, None, Some("S3"), LaserType::DiscoveryNX),
        Err(CoherentError::UnrecognizedDevice)
    );
}

#[test]
fn empty_enumeration_reports_no_lasers() {
    let ports: Vec<PortInfo> = vec![];
    assert_eq!(
        select_port(&ports, None, None, LaserType::DiscoveryNX),
        Err(CoherentError::NoRecognizedLasers)
    );
    assert_eq!(
        select_port(&ports, None, Some("S"), LaserType::DiscoveryNX),
        Err(CoherentError::UnrecognizedDevice)
    );
}
