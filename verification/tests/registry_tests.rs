use std::cell::RefCell;

use wasm_hub::device::{Device, DeviceInfo};
use wasm_hub::registry::{add_devices, AddDeviceError, DeviceRegistry};
use wasm_hub::system::{
    DecodeError, DurationTooLargeError, EncodeError, FFIMessage, Ffi, NameUtf8Error, ReadError,
};
use wasm_hub::time::{Duration, Time};
use wasm_hub::wire::{BackendToFirmwarePacket, FirmwareToBackendPacket, FirmwareToFirmwarePacket,
    WireDeviceInfo};

/// A host double that only records status messages; the registry touches
/// nothing else of the host.
struct MessageMock {
    sent_messages: RefCell<Vec<FFIMessage>>,
}

impl MessageMock {
    fn new() -> MessageMock {
        MessageMock { sent_messages: RefCell::new(Vec::new()) }
    }
}

impl Ffi for MessageMock {
    fn print(&self, _text: &str) {}

    fn sleep(&self, _t: Duration) -> Result<(), DurationTooLargeError> {
        panic!("not used here");
    }

    fn get_websocket_data(
        &self,
    ) -> Result<(Result<BackendToFirmwarePacket, DecodeError>, bool), ReadError> {
        panic!("not used here");
    }

    fn send_message(&self, msg: FFIMessage) {
        self.sent_messages.borrow_mut().push(msg);
    }

    fn get_time(&self) -> Time {
        panic!("not used here");
    }

    fn set_led(&self, _which: u8, _state: bool) {}

    fn start_remote_device_scan(&self) {}

    fn get_remote_device_scan_result(&self) -> Option<Result<DeviceInfo, NameUtf8Error>> {
        None
    }

    fn stop_remote_device_scan(&self) {}

    fn send_data(&self, _packet: FirmwareToBackendPacket) -> Result<(), EncodeError> {
        panic!("not used here");
    }

    fn connect_devices(&self, _devices: &Vec<u64>) {}

    fn ble_send_packet(
        &self,
        _target: &DeviceInfo,
        _packet: FirmwareToFirmwarePacket,
    ) -> Result<(), EncodeError> {
        panic!("not used here");
    }
}

fn entry(address: i64, name: &str, device_type: i32) -> WireDeviceInfo {
    WireDeviceInfo { address, name: name.as_bytes().to_vec(), device_type }
}

#[test]
fn test_add_sensor_has_room() {
    let m = MessageMock::new();
    let mut sensors_list = DeviceRegistry::new();
    add_devices(
        &mut sensors_list,
        &m,
        &[entry(1, "Name", 1), entry(2, "Name", 1), entry(3, "Name", 1)],
    )
    .unwrap();
    assert_eq!(sensors_list.len(), 3);
    assert_eq!(m.sent_messages.borrow().len(), 0);
}

#[test]
fn test_add_sensor_wrong_device_types() {
    let m = MessageMock::new();
    let mut sensors_list = DeviceRegistry::new();
    assert_eq!(
        add_devices(&mut sensors_list, &m, &[entry(6, "Name", 1000)]),
        Err(AddDeviceError::WrongDeviceType)
    );
    assert_eq!(sensors_list.len(), 0);
}

#[test]
fn add_devices_skips_equal_address_duplicates() {
    let m = MessageMock::new();
    let mut registry = DeviceRegistry::new();
    add_devices(&mut registry, &m, &[entry(1, "A", 1), entry(1, "B", 4)]).unwrap();
    assert_eq!(registry.len(), 1);
    assert_eq!(m.sent_messages.borrow().len(), 0);
    // the first entry won: the registered device is the TI tag named "A"
    match registry.get(0) {
        Device::TI { device_info, .. } => {
            assert_eq!(device_info.address, 1_u64.to_le_bytes());
            assert_eq!(device_info.name, b"A".to_vec());
        },
        other => panic!("wrong kind: {:?}", other),
    }
}

#[test]
fn add_devices_capacity_overflow() {
    let m = MessageMock::new();
    let mut registry = DeviceRegistry::with_capacity(1);
    assert_eq!(
        add_devices(
            &mut registry,
            &m,
            &[entry(6, "Name", 1), entry(7, "Name", 1), entry(8, "Name", 1), entry(9, "Name", 1)],
        ),
        Err(AddDeviceError::TooManyDevices)
    );
    // only the first distinct address was accepted before the overflow
    assert_eq!(registry.len(), 1);
    // the overflow was reported to the host
    assert_eq!(*m.sent_messages.borrow(), vec![FFIMessage::TooManyDevices]);
}

#[test]
fn add_devices_rejects_oversized_name() {
    let m = MessageMock::new();
    let mut registry = DeviceRegistry::new();
    let long_name = "x".repeat(30);
    assert_eq!(
        add_devices(&mut registry, &m, &[entry(1, &long_name, 1)]),
        Err(AddDeviceError::NameTooLong)
    );
    assert_eq!(registry.len(), 0);
    // 29 bytes is still accepted
    let edge_name = "x".repeat(29);
    add_devices(&mut registry, &m, &[entry(1, &edge_name, 1)]).unwrap();
    assert_eq!(registry.len(), 1);
}

#[test]
fn add_devices_rejects_bad_address_padding() {
    let m = MessageMock::new();
    let mut registry = DeviceRegistry::new();
    // bit 48 set: byte 6 of the little-endian address is not zero
    assert_eq!(
        add_devices(&mut registry, &m, &[entry(0x1000000000000, "Name", 1)]),
        Err(AddDeviceError::LastAddressBytesAreNotNull)
    );
    assert_eq!(registry.len(), 0);
    assert_eq!(
        add_devices(&mut registry, &m, &[entry(-1, "Name", 1)]),
        Err(AddDeviceError::LastAddressBytesAreNotNull)
    );
    assert_eq!(registry.len(), 0);
}

#[test]
fn add_devices_stops_at_first_failure() {
    let m = MessageMock::new();
    let mut registry = DeviceRegistry::new();
    // the entries before the bad one stay registered
    assert_eq!(
        add_devices(&mut registry, &m, &[entry(1, "A", 1), entry(2, "B", 7), entry(3, "C", 1)]),
        Err(AddDeviceError::WrongDeviceType)
    );
    assert_eq!(registry.len(), 1);
}

#[test]
fn add_devices_replaces_previous_contents() {
    let m = MessageMock::new();
    let mut registry = DeviceRegistry::new();
    add_devices(&mut registry, &m, &[entry(1, "A", 1), entry(2, "B", 2)]).unwrap();
    assert_eq!(registry.len(), 2);
    add_devices(&mut registry, &m, &[entry(3, "C", 3)]).unwrap();
    assert_eq!(registry.len(), 1);
    match registry.get(0) {
        Device::Pico { device_info, .. } => assert_eq!(device_info.address, 3_u64.to_le_bytes()),
        other => panic!("wrong kind: {:?}", other),
    }
}

#[test]
fn equality_is_by_address_only() {
    let a = Device::TI {
        device_info: DeviceInfo::new(1_u64.to_le_bytes(), b"A".to_vec()),
        humidity_sensor_data: None,
        temperature_sensor_data: None,
    };
    let b = Device::Hub { device_info: DeviceInfo::new(1_u64.to_le_bytes(), b"B".to_vec()) };
    let c = Device::Hub { device_info: DeviceInfo::new(2_u64.to_le_bytes(), b"B".to_vec()) };
    assert!(a == b);
    assert!(b != c);
    assert!(Device::Unknown == Device::Unknown);
    assert!(a != Device::Unknown);
}
