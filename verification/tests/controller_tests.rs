use std::cell::{Cell, RefCell};

use wasm_hub::controller::{
    ack_server, connect_devices, contains_all, get_websocket_data, reconcile_cycle, refill_queue,
    DiscoverySession,
};
use wasm_hub::device::{Device, DeviceInfo};
use wasm_hub::queue::DeviceQueue;
use wasm_hub::registry::{add_devices, DeviceRegistry};
use wasm_hub::system::{
    DecodeError, DurationTooLargeError, EncodeError, FFIMessage, Ffi, NameUtf8Error, ReadError,
    SharedFlag,
};
use wasm_hub::time::{Duration, Time};
use wasm_hub::wire::{
    BackendToFirmwarePacket, BackendToFirmwareType, DevicesList, FirmwareToBackendPacket,
    FirmwareToBackendType, FirmwareToFirmwarePacket, GetDevicesList, StopGetDevicesList,
    WireDeviceInfo,
};

/// A host double: records every outward call and plays back configured
/// answers.
struct Mock {
    /// Seconds counter handed out by `get_time`, advanced on every read.
    time: Cell<u64>,
    advance_time: bool,
    scan_result: Option<Result<([u8; 8], Vec<u8>), NameUtf8Error>>,
    websocket: RefCell<Vec<Result<(Result<BackendToFirmwarePacket, DecodeError>, bool), ReadError>>>,
    sent_data: RefCell<Vec<FirmwareToBackendPacket>>,
    sent_messages: RefCell<Vec<FFIMessage>>,
    sent_peer_packets: RefCell<Vec<([u8; 8], FirmwareToFirmwarePacket)>>,
    connect_lists: RefCell<Vec<Vec<u64>>>,
    start_scan_calls: Cell<u64>,
    stop_scan_calls: Cell<u64>,
}

impl Mock {
    fn new() -> Mock {
        Mock {
            time: Cell::new(0),
            advance_time: false,
            scan_result: None,
            websocket: RefCell::new(Vec::new()),
            sent_data: RefCell::new(Vec::new()),
            sent_messages: RefCell::new(Vec::new()),
            sent_peer_packets: RefCell::new(Vec::new()),
            connect_lists: RefCell::new(Vec::new()),
            start_scan_calls: Cell::new(0),
            stop_scan_calls: Cell::new(0),
        }
    }
}

impl Ffi for Mock {
    fn print(&self, _text: &str) {}

    fn sleep(&self, _t: Duration) -> Result<(), DurationTooLargeError> {
        Ok(())
    }

    fn get_websocket_data(
        &self,
    ) -> Result<(Result<BackendToFirmwarePacket, DecodeError>, bool), ReadError> {
        self.websocket.borrow_mut().remove(0)
    }

    fn send_message(&self, msg: FFIMessage) {
        self.sent_messages.borrow_mut().push(msg);
    }

    fn get_time(&self) -> Time {
        let t = self.time.get();
        if self.advance_time {
            self.time.set(t + 1);
        }
        Time::new(Duration::from_secs(t))
    }

    fn set_led(&self, _which: u8, _state: bool) {}

    fn start_remote_device_scan(&self) {
        self.start_scan_calls.set(self.start_scan_calls.get() + 1);
    }

    fn get_remote_device_scan_result(&self) -> Option<Result<DeviceInfo, NameUtf8Error>> {
        match &self.scan_result {
            None => None,
            Some(Ok((address, name))) => Some(Ok(DeviceInfo::new(*address, name.clone()))),
            Some(Err(e)) => Some(Err(*e)),
        }
    }

    fn stop_remote_device_scan(&self) {
        self.stop_scan_calls.set(self.stop_scan_calls.get() + 1);
    }

    fn send_data(&self, packet: FirmwareToBackendPacket) -> Result<(), EncodeError> {
        self.sent_data.borrow_mut().push(packet);
        Ok(())
    }

    fn connect_devices(&self, devices: &Vec<u64>) {
        self.connect_lists.borrow_mut().push(devices.clone());
    }

    fn ble_send_packet(
        &self,
        target: &DeviceInfo,
        packet: FirmwareToFirmwarePacket,
    ) -> Result<(), EncodeError> {
        self.sent_peer_packets.borrow_mut().push((target.address, packet));
        Ok(())
    }
}

/// A discovery-flag double backed by a plain cell.
struct FlagCell {
    value: Cell<bool>,
}

impl SharedFlag for FlagCell {
    fn load(&self) -> bool {
        self.value.get()
    }

    fn store(&self, value: bool) {
        self.value.set(value);
    }
}

fn name_bytes(name: &str) -> Vec<u8> {
    name.as_bytes().to_vec()
}

fn hub(address: u64, name: &str) -> Device {
    Device::Hub { device_info: DeviceInfo::new(address.to_le_bytes(), name_bytes(name)) }
}

#[test]
fn test_ack_server() {
    let m = Mock::new();
    ack_server(&m);
    let sent = m.sent_data.borrow();
    assert_eq!(sent.len(), 1);
    if sent[0]
        != (FirmwareToBackendPacket {
            packet_type: Some(FirmwareToBackendType::Ping(Default::default())),
        })
    {
        panic!("Wrong type: {:?}", sent[0]);
    }
}

#[test]
fn test_find_devices() {
    let mut m = Mock::new();
    m.advance_time = true;
    m.scan_result = Some(Ok(([1, 2, 3, 4, 5, 6, 0, 0], name_bytes("abcdefgh"))));
    let flag = FlagCell { value: Cell::new(false) };
    flag.store(true);
    let mut session = DiscoverySession::begin(&m, &flag).expect("flag was set");
    loop {
        if session.poll_once(&m, &flag) {
            break;
        }
    }
    assert!(m.time.get() > 15);
    assert_eq!(m.start_scan_calls.get(), 1);
    assert_eq!(m.stop_scan_calls.get(), 1);
    assert!(!flag.load());
    // the one new address was reported once, in wire form
    let sent = m.sent_data.borrow();
    assert_eq!(sent.len(), 1);
    let mut info = WireDeviceInfo { address: 0, name: Vec::new(), device_type: 0 };
    info.address = 6618611909121;
    info.name = name_bytes("abcdefgh");
    if sent[0]
        != (FirmwareToBackendPacket {
            packet_type: Some(FirmwareToBackendType::DeviceInfo(info)),
        })
    {
        panic!("Wrong type: {:?}", sent[0]);
    }
}

#[test]
fn connect_devices_test() {
    let m = Mock::new();
    let mut p = DeviceQueue::new();
    p.push_back(hub(1000, "Name")).unwrap();
    connect_devices(&m, &mut p, 2).unwrap();
    let lists = m.connect_lists.borrow();
    assert!(lists[0].len() <= 2);
    assert_eq!(lists[0][0], 1000_u64);
}

#[test]
fn connect_devices_test_four_at_a_time() {
    let m = Mock::new();
    let mut p = DeviceQueue::new();
    p.push_back(hub(1000, "Name")).unwrap();
    p.push_back(hub(1001, "Name")).unwrap();
    p.push_back(hub(1002, "Name")).unwrap();
    p.push_back(hub(1003, "Name")).unwrap();
    connect_devices(&m, &mut p, 2).unwrap();
    {
        let lists = m.connect_lists.borrow();
        assert!(lists[0].len() <= 2);
        assert_eq!(lists[0][0], 1000_u64);
        assert_eq!(lists[0][1], 1001_u64);
    }
    connect_devices(&m, &mut p, 2).unwrap();
    let lists = m.connect_lists.borrow();
    assert!(lists[1].len() <= 2);
    assert_eq!(lists[1][0], 1002_u64);
    assert_eq!(lists[1][1], 1003_u64);
    // after two cycles of two, the queue is back in its original order
    assert_eq!(p.len(), 4);
    for (i, addr) in [1000_u64, 1001, 1002, 1003].iter().enumerate() {
        match p.get(i) {
            Device::Hub { device_info } => assert_eq!(device_info.address, addr.to_le_bytes()),
            other => panic!("wrong kind: {:?}", other),
        }
    }
}

#[test]
fn connect_unknown_devices_test() {
    let m = Mock::new();
    let mut p = DeviceQueue::new();
    p.push_back(Device::Unknown).unwrap();
    assert_eq!(connect_devices(&m, &mut p, 2), Err(FFIMessage::UsingUnknownDevice));
}

#[test]
fn dispatcher_replaces_device_list() {
    let m = Mock::new();
    let packet = BackendToFirmwarePacket {
        timestamp: 0,
        packet_type: Some(BackendToFirmwareType::Devices(DevicesList {
            devices: vec![
                WireDeviceInfo { address: 7, name: name_bytes("a"), device_type: 2 },
                WireDeviceInfo { address: 8, name: name_bytes("b"), device_type: 4 },
            ],
        })),
    };
    m.websocket.borrow_mut().push(Ok((Ok(packet), false)));
    let mut registry = DeviceRegistry::new();
    let flag = FlagCell { value: Cell::new(false) };
    get_websocket_data(&m, &mut registry, &flag);
    assert_eq!(registry.len(), 2);
    assert!(!flag.load());
    assert_eq!(m.sent_messages.borrow().len(), 0);
}

#[test]
fn dispatcher_toggles_discovery_flag() {
    let m = Mock::new();
    m.websocket.borrow_mut().push(Ok((
        Ok(BackendToFirmwarePacket {
            timestamp: 0,
            packet_type: Some(BackendToFirmwareType::GetDevicesList(GetDevicesList {})),
        }),
        false,
    )));
    m.websocket.borrow_mut().push(Ok((
        Ok(BackendToFirmwarePacket {
            timestamp: 0,
            packet_type: Some(BackendToFirmwareType::StopGetDevicesList(StopGetDevicesList {})),
        }),
        false,
    )));
    let mut registry = DeviceRegistry::new();
    let flag = FlagCell { value: Cell::new(false) };
    get_websocket_data(&m, &mut registry, &flag);
    assert!(flag.load());
    get_websocket_data(&m, &mut registry, &flag);
    assert!(!flag.load());
    assert_eq!(registry.len(), 0);
}

#[test]
fn dispatcher_reports_decode_failure() {
    let m = Mock::new();
    m.websocket.borrow_mut().push(Ok((Err(DecodeError {}), false)));
    let mut registry = DeviceRegistry::new();
    let flag = FlagCell { value: Cell::new(false) };
    get_websocket_data(&m, &mut registry, &flag);
    assert_eq!(*m.sent_messages.borrow(), vec![FFIMessage::ProtobufDecodeError]);
}

#[test]
fn dispatcher_reports_oversized_message() {
    let m = Mock::new();
    m.websocket.borrow_mut().push(Err(ReadError::OutOfMemory));
    let mut registry = DeviceRegistry::new();
    let flag = FlagCell { value: Cell::new(false) };
    get_websocket_data(&m, &mut registry, &flag);
    assert_eq!(*m.sent_messages.borrow(), vec![FFIMessage::TooMuchData]);
}

#[test]
fn dispatcher_absent_payload_is_noop() {
    let m = Mock::new();
    m.websocket.borrow_mut().push(Ok((
        Ok(BackendToFirmwarePacket { timestamp: 0, packet_type: None }),
        false,
    )));
    let mut registry = DeviceRegistry::new();
    let flag = FlagCell { value: Cell::new(false) };
    get_websocket_data(&m, &mut registry, &flag);
    assert_eq!(registry.len(), 0);
    assert!(!flag.load());
    assert_eq!(m.sent_messages.borrow().len(), 0);
}

#[test]
fn contains_all_ignores_order_and_payload() {
    let m = Mock::new();
    let mut registry = DeviceRegistry::new();
    add_devices(
        &mut registry,
        &m,
        &[
            WireDeviceInfo { address: 1, name: name_bytes("a"), device_type: 1 },
            WireDeviceInfo { address: 2, name: name_bytes("b"), device_type: 4 },
        ],
    )
    .unwrap();
    let mut queue = DeviceQueue::new();
    queue.push_back(hub(2, "x")).unwrap();
    queue.push_back(hub(1, "y")).unwrap();
    assert!(contains_all(&registry, &queue));
    queue.push_back(hub(3, "z")).unwrap();
    assert!(!contains_all(&registry, &queue));
}

#[test]
fn reconcile_stable_set_batches_and_relays() {
    let m = Mock::new();
    let mut registry = DeviceRegistry::new();
    add_devices(
        &mut registry,
        &m,
        &[
            WireDeviceInfo { address: 1000, name: name_bytes("peer"), device_type: 4 },
            WireDeviceInfo { address: 2000, name: name_bytes("tag"), device_type: 2 },
        ],
    )
    .unwrap();
    let mut queue = DeviceQueue::new();
    refill_queue(&mut queue, &registry);
    let last_update = Time::new(Duration::from_secs(77));
    let r = reconcile_cycle(&m, &mut queue, &registry, last_update, 4);
    assert_eq!(r, Ok(true));
    // the batch connected to both addresses
    let lists = m.connect_lists.borrow();
    assert_eq!(lists[0], vec![1000_u64, 2000_u64]);
    // the snapshot was pushed back in after the rotation
    assert_eq!(queue.len(), 4);
    // the hub (queued twice after the push-back) got the relay both times,
    // with the timestamp and the full list
    let peers = m.sent_peer_packets.borrow();
    assert_eq!(peers.len(), 2);
    assert_eq!(peers[0].0, 1000_u64.to_le_bytes());
    assert_eq!(peers[1].0, 1000_u64.to_le_bytes());
    assert_eq!(peers[0].1.timestamp, 77);
    // the batch wrapped around to the duplicate cutoff, so the rotated
    // queue leads with the tag; then the snapshot follows in its order
    let wasm_hub::wire::FirmwareToFirmwareType::DevicesList(ref list) =
        peers[0].1.packet_type.as_ref().unwrap();
    let listed: Vec<(i64, i32)> =
        list.devices.iter().map(|d| (d.address, d.device_type)).collect();
    assert_eq!(listed, vec![(2000, 2), (1000, 4), (1000, 4), (2000, 2)]);
}

#[test]
fn reconcile_changed_set_refreshes_queue() {
    let m = Mock::new();
    let mut registry = DeviceRegistry::new();
    add_devices(
        &mut registry,
        &m,
        &[WireDeviceInfo { address: 5, name: name_bytes("a"), device_type: 1 }],
    )
    .unwrap();
    let mut queue = DeviceQueue::new();
    queue.push_back(hub(9, "old")).unwrap();
    let r = reconcile_cycle(&m, &mut queue, &registry, Time::new(Duration::from_secs(0)), 4);
    assert_eq!(r, Ok(false));
    assert_eq!(queue.len(), 1);
    match queue.get(0) {
        Device::TI { device_info, .. } => assert_eq!(device_info.address, 5_u64.to_le_bytes()),
        other => panic!("wrong kind: {:?}", other),
    }
    // no connections and no relay on a refresh cycle
    assert_eq!(m.connect_lists.borrow().len(), 0);
    assert_eq!(m.sent_peer_packets.borrow().len(), 0);
}

#[test]
fn reconcile_unknown_device_fails() {
    let m = Mock::new();
    let mut registry = DeviceRegistry::new();
    add_devices(
        &mut registry,
        &m,
        &[WireDeviceInfo { address: 0, name: name_bytes(""), device_type: 0 }],
    )
    .unwrap();
    let mut queue = DeviceQueue::new();
    refill_queue(&mut queue, &registry);
    let r = reconcile_cycle(&m, &mut queue, &registry, Time::new(Duration::from_secs(0)), 4);
    assert_eq!(r, Err(FFIMessage::UsingUnknownDevice));
    assert_eq!(*m.sent_messages.borrow(), vec![FFIMessage::UsingUnknownDevice]);
}

#[test]
fn reconcile_queue_out_of_room() {
    let m = Mock::new();
    let mut entries = Vec::new();
    for a in 0..33_u64 {
        entries.push(WireDeviceInfo {
            address: (a + 1) as i64,
            name: name_bytes("d"),
            device_type: 1,
        });
    }
    let mut registry = DeviceRegistry::new();
    add_devices(&mut registry, &m, &entries).unwrap();
    let mut queue = DeviceQueue::new();
    refill_queue(&mut queue, &registry);
    let r = reconcile_cycle(&m, &mut queue, &registry, Time::new(Duration::from_secs(0)), 4);
    assert_eq!(r, Err(FFIMessage::RegDeviceOutOfRoomError));
    assert_eq!(*m.sent_messages.borrow(), vec![FFIMessage::RegDeviceOutOfRoomError]);
}

#[test]
fn take_connection_batch_yields_the_batch_keys() {
    let mut p = DeviceQueue::new();
    p.push_back(hub(1000, "Name")).unwrap();
    p.push_back(hub(1001, "Name")).unwrap();
    p.push_back(hub(1002, "Name")).unwrap();
    p.push_back(hub(1003, "Name")).unwrap();
    let keys = wasm_hub::controller::take_connection_batch(&mut p, 2);
    assert_eq!(keys, vec![1000_u64, 1001]);
    // the serviced devices moved to the back
    for (i, addr) in [1002_u64, 1003, 1000, 1001].iter().enumerate() {
        match p.get(i) {
            Device::Hub { device_info } => assert_eq!(device_info.address, addr.to_le_bytes()),
            other => panic!("wrong kind: {:?}", other),
        }
    }
    // a repeated key stops the batch early
    let mut q = DeviceQueue::new();
    q.push_back(hub(7, "a")).unwrap();
    q.push_back(hub(7, "b")).unwrap();
    q.push_back(hub(8, "c")).unwrap();
    let keys = wasm_hub::controller::take_connection_batch(&mut q, 3);
    assert_eq!(keys, vec![7_u64]);
}

#[test]
fn session_for_follows_the_flag() {
    let t0 = Time::new(Duration::from_secs(100));
    assert!(DiscoverySession::session_for(false, t0).is_none());
    let session = DiscoverySession::session_for(true, t0).expect("flag set");
    // over once 15 seconds have passed, the flag clears, or never before
    assert!(!session.is_over(Time::new(Duration::from_secs(110)), true));
    assert!(!session.is_over(Time::new(Duration::from_secs(115)), true));
    assert!(session.is_over(Time::new(Duration::from_nanos(115_000_000_001)), true));
    assert!(session.is_over(Time::new(Duration::from_secs(101)), false));
}

#[test]
fn record_scan_result_decides_each_case() {
    let t0 = Time::new(Duration::from_secs(0));
    let mut session = DiscoverySession::session_for(true, t0).expect("flag set");
    // nothing polled: nothing recorded, nothing sent
    assert_eq!(session.record_scan_result(None), None);
    // a name the host could not decode: reported, nothing recorded
    assert_eq!(
        session.record_scan_result(Some(Err(NameUtf8Error {}))),
        Some(Err(FFIMessage::BLENameUTF8Error))
    );
    // a new address: recorded and reported to the backend in wire form
    let info = DeviceInfo::new([1, 2, 3, 4, 5, 6, 0, 0], name_bytes("abcdefgh"));
    let expected = FirmwareToBackendPacket {
        packet_type: Some(FirmwareToBackendType::DeviceInfo(WireDeviceInfo {
            address: 6618611909121,
            name: name_bytes("abcdefgh"),
            device_type: 0,
        })),
    };
    assert_eq!(session.record_scan_result(Some(Ok(info))), Some(Ok(expected)));
    // the same address again: a duplicate, nothing sent
    let again = DeviceInfo::new([1, 2, 3, 4, 5, 6, 0, 0], name_bytes("other"));
    assert_eq!(session.record_scan_result(Some(Ok(again))), None);
    // a new address whose name is not UTF-8: recorded, name error reported
    let bad = DeviceInfo::new(9_u64.to_le_bytes(), vec![0xFF]);
    assert_eq!(
        session.record_scan_result(Some(Ok(bad))),
        Some(Err(FFIMessage::BLENameUTF8Error))
    );
    let bad_again = DeviceInfo::new(9_u64.to_le_bytes(), vec![0xFF]);
    assert_eq!(session.record_scan_result(Some(Ok(bad_again))), None);
}

#[test]
fn full_found_set_ends_the_session() {
    let t0 = Time::new(Duration::from_secs(0));
    let mut session = DiscoverySession::session_for(true, t0).expect("flag set");
    for a in 0..64_u64 {
        let info = DeviceInfo::new((a + 1).to_le_bytes(), name_bytes("d"));
        assert!(matches!(session.record_scan_result(Some(Ok(info))), Some(Ok(_))));
    }
    // with the found-address set full, the session is over whatever the
    // clock and the flag say
    assert!(session.is_over(t0, true));
}
