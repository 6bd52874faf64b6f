//! The hub's task logic: the heartbeat, the connection batcher, the
//! discovery session, the inbound command dispatcher and the
//! reconciliation-and-relay cycle.
//!
//! Each task's loop is driven by the scheduler at the composition root;
//! the functions here do one step of work against the [`Ffi`] boundary.

use vstd::prelude::*;

use crate::address::{addr_to_u64, addr_val, lemma_addr_val_64};
use crate::constants::{MAX_DEVICES, MAX_FOUND_DEVICES};
use crate::device::{bytes8_eq, contains_by_address, Device, DeviceInfo, DeviceView};
use crate::queue::DeviceQueue;
use crate::registry::{add_devices, add_devices_spec, wire_entry_views, DeviceRegistry};
use crate::system::{DecodeError, FFIMessage, Ffi, NameUtf8Error, ReadError, SharedFlag};
use crate::time::{Duration, Time, NANOS_PER_SEC};
use crate::wire::{
    device_to_wire, device_to_wire_spec, i64_of_addr_val, utf8_valid, BackendToFirmwarePacket,
    BackendToFirmwareType, DevicesList, FirmwareToBackendPacket, FirmwareToBackendType,
    FirmwareToFirmwarePacket, FirmwareToFirmwareType, Ping, WireDeviceInfo, WireDeviceInfoView,
};

verus! {

/// Sends the periodic liveness ping; an encode failure is reported to the
/// host and is not fatal.
pub fn ack_server<F: Ffi>(esp32: &F) {
    let packet = FirmwareToBackendPacket {
        packet_type: Some(FirmwareToBackendType::Ping(Ping {  })),
    };
    if esp32.send_data(packet).is_err() {
        esp32.send_message(FFIMessage::ProtobufEncodeError);
    }
}

/// Whether no device in the sequence is the `Unknown` kind.
pub open spec fn no_unknown(q: Seq<DeviceView>) -> bool {
    forall|i: int| 0 <= i < q.len() ==> !q[i].is_unknown()
}

/// The canonical 64-bit address key of a non-`Unknown` device.
pub open spec fn device_key(d: DeviceView) -> u64 {
    addr_val(d.info().address) as u64
}

/// What one connection batch does to the queue: up to `budget` devices are
/// taken from the front and pushed to the back while their address keys
/// are new to the batch; a repeated key is pushed back and stops the
/// batch.  Yields the rotated queue and the batch keys.
pub open spec fn batch_spec(q: Seq<DeviceView>, keys: Seq<u64>, budget: nat) -> (
    Seq<DeviceView>,
    Seq<u64>,
)
    decreases budget,
{
    if budget == 0 || q.len() == 0 {
        (q, keys)
    } else {
        let d = q[0];
        let k = device_key(d);
        if keys.contains(k) {
            (q.drop_first().push(d), keys)
        } else {
            batch_spec(q.drop_first().push(d), keys.push(k), (budget - 1) as nat)
        }
    }
}

/// Looks for an address key in the batch so far.
fn contains_key(keys: &Vec<u64>, key: u64) -> (r: bool)
    ensures
        r == keys@.contains(key),
{
    let mut i: usize = 0;
    while i < keys.len()
        invariant
            i <= keys@.len(),
            forall|k: int| 0 <= k < i ==> keys@[k] != key,
        decreases keys@.len() - i,
    {
        if keys[i] == key {
            proof {
                assert(keys@[i as int] == key);
            }
            return true;
        }
        i += 1;
    }
    proof {
        assert(!keys@.contains(key));
    }
    false
}

/// Accumulates one connection batch, rotating the queue: up to
/// `max_connected` devices are popped from the front and pushed to the
/// back, stopping early at a repeated address key.  Returns exactly the
/// batch keys of [`batch_spec`], in pop order; the caller hands them to
/// the host's connect call.
pub fn take_connection_batch(devices: &mut DeviceQueue, max_connected: usize) -> (keys: Vec<u64>)
    requires
        no_unknown(old(devices)@),
    ensures
        final(devices)@ == batch_spec(old(devices)@, Seq::empty(), max_connected as nat).0,
        keys@ == batch_spec(old(devices)@, Seq::empty(), max_connected as nat).1,
{
    let ghost orig = devices@;
    let mut keys: Vec<u64> = Vec::new();
    let mut stop: bool = false;
    let mut t: usize = 0;
    while t < max_connected && !stop
        invariant
            t <= max_connected,
            orig == old(devices)@,
            no_unknown(devices@),
            !stop ==> batch_spec(orig, Seq::empty(), max_connected as nat) == batch_spec(
                devices@,
                keys@,
                (max_connected - t) as nat,
            ),
            stop ==> batch_spec(orig, Seq::empty(), max_connected as nat) == (devices@, keys@),
        decreases max_connected - t,
    {
        let ghost q_pre = devices@;
        let ghost keys_pre = keys@;
        match devices.pop_front() {
            None => {
                stop = true;
                proof {
                    assert(batch_spec(q_pre, keys_pre, (max_connected - t) as nat) == (
                    q_pre,
                    keys_pre,
                    ));
                }
            },
            Some(device) => {
                let addr = match &device {
                    Device::Unknown => {
                        proof {
                            assert(q_pre[0].is_unknown());
                            assert(false);
                        }
                        return keys;
                    },
                    Device::TI { device_info, .. } => addr_to_u64(&device_info.address),
                    Device::Nordic { device_info, .. } => addr_to_u64(&device_info.address),
                    Device::Pico { device_info, .. } => addr_to_u64(&device_info.address),
                    Device::Hub { device_info } => addr_to_u64(&device_info.address),
                };
                proof {
                    lemma_addr_val_64(device@.info().address);
                    assert(addr == device_key(device@));
                }
                if contains_key(&keys, addr) {
                    let _ = devices.push_back(device);
                    stop = true;
                    proof {
                        assert(devices@ =~= q_pre.drop_first().push(q_pre[0]));
                        assert(batch_spec(q_pre, keys_pre, (max_connected - t) as nat) == (
                        devices@,
                        keys@,
                        ));
                        assert forall|k: int| 0 <= k < devices@.len() implies !devices@[
                        k].is_unknown() by {
                            if k < q_pre.len() - 1 {
                                assert(devices@[k] == q_pre[k + 1]);
                            } else {
                                assert(devices@[k] == q_pre[0]);
                            }
                        }
                    }
                } else {
                    keys.push(addr);
                    let _ = devices.push_back(device);
                    proof {
                        assert(devices@ =~= q_pre.drop_first().push(q_pre[0]));
                        assert(keys@ =~= keys_pre.push(device_key(q_pre[0])));
                        assert(batch_spec(q_pre, keys_pre, (max_connected - t) as nat)
                            == batch_spec(
                            devices@,
                            keys@,
                            (max_connected - t - 1) as nat,
                        ));
                        assert forall|k: int| 0 <= k < devices@.len() implies !devices@[
                        k].is_unknown() by {
                            if k < q_pre.len() - 1 {
                                assert(devices@[k] == q_pre[k + 1]);
                            } else {
                                assert(devices@[k] == q_pre[0]);
                            }
                        }
                    }
                }
            },
        }
        t += 1;
    }
    proof {
        if !stop {
            assert(batch_spec(devices@, keys@, 0) == (devices@, keys@));
        }
    }
    keys
}

/// Runs one connection batch over the working queue.
///
/// Fails fast with `UsingUnknownDevice`, the queue untouched, if any
/// queued device is the `Unknown` kind.  Otherwise
/// [`take_connection_batch`] rotates up to `max_connected` devices from
/// the front of the queue to its back (successive batches cover every
/// device round-robin) and yields the batch's address keys, which are
/// handed to the host's connect call.
pub fn connect_devices<F: Ffi>(
    esp32: &F,
    devices: &mut DeviceQueue,
    max_connected: usize,
) -> (r: Result<(), FFIMessage>)
    ensures
        !no_unknown(old(devices)@) ==> r == Err::<(), FFIMessage>(FFIMessage::UsingUnknownDevice)
            && final(devices)@ == old(devices)@,
        no_unknown(old(devices)@) ==> r is Ok && final(devices)@ == batch_spec(
            old(devices)@,
            Seq::empty(),
            max_connected as nat,
        ).0,
{
    let n = devices.len();
    let mut i: usize = 0;
    while i < n
        invariant
            n == devices@.len(),
            i <= n,
            devices@ == old(devices)@,
            forall|k: int| 0 <= k < i ==> !devices@[k].is_unknown(),
        decreases n - i,
    {
        let device = devices.get(i);
        if let Device::Unknown = device {
            proof {
                assert(devices@[i as int].is_unknown());
            }
            return Err(FFIMessage::UsingUnknownDevice);
        }
        proof {
            assert(!devices@[i as int].is_unknown());
        }
        i += 1;
    }
    let keys = take_connection_batch(devices, max_connected);
    esp32.connect_devices(&keys);
    Ok(())
}

/// Round-robin fairness of the connection batcher: over a queue of four
/// devices with pairwise distinct address keys and a batch budget of two,
/// the first cycle's batch is the front two devices, the second cycle's
/// batch is the remaining two, and after both cycles the queue is back in
/// its original front-to-back order.
pub proof fn lemma_round_robin_two_cycles(q: Seq<DeviceView>)
    requires
        q.len() == 4,
        forall|i: int, j: int| 0 <= i < j < 4 ==> device_key(q[i]) != device_key(q[j]),
    ensures
        batch_spec(q, Seq::empty(), 2).1 == seq![device_key(q[0]), device_key(q[1])],
        batch_spec(batch_spec(q, Seq::empty(), 2).0, Seq::empty(), 2).1 == seq![
            device_key(q[2]),
            device_key(q[3]),
        ],
        batch_spec(batch_spec(q, Seq::empty(), 2).0, Seq::empty(), 2).0 == q,
{
    let k0 = device_key(q[0]);
    let k1 = device_key(q[1]);
    let k2 = device_key(q[2]);
    let k3 = device_key(q[3]);
    let e = Seq::<u64>::empty();
    // first cycle, first step: k0 is new
    assert(!e.contains(k0));
    let qa = q.drop_first().push(q[0]);
    assert(qa =~= seq![q[1], q[2], q[3], q[0]]);
    assert(batch_spec(q, e, 2) == batch_spec(qa, e.push(k0), 1));
    // first cycle, second step: k1 is new
    assert(!e.push(k0).contains(k1)) by {
        assert forall|i: int| 0 <= i < e.push(k0).len() implies e.push(k0)[i] != k1 by {
            assert(e.push(k0)[i] == k0);
        }
    }
    let qb = qa.drop_first().push(qa[0]);
    assert(qb =~= seq![q[2], q[3], q[0], q[1]]);
    assert(batch_spec(qa, e.push(k0), 1) == batch_spec(qb, e.push(k0).push(k1), 0));
    assert(batch_spec(qb, e.push(k0).push(k1), 0) == (qb, e.push(k0).push(k1)));
    assert(e.push(k0).push(k1) =~= seq![k0, k1]);
    // second cycle, first step: k2 is new
    assert(device_key(qb[0]) == k2);
    assert(!e.contains(k2));
    let qc = qb.drop_first().push(qb[0]);
    assert(qc =~= seq![q[3], q[0], q[1], q[2]]);
    assert(batch_spec(qb, e, 2) == batch_spec(qc, e.push(k2), 1));
    // second cycle, second step: k3 is new
    assert(device_key(qc[0]) == k3);
    assert(!e.push(k2).contains(k3)) by {
        assert forall|i: int| 0 <= i < e.push(k2).len() implies e.push(k2)[i] != k3 by {
            assert(e.push(k2)[i] == k2);
        }
    }
    let qd = qc.drop_first().push(qc[0]);
    assert(qd =~= q);
    assert(batch_spec(qc, e.push(k2), 1) == batch_spec(qd, e.push(k2).push(k3), 0));
    assert(batch_spec(qd, e.push(k2).push(k3), 0) == (qd, e.push(k2).push(k3)));
    assert(e.push(k2).push(k3) =~= seq![k2, k3]);
}

/// Looks for an 8-byte address in the found-address set.
fn contains_addr8(found: &Vec<[u8; 8]>, address: &[u8; 8]) -> (r: bool)
    ensures
        r == (exists|i: int| 0 <= i < found@.len() && found@[i]@ == address@),
{
    let mut i: usize = 0;
    while i < found.len()
        invariant
            i <= found@.len(),
            forall|k: int| 0 <= k < i ==> found@[k]@ != address@,
        decreases found@.len() - i,
    {
        if bytes8_eq(&found[i], address) {
            proof {
                assert(found@[i as int]@ == address@);
            }
            return true;
        }
        i += 1;
    }
    false
}

/// One running discovery session: its hard time bound and the addresses
/// found so far, kept only to deduplicate scan results.
#[derive(Debug)]
pub struct DiscoverySession {
    deadline: Time,
    found_devices: Vec<[u8; 8]>,
}

/// Mathematical model of a [`DiscoverySession`]: the instant the session
/// must end at, and the addresses found so far.
pub struct DiscoverySessionView {
    pub deadline: Time,
    pub found: Seq<Seq<u8>>,
}

impl View for DiscoverySession {
    type V = DiscoverySessionView;

    closed spec fn view(&self) -> DiscoverySessionView {
        DiscoverySessionView {
            deadline: self.deadline,
            found: self.found_devices@.map_values(|a: [u8; 8]| a@),
        }
    }
}

/// Whether a session polled at `now`, with this discovery-flag answer and
/// this found-address set, is over: its 15 seconds have passed, the flag
/// was cleared, or the set is full.
pub open spec fn session_over_spec(s: DiscoverySessionView, now: Time, flag_value: bool) -> bool {
    now.nanos() > s.deadline.nanos() || !flag_value || s.found.len() >= MAX_FOUND_DEVICES
}

impl DiscoverySession {
    #[verifier::type_invariant]
    spec fn type_inv(self) -> bool {
        self.found_devices@.len() <= MAX_FOUND_DEVICES
    }

    /// The session that a discovery-flag answer starts at time `now`:
    /// none when the flag is clear, else a fresh session with an empty
    /// found-address set, bounded at 15 seconds of wall-clock time (the
    /// bound clamped to the largest representable instant).
    pub fn session_for(flag_value: bool, now: Time) -> (r: Option<DiscoverySession>)
        ensures
            r is Some <==> flag_value,
            r matches Some(s) ==> s@.found == Seq::<Seq<u8>>::empty(),
            r matches Some(s) ==> (now.nanos() + 15 * NANOS_PER_SEC <= u64::MAX
                ==> s@.deadline.nanos() == now.nanos() + 15 * NANOS_PER_SEC),
            r matches Some(s) ==> (now.nanos() + 15 * NANOS_PER_SEC > u64::MAX
                ==> s@.deadline.nanos() == u64::MAX),
    {
        if flag_value {
            let s = DiscoverySession {
                deadline: now.saturating_add(Duration::from_secs(15)),
                found_devices: Vec::new(),
            };
            proof {
                assert(s@.found =~= Seq::<Seq<u8>>::empty());
            }
            Some(s)
        } else {
            None
        }
    }

    /// Begins a discovery session when the discovery flag is set: starts
    /// the host scan, then builds the session from the flag answer and
    /// the clock through [`DiscoverySession::session_for`], which fixes
    /// it exactly.  The driver polls the session with
    /// [`DiscoverySession::poll_once`] until it reports that it ended.
    pub fn begin<F: Ffi, S: SharedFlag>(esp32: &F, should_get_device_list: &S) -> (r: Option<
        DiscoverySession,
    >)
        ensures
            r matches Some(s) ==> s@.found == Seq::<Seq<u8>>::empty(),
    {
        let flag_value = should_get_device_list.load();
        if flag_value {
            esp32.start_remote_device_scan();
            let now = esp32.get_time();
            Self::session_for(flag_value, now)
        } else {
            // a clear flag makes no host call at all; `session_for` fixes
            // that it also yields no session
            None
        }
    }

    /// Whether the session is over, given the current time and the
    /// discovery-flag answer.
    pub fn is_over(&self, now: Time, flag_value: bool) -> (r: bool)
        ensures
            r == session_over_spec(self@, now, flag_value),
    {
        proof {
            use_type_invariant(&*self);
        }
        !(now.le(self.deadline) && flag_value && self.found_devices.len() < MAX_FOUND_DEVICES)
    }

    /// What one polled scan result does to the session — the decision at
    /// the heart of discovery, exact for every value the host can hand
    /// back.  Nothing polled, or an address already seen, changes
    /// nothing; a result whose name the host could not decode yields a
    /// name-encoding report; a new address is recorded and yields the
    /// found-device packet for the backend, or a name-encoding report
    /// when its name is not UTF-8 text.
    pub fn record_scan_result(
        &mut self,
        scan_result: Option<Result<DeviceInfo, NameUtf8Error>>,
    ) -> (r: Option<Result<FirmwareToBackendPacket, FFIMessage>>)
        requires
            old(self)@.found.len() < MAX_FOUND_DEVICES,
        ensures
            final(self)@.deadline == old(self)@.deadline,
            final(self)@.found.len() <= MAX_FOUND_DEVICES,
            ({
                match scan_result {
                    None => final(self)@.found == old(self)@.found && r is None,
                    Some(Err(_)) => final(self)@.found == old(self)@.found && r == Some(
                        Err::<FirmwareToBackendPacket, FFIMessage>(FFIMessage::BLENameUTF8Error),
                    ),
                    Some(Ok(info)) => {
                        if old(self)@.found.contains(info@.address) {
                            final(self)@.found == old(self)@.found && r is None
                        } else {
                            final(self)@.found == old(self)@.found.push(info@.address) && (
                            if utf8_valid(info@.name) {
                                (r matches Some(pr) && pr matches Ok(p)
                                    && p.packet_type matches Some(
                                    FirmwareToBackendType::DeviceInfo(w),
                                ) && w@ == (WireDeviceInfoView {
                                    address: i64_of_addr_val(addr_val(info@.address)),
                                    name: info@.name,
                                    device_type: 0,
                                }))
                            } else {
                                r == Some(
                                    Err::<FirmwareToBackendPacket, FFIMessage>(
                                        FFIMessage::BLENameUTF8Error,
                                    ),
                                )
                            })
                        }
                    },
                }
            }),
    {
        proof {
            use_type_invariant(&*self);
        }
        match scan_result {
            None => None,
            Some(Err(_)) => Some(Err(FFIMessage::BLENameUTF8Error)),
            Some(Ok(info)) => {
                let seen = contains_addr8(&self.found_devices, &info.address);
                proof {
                    assert forall|i: int| 0 <= i < self@.found.len() implies self@.found[i]
                        == self.found_devices@[i]@ by {}
                    if seen {
                        let i = choose|i: int|
                            0 <= i < self.found_devices@.len() && self.found_devices@[i]@
                                == info@.address;
                        assert(self@.found[i] == info@.address);
                    } else {
                        assert forall|i: int| 0 <= i < self@.found.len() implies self@.found[i]
                            != info@.address by {
                            assert(self.found_devices@[i]@ != info@.address);
                        }
                    }
                }
                if seen {
                    None
                } else {
                    let ghost prev = self.found_devices@;
                    let mut v: Vec<[u8; 8]> = Vec::new();
                    core::mem::swap(&mut v, &mut self.found_devices);
                    v.push(info.address);
                    self.found_devices = v;
                    proof {
                        assert(self@.found =~= prev.map_values(|a: [u8; 8]| a@).push(
                            info.address@,
                        ));
                    }
                    match info.to_wire() {
                        Some(val) => Some(
                            Ok(
                                FirmwareToBackendPacket {
                                    packet_type: Some(FirmwareToBackendType::DeviceInfo(val)),
                                },
                            ),
                        ),
                        None => Some(Err(FFIMessage::BLENameUTF8Error)),
                    }
                }
            },
        }
    }

    /// One poll of the running session; the driver calls it repeatedly,
    /// yielding between polls, and stops when it returns true.
    ///
    /// The session-over decision ([`DiscoverySession::is_over`]) and the
    /// scan-result decision ([`DiscoverySession::record_scan_result`])
    /// carry the exact contracts; this routes one host poll through them.
    /// While the session runs, one scan result is processed and whatever
    /// it yields goes out: the found-device packet to the backend, or a
    /// report to the host (a name-encoding failure and a send failure are
    /// each reported and not fatal).  When the session is over — its 15
    /// seconds passed, the flag cleared, or the found-set full — the scan
    /// is stopped and the flag cleared, on every exit path.
    pub fn poll_once<F: Ffi, S: SharedFlag>(
        &mut self,
        esp32: &F,
        should_get_device_list: &S,
    ) -> (done: bool)
        ensures
            final(self)@.deadline == old(self)@.deadline,
            final(self)@.found.len() <= MAX_FOUND_DEVICES,
            old(self)@.found.len() >= MAX_FOUND_DEVICES ==> done,
            done ==> final(self)@.found == old(self)@.found,
            !done ==> final(self)@.found == old(self)@.found || (final(self)@.found.len() == old(
                self,
            )@.found.len() + 1 && final(self)@.found == old(self)@.found.push(
                final(self)@.found.last(),
            ) && !old(self)@.found.contains(final(self)@.found.last())),
    {
        proof {
            use_type_invariant(&*self);
        }
        let now = esp32.get_time();
        let flag_value = should_get_device_list.load();
        if self.is_over(now, flag_value) {
            // the session is over: clean up on every exit path
            esp32.stop_remote_device_scan();
            should_get_device_list.store(false);
            return true;
        }
        match self.record_scan_result(esp32.get_remote_device_scan_result()) {
            Some(Ok(found_device_packet)) => {
                if esp32.send_data(found_device_packet).is_err() {
                    esp32.send_message(FFIMessage::ProtobufEncodeError);
                }
            },
            Some(Err(msg)) => esp32.send_message(msg),
            None => {},
        }
        false
    }
}

/// Applies one decoded backend packet to the registry, and decides the new
/// value of the discovery flag, if the command changes it.
///
/// A device-list command replaces the registry contents, reporting a
/// failure to the host; start and stop commands only flip the flag; an
/// absent payload is a no-op.
pub fn apply_packet<F: Ffi>(
    esp32: &F,
    packet: BackendToFirmwarePacket,
    devices_list: &mut DeviceRegistry,
) -> (flag_update: Option<bool>)
    ensures
        final(devices_list).cap() == old(devices_list).cap(),
        ({
            match packet.packet_type {
                Some(BackendToFirmwareType::Devices(devices)) => {
                    let sr = add_devices_spec(
                        wire_entry_views(devices.devices@),
                        Seq::empty(),
                        old(devices_list).cap(),
                    );
                    final(devices_list)@ == sr.0 && flag_update is None
                },
                Some(BackendToFirmwareType::StopGetDevicesList(_)) => final(devices_list)@ == old(
                    devices_list,
                )@ && flag_update == Some(false),
                Some(BackendToFirmwareType::GetDevicesList(_)) => final(devices_list)@ == old(
                    devices_list,
                )@ && flag_update == Some(true),
                None => final(devices_list)@ == old(devices_list)@ && flag_update is None,
            }
        }),
{
    match packet.packet_type {
        Some(BackendToFirmwareType::Devices(devices)) => {
            if let Err(err) = add_devices(devices_list, esp32, devices.devices.as_slice()) {
                let err = FFIMessage::from(err);
                esp32.send_message(err);
            }
            None
        },
        Some(BackendToFirmwareType::StopGetDevicesList(_)) => Some(false),
        Some(BackendToFirmwareType::GetDevicesList(_)) => Some(true),
        None => None,
    }
}

/// Applies one transport read outcome — the whole answer of the host's
/// poll — to the registry, and decides the new value of the discovery
/// flag, if any.  Exact for every outcome: a message too large for the
/// read buffer is reported as `TooMuchData`, and a decode failure as
/// `ProtobufDecodeError`, each leaving the registry untouched and the
/// flag undecided; a decoded packet is applied by [`apply_packet`].  When
/// no more data waits, a short pacing delay is requested (a failed
/// duration conversion there is reported, not fatal).
pub fn handle_websocket_read<F: Ffi>(
    esp32: &F,
    read: Result<(Result<BackendToFirmwarePacket, DecodeError>, bool), ReadError>,
    devices_list: &mut DeviceRegistry,
) -> (flag_update: Option<bool>)
    ensures
        final(devices_list).cap() == old(devices_list).cap(),
        ({
            match read {
                Err(_) => final(devices_list)@ == old(devices_list)@ && flag_update is None,
                Ok((Err(_), _)) => final(devices_list)@ == old(devices_list)@ && flag_update
                    is None,
                Ok((Ok(packet), _)) => match packet.packet_type {
                    Some(BackendToFirmwareType::Devices(devices)) => {
                        let sr = add_devices_spec(
                            wire_entry_views(devices.devices@),
                            Seq::empty(),
                            old(devices_list).cap(),
                        );
                        final(devices_list)@ == sr.0 && flag_update is None
                    },
                    Some(BackendToFirmwareType::StopGetDevicesList(_)) => final(devices_list)@
                        == old(devices_list)@ && flag_update == Some(false),
                    Some(BackendToFirmwareType::GetDevicesList(_)) => final(devices_list)@ == old(
                        devices_list,
                    )@ && flag_update == Some(true),
                    None => final(devices_list)@ == old(devices_list)@ && flag_update is None,
                },
            }
        }),
{
    match read {
        Ok((decode_result, more)) => {
            let flag_update = match decode_result {
                Ok(packet) => apply_packet(esp32, packet, devices_list),
                Err(_) => {
                    esp32.send_message(FFIMessage::ProtobufDecodeError);
                    None
                },
            };
            if !more {
                if esp32.sleep(Duration::from_micros(100)).is_err() {
                    esp32.send_message(FFIMessage::TryFromIntError);
                }
            }
            flag_update
        },
        Err(ReadError::OutOfMemory) => {
            esp32.send_message(FFIMessage::TooMuchData);
            None
        },
    }
}

/// Polls the transport once and dispatches what arrived: the read outcome
/// goes whole to [`handle_websocket_read`], which fixes what happens for
/// every value of it, and the flag decision it returns is stored.
pub fn get_websocket_data<F: Ffi, S: SharedFlag>(
    esp32: &F,
    devices_list: &mut DeviceRegistry,
    should_get_device_list: &S,
)
    ensures
        final(devices_list).cap() == old(devices_list).cap(),
        // whatever arrived, the registry is left untouched or holding
        // exactly the outcome of one batch replacement
        final(devices_list)@ == old(devices_list)@ || exists|entries: Seq<WireDeviceInfoView>|
            final(devices_list)@ == add_devices_spec(
                entries,
                Seq::empty(),
                old(devices_list).cap(),
            ).0,
{
    let read = esp32.get_websocket_data();
    let ghost read_snapshot = read;
    let flag_update = handle_websocket_read(esp32, read, devices_list);
    if let Some(update) = flag_update {
        should_get_device_list.store(update);
    }
    proof {
        if let Ok((Ok(packet), _)) = read_snapshot {
            if let Some(BackendToFirmwareType::Devices(devices)) = packet.packet_type {
                let entries = wire_entry_views(devices.devices@);
                assert(devices_list@ == add_devices_spec(
                    entries,
                    Seq::empty(),
                    old(devices_list).cap(),
                ).0);
            }
        }
    }
}

/// Whether two device collections hold the same device set: the same size,
/// and every device of `a` occurs, by address, in `b`.
pub open spec fn same_device_set(a: Seq<DeviceView>, b: Seq<DeviceView>) -> bool {
    a.len() == b.len() && forall|i: int| 0 <= i < a.len() ==> contains_by_address(b, a[i])
}

/// Checks whether the registry and the working queue hold the same device
/// set (order irrelevant, comparison by address).
pub fn contains_all(vec: &DeviceRegistry, deque: &DeviceQueue) -> (r: bool)
    ensures
        r == same_device_set(vec@, deque@),
{
    if vec.len() != deque.len() {
        return false;
    }
    let n = vec.len();
    let mut i: usize = 0;
    while i < n
        invariant
            n == vec@.len(),
            vec@.len() == deque@.len(),
            i <= n,
            forall|k: int| 0 <= k < i ==> contains_by_address(deque@, vec@[k]),
        decreases n - i,
    {
        if !deque.contains(vec.get(i)) {
            return false;
        }
        i += 1;
    }
    true
}

/// A connection batch only rotates the queue, so its length is kept.
proof fn lemma_batch_len(q: Seq<DeviceView>, keys: Seq<u64>, budget: nat)
    ensures
        batch_spec(q, keys, budget).0.len() == q.len(),
    decreases budget,
{
    if budget != 0 && q.len() != 0 {
        let q2 = q.drop_first().push(q[0]);
        if !keys.contains(device_key(q[0])) {
            lemma_batch_len(q2, keys.push(device_key(q[0])), (budget - 1) as nat);
        }
    }
}

/// A connection batch only rotates the queue, so it never introduces an
/// `Unknown` device.
proof fn lemma_batch_no_unknown(q: Seq<DeviceView>, keys: Seq<u64>, budget: nat)
    requires
        no_unknown(q),
    ensures
        no_unknown(batch_spec(q, keys, budget).0),
    decreases budget,
{
    if budget != 0 && q.len() != 0 {
        let q2 = q.drop_first().push(q[0]);
        assert forall|i: int| 0 <= i < q2.len() implies !q2[i].is_unknown() by {
            if i < q.len() - 1 {
                assert(q2[i] == q[i + 1]);
            } else {
                assert(q2[i] == q[0]);
            }
        }
        if !keys.contains(device_key(q[0])) {
            lemma_batch_no_unknown(q2, keys.push(device_key(q[0])), (budget - 1) as nat);
        }
    }
}

/// A collection holding the same device set as one without `Unknown`
/// devices has none either: an `Unknown` device is equal by address only
/// to another `Unknown` one.
proof fn lemma_same_set_no_unknown(a: Seq<DeviceView>, b: Seq<DeviceView>)
    requires
        same_device_set(a, b),
        no_unknown(b),
    ensures
        no_unknown(a),
{
    assert forall|i: int| 0 <= i < a.len() implies !a[i].is_unknown() by {
        assert(contains_by_address(b, a[i]));
        let j = choose|j: int| 0 <= j < b.len() && b[j].eq_by_address(a[i]);
        assert(!b[j].is_unknown());
    }
}

/// The wire form of every queued device, front to back, for the relay
/// packet.  The queue must hold no `Unknown` device: those have no wire
/// form and must never reach the relay.
fn build_wire_list(queue: &DeviceQueue) -> (r: Vec<WireDeviceInfo>)
    requires
        no_unknown(queue@),
    ensures
        r@.len() == queue@.len(),
        forall|i: int| 0 <= i < r@.len() ==> r@[i]@ == device_to_wire_spec(queue@[i]),
{
    let n = queue.len();
    let mut r: Vec<WireDeviceInfo> = Vec::new();
    let mut i: usize = 0;
    while i < n
        invariant
            n == queue@.len(),
            i <= n,
            r@.len() == i,
            no_unknown(queue@),
            forall|k: int| 0 <= k < i ==> r@[k]@ == device_to_wire_spec(queue@[k]),
        decreases n - i,
    {
        match device_to_wire(queue.get(i)) {
            Some(w) => r.push(w),
            None => {
                proof {
                    assert(queue@[i as int].is_unknown());
                    assert(false);
                }
            },
        }
        i += 1;
    }
    r
}

/// Discards the working queue and refills it from the registry snapshot.
pub fn refill_queue(queue: &mut DeviceQueue, snapshot: &DeviceRegistry)
    ensures
        final(queue)@ == snapshot@,
{
    queue.clear();
    let n = snapshot.len();
    let mut i: usize = 0;
    while i < n
        invariant
            n == snapshot@.len(),
            n <= MAX_DEVICES,
            i <= n,
            queue@ == snapshot@.take(i as int),
        decreases n - i,
    {
        let device = snapshot.get(i).clone();
        let _ = queue.push_back(device);
        proof {
            assert(queue@ =~= snapshot@.take(i as int + 1));
        }
        i += 1;
    }
    proof {
        assert(snapshot@.take(n as int) =~= snapshot@);
    }
}

/// One cycle of the reconciliation-and-relay task.
///
/// The driver snapshots the registry and the last-update time under the
/// mutex and hands them in; the lock is never held across this work.  When
/// the snapshot and the working queue hold the same device set, a
/// connection batch is run, the snapshot contents are pushed back in to
/// keep the queue populated, and the consolidated device list is relayed
/// to every hub-kind device in the queue; the cycle reports `Ok(true)` and
/// the driver dwells before the next cycle.  When the sets differ, the
/// queue is refilled from the snapshot and the cycle reports `Ok(false)`:
/// no connections and no relay until the queue is stable.
///
/// A batch failure is reported and returned.  A queue too small for the
/// push-back bookkeeping is reported as `RegDeviceOutOfRoomError`.  A
/// peer-send failure is reported and the relay goes on to the remaining
/// hubs: peer-list desynchronization heals on a later cycle, consistent
/// with every other transport failure here.
pub fn reconcile_cycle<F: Ffi>(
    esp32: &F,
    old_registered_devices_list: &mut DeviceQueue,
    registered_devices_list: &DeviceRegistry,
    last_update: Time,
    max_connected: usize,
) -> (r: Result<bool, FFIMessage>)
    ensures
        ({
            let snap = registered_devices_list@;
            let oldq = old(old_registered_devices_list)@;
            let newq = final(old_registered_devices_list)@;
            let rotated = batch_spec(oldq, Seq::empty(), max_connected as nat).0;
            &&& !same_device_set(snap, oldq) ==> r == Ok::<bool, FFIMessage>(false) && newq
                == snap
            &&& same_device_set(snap, oldq) && !no_unknown(oldq) ==> r == Err::<bool, FFIMessage>(
                FFIMessage::UsingUnknownDevice,
            ) && newq == oldq
            &&& same_device_set(snap, oldq) && no_unknown(oldq) && oldq.len() + snap.len()
                > MAX_DEVICES ==> r == Err::<bool, FFIMessage>(FFIMessage::RegDeviceOutOfRoomError)
                && newq == rotated
            &&& same_device_set(snap, oldq) && no_unknown(oldq) && oldq.len() + snap.len()
                <= MAX_DEVICES ==> r == Ok::<bool, FFIMessage>(true) && newq == rotated + snap
        }),
{
    let ghost snap = registered_devices_list@;
    let ghost oldq = old_registered_devices_list@;
    if contains_all(registered_devices_list, old_registered_devices_list) {
        match connect_devices(esp32, old_registered_devices_list, max_connected) {
            Err(msg) => {
                esp32.send_message(msg);
                return Err(msg);
            },
            Ok(_) => {},
        }
        proof {
            lemma_batch_no_unknown(oldq, Seq::empty(), max_connected as nat);
            lemma_batch_len(oldq, Seq::empty(), max_connected as nat);
            lemma_same_set_no_unknown(snap, oldq);
        }
        let qlen = old_registered_devices_list.len();
        let rlen = registered_devices_list.len();
        if qlen + rlen > MAX_DEVICES {
            esp32.send_message(FFIMessage::RegDeviceOutOfRoomError);
            return Err(FFIMessage::RegDeviceOutOfRoomError);
        }
        let ghost rotated = old_registered_devices_list@;
        let mut i: usize = 0;
        while i < rlen
            invariant
                rlen == snap.len(),
                snap == registered_devices_list@,
                i <= rlen,
                old_registered_devices_list@ == rotated + snap.take(i as int),
                rotated.len() + rlen <= MAX_DEVICES,
            decreases rlen - i,
        {
            let device = registered_devices_list.get(i).clone();
            let _ = old_registered_devices_list.push_back(device);
            proof {
                assert(old_registered_devices_list@ =~= rotated + snap.take(i as int + 1));
            }
            i += 1;
        }
        proof {
            assert(rotated + snap.take(rlen as int) =~= rotated + snap);
            assert forall|k: int|
                0 <= k < old_registered_devices_list@.len() implies !old_registered_devices_list@[
            k].is_unknown() by {
                if k < rotated.len() {
                    assert(old_registered_devices_list@[k] == rotated[k]);
                } else {
                    assert(old_registered_devices_list@[k] == snap[k - rotated.len()]);
                }
            }
        }
        // relay the consolidated list to every hub-kind device in the queue
        let timestamp_secs = last_update.time_since_epoch.as_secs();
        proof {
            vstd::arithmetic::div_mod::lemma_div_is_ordered(
                last_update.time_since_epoch.nanos as int,
                u64::MAX as int,
                NANOS_PER_SEC as int,
            );
        }
        let timestamp = timestamp_secs as i64;
        let m = old_registered_devices_list.len();
        let ghost qv = old_registered_devices_list@;
        let mut i: usize = 0;
        while i < m
            invariant
                m == qv.len(),
                qv == old_registered_devices_list@,
                no_unknown(qv),
                i <= m,
            decreases m - i,
        {
            let device = old_registered_devices_list.get(i);
            if let Device::Hub { device_info } = device {
                let list = build_wire_list(old_registered_devices_list);
                let packet = FirmwareToFirmwarePacket {
                    timestamp,
                    packet_type: Some(
                        FirmwareToFirmwareType::DevicesList(DevicesList { devices: list }),
                    ),
                };
                if esp32.ble_send_packet(device_info, packet).is_err() {
                    esp32.send_message(FFIMessage::ProtobufEncodeError);
                }
            }
            i += 1;
        }
        Ok(true)
    } else {
        refill_queue(old_registered_devices_list, registered_devices_list);
        Ok(false)
    }
}

} // verus!
